//! Case styles and the conversion of an identifier to a style.

use vstd::prelude::*;
use crate::text::same_text;

verus! {

/// How an identifier is rewritten when a variant has no name of its own.
#[derive(Clone, Copy, Debug, PartialEq, Eq, Structural)]
pub enum CaseStyle {
    CamelCase,
    KebabCase,
    MixedCase,
    ShoutySnakeCase,
    SnakeCase,
    TitleCase,
}

/// The style that a style name stands for, if it names one.
pub open spec fn style_named(name: Seq<char>) -> Option<CaseStyle> {
    if name == "camel_case"@ {
        Some(CaseStyle::CamelCase)
    } else if name == "kebab_case"@ {
        Some(CaseStyle::KebabCase)
    } else if name == "mixed_case"@ {
        Some(CaseStyle::MixedCase)
    } else if name == "shouty_snake_case"@ || name == "shouty_snek_case"@ {
        Some(CaseStyle::ShoutySnakeCase)
    } else if name == "snake_case"@ || name == "snek_case"@ {
        Some(CaseStyle::SnakeCase)
    } else if name == "title_case"@ {
        Some(CaseStyle::TitleCase)
    } else {
        None
    }
}

impl CaseStyle {
    /// Reads a style name. `None` for a name that stands for no style.
    pub fn from_name(name: &str) -> (style: Option<CaseStyle>)
        ensures
            style == style_named(name@),
    {
        if same_text(name, "camel_case") {
            Some(CaseStyle::CamelCase)
        } else if same_text(name, "kebab_case") {
            Some(CaseStyle::KebabCase)
        } else if same_text(name, "mixed_case") {
            Some(CaseStyle::MixedCase)
        } else if same_text(name, "shouty_snake_case") || same_text(name, "shouty_snek_case") {
            Some(CaseStyle::ShoutySnakeCase)
        } else if same_text(name, "snake_case") || same_text(name, "snek_case") {
            Some(CaseStyle::SnakeCase)
        } else if same_text(name, "title_case") {
            Some(CaseStyle::TitleCase)
        } else {
            None
        }
    }
}

/// The upper camel case form of `ident`, as heck's `CamelCase` computes it.
pub uninterp spec fn camel_case_of(ident: Seq<char>) -> Seq<char>;

/// The kebab case form of `ident`, as heck's `KebabCase` computes it.
pub uninterp spec fn kebab_case_of(ident: Seq<char>) -> Seq<char>;

/// The lower camel case form of `ident`, as heck's `MixedCase` computes it.
pub uninterp spec fn mixed_case_of(ident: Seq<char>) -> Seq<char>;

/// The upper snake case form of `ident`, as heck's `ShoutySnakeCase` computes it.
pub uninterp spec fn shouty_snake_case_of(ident: Seq<char>) -> Seq<char>;

/// The snake case form of `ident`, as heck's `SnakeCase` computes it.
pub uninterp spec fn snake_case_of(ident: Seq<char>) -> Seq<char>;

/// The title case form of `ident`, as heck's `TitleCase` computes it.
pub uninterp spec fn title_case_of(ident: Seq<char>) -> Seq<char>;

/// Trusted: calls `heck::CamelCase::to_camel_case` on a `str`. The result
/// depends on the characters of `ident` alone; the contract gives it a name
/// and claims nothing else of it.
#[verifier::external_body]
fn to_camel_case(ident: &str) -> (out: String)
    ensures
        out@ == camel_case_of(ident@),
{
    heck::CamelCase::to_camel_case(ident)
}

/// Trusted: calls `heck::KebabCase::to_kebab_case` on a `str`. The result
/// depends on the characters of `ident` alone; the contract gives it a name
/// and claims nothing else of it.
#[verifier::external_body]
fn to_kebab_case(ident: &str) -> (out: String)
    ensures
        out@ == kebab_case_of(ident@),
{
    heck::KebabCase::to_kebab_case(ident)
}

/// Trusted: calls `heck::MixedCase::to_mixed_case` on a `str`. The result
/// depends on the characters of `ident` alone; the contract gives it a name
/// and claims nothing else of it.
#[verifier::external_body]
fn to_mixed_case(ident: &str) -> (out: String)
    ensures
        out@ == mixed_case_of(ident@),
{
    heck::MixedCase::to_mixed_case(ident)
}

/// Trusted: calls `heck::ShoutySnakeCase::to_shouty_snake_case` on a `str`.
/// The result depends on the characters of `ident` alone; the contract gives
/// it a name and claims nothing else of it.
#[verifier::external_body]
fn to_shouty_snake_case(ident: &str) -> (out: String)
    ensures
        out@ == shouty_snake_case_of(ident@),
{
    heck::ShoutySnakeCase::to_shouty_snake_case(ident)
}

/// Trusted: calls `heck::SnakeCase::to_snake_case` on a `str`. The result
/// depends on the characters of `ident` alone; the contract gives it a name
/// and claims nothing else of it.
#[verifier::external_body]
fn to_snake_case(ident: &str) -> (out: String)
    ensures
        out@ == snake_case_of(ident@),
{
    heck::SnakeCase::to_snake_case(ident)
}

/// Trusted: calls `heck::TitleCase::to_title_case` on a `str`. The result
/// depends on the characters of `ident` alone; the contract gives it a name
/// and claims nothing else of it.
#[verifier::external_body]
fn to_title_case(ident: &str) -> (out: String)
    ensures
        out@ == title_case_of(ident@),
{
    heck::TitleCase::to_title_case(ident)
}

/// The label derived from an identifier: the identifier itself where no
/// style is set, else its form in that style.
pub open spec fn converted(ident: Seq<char>, style: Option<CaseStyle>) -> Seq<char> {
    match style {
        None => ident,
        Some(CaseStyle::CamelCase) => camel_case_of(ident),
        Some(CaseStyle::KebabCase) => kebab_case_of(ident),
        Some(CaseStyle::MixedCase) => mixed_case_of(ident),
        Some(CaseStyle::ShoutySnakeCase) => shouty_snake_case_of(ident),
        Some(CaseStyle::SnakeCase) => snake_case_of(ident),
        Some(CaseStyle::TitleCase) => title_case_of(ident),
    }
}

/// Derives a label from an identifier. Without a style the identifier comes
/// back unchanged.
pub fn convert_case(ident: &str, style: Option<CaseStyle>) -> (out: String)
    ensures
        out@ == converted(ident@, style),
{
    match style {
        None => ident.to_owned(),
        Some(CaseStyle::CamelCase) => to_camel_case(ident),
        Some(CaseStyle::KebabCase) => to_kebab_case(ident),
        Some(CaseStyle::MixedCase) => to_mixed_case(ident),
        Some(CaseStyle::ShoutySnakeCase) => to_shouty_snake_case(ident),
        Some(CaseStyle::SnakeCase) => to_snake_case(ident),
        Some(CaseStyle::TitleCase) => to_title_case(ident),
    }
}

} // verus!
