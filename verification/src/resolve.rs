//! From a variant's configuration to its label.
//!
//! The rules, in order: a disabled variant has no label; an explicit name is
//! the label; else the longest alternate name is; else the identifier,
//! rewritten in the enumeration's case style.

use vstd::prelude::*;
use vstd::utf8::encode_utf8;
use crate::case_style::{convert_case, converted, CaseStyle};
use crate::config::{VariantConfig, VariantConfigView};

verus! {

/// What a variant resolves to.
#[derive(Clone, Debug, PartialEq, Eq)]
pub enum ResolvedLabel {
    /// The variant is left out of the mapping.
    Disabled,
    /// The string that stands for the variant.
    Label(String),
}

/// What a [`ResolvedLabel`] holds, as mathematical values.
pub enum ResolvedLabelView {
    Disabled,
    Label(Seq<char>),
}

impl View for ResolvedLabel {
    type V = ResolvedLabelView;

    open spec fn view(&self) -> ResolvedLabelView {
        match self {
            ResolvedLabel::Disabled => ResolvedLabelView::Disabled,
            ResolvedLabel::Label(label) => ResolvedLabelView::Label(label@),
        }
    }
}

/// The length by which alternate names are compared: the number of bytes of
/// the name in UTF-8.
pub open spec fn byte_len(name: Seq<char>) -> nat {
    encode_utf8(name).len()
}

/// Whether `at` is the place of the chosen alternate: no name is longer, and
/// every name after it is shorter. Among names of the greatest length this is
/// the one written last; nothing but its length should be relied on.
pub open spec fn is_longest_at(names: Seq<Seq<char>>, at: int) -> bool {
    &&& 0 <= at < names.len()
    &&& forall|j: int| 0 <= j < names.len() ==> byte_len(#[trigger] names[j]) <= byte_len(names[at])
    &&& forall|j: int| at < j < names.len() ==> byte_len(#[trigger] names[j]) < byte_len(names[at])
}

/// The place of the chosen alternate, found by going through the names from
/// the first: a later name takes the place when it is at least as long.
pub open spec fn longest_index(names: Seq<Seq<char>>) -> int
    decreases names.len(),
{
    if names.len() <= 1 {
        0
    } else {
        let earlier = longest_index(names.drop_last());
        if byte_len(names.last()) >= byte_len(names[earlier]) {
            names.len() - 1
        } else {
            earlier
        }
    }
}

/// The chosen place holds a name of the greatest length, and is the last
/// place that does.
pub proof fn lemma_longest_index(names: Seq<Seq<char>>)
    requires
        names.len() > 0,
    ensures
        is_longest_at(names, longest_index(names)),
    decreases names.len(),
{
    if names.len() > 1 {
        let front = names.drop_last();
        lemma_longest_index(front);
        let earlier = longest_index(front);
        assert(forall|j: int| 0 <= j < front.len() ==> front[j] == names[j]);
        assert(forall|j: int|
            0 <= j < names.len() - 1 ==> byte_len(#[trigger] names[j]) == byte_len(front[j]));
    }
}

/// Finds the longest of the names; among several of that length, the last.
/// `None` where there is no name.
pub fn longest(names: &Vec<String>) -> (at: Option<usize>)
    ensures
        names.len() == 0 <==> at is None,
        at matches Some(i) ==> i == longest_index(names.deep_view()) && is_longest_at(
            names.deep_view(),
            i as int,
        ),
{
    if names.len() == 0 {
        return None;
    }
    let mut at: usize = 0;
    let mut best: usize = names[0].as_str().as_bytes().len();
    let mut i: usize = 1;
    proof {
        assert(names.deep_view().take(1).len() == 1);
    }
    while i < names.len()
        invariant
            1 <= i <= names.len(),
            at < i,
            at == longest_index(names.deep_view().take(i as int)),
            best == byte_len(names.deep_view()[at as int]),
        decreases names.len() - i,
    {
        let len = names[i].as_str().as_bytes().len();
        proof {
            let all = names.deep_view();
            assert(all.take(i + 1).drop_last() =~= all.take(i as int));
            assert(all.take(i + 1).last() == all[i as int]);
            assert(all.take(i + 1)[at as int] == all[at as int]);
        }
        if len >= best {
            at = i;
            best = len;
        }
        i += 1;
    }
    proof {
        let all = names.deep_view();
        assert(all.take(all.len() as int) =~= all);
        lemma_longest_index(all);
    }
    Some(at)
}

/// The label of a variant with this identifier and configuration, in an
/// enumeration with this case style.
pub open spec fn resolved(
    ident: Seq<char>,
    config: VariantConfigView,
    style: Option<CaseStyle>,
) -> ResolvedLabelView {
    if config.disabled {
        ResolvedLabelView::Disabled
    } else if let Some(name) = config.explicit_name {
        ResolvedLabelView::Label(name)
    } else if config.alt_names.len() > 0 {
        ResolvedLabelView::Label(config.alt_names[longest_index(config.alt_names)])
    } else {
        ResolvedLabelView::Label(converted(ident, style))
    }
}

/// Resolves the label of one variant.
pub fn resolve_label(ident: &str, config: &VariantConfig, style: Option<CaseStyle>) -> (label:
    ResolvedLabel)
    ensures
        label@ == resolved(ident@, config@, style),
{
    if config.disabled {
        return ResolvedLabel::Disabled;
    }
    if let Some(name) = &config.explicit_name {
        return ResolvedLabel::Label(name.clone());
    }
    match longest(&config.alt_names) {
        Some(at) => ResolvedLabel::Label(config.alt_names[at].clone()),
        None => ResolvedLabel::Label(convert_case(ident, style)),
    }
}

} // verus!
