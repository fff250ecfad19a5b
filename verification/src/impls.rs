//! The trait implementations that carry the arms.
//!
//! Nothing is written out here: a block says which trait is implemented, for
//! which type, and with which arms. Whoever writes out the code weaves each
//! block into an `impl` with a single `match`.

use vstd::prelude::*;
use crate::arms::{assembled, get_arms, Arm, ArmBody, ArmView, EnumDescriptor, Pattern};
use crate::config::ConfigError;

verus! {

/// Which static-string conversion is asked for.
#[derive(Clone, Copy, Debug, PartialEq, Eq, Structural)]
pub enum GenerateTraitVariant {
    /// The `AsStaticRef<str>` trait.
    AsStaticStr,
    /// `From`, of the type and of a reference to it, for `&'static str`.
    From,
}

/// The trait that a block implements and the value that its `match` looks at.
#[derive(Clone, Copy, Debug, PartialEq, Eq, Structural)]
pub enum ImplKind {
    /// `AsRef<str>` for the type; matches on `*self`.
    AsRefStr,
    /// `AsStaticRef<str>` for the type; matches on `*self`.
    AsStaticRefStr,
    /// `From` of the type, for `&'static str`; matches on the argument.
    FromOwned,
    /// `From` of a reference to the type, for `&'static str`; matches on what
    /// the argument points to. The reference has a lifetime of its own, which
    /// the block adds to the type's generic parameters.
    FromBorrowed,
}

/// The name of the lifetime that a kind of block adds, if it adds one.
pub open spec fn added_lifetime(kind: ImplKind) -> Option<Seq<char>> {
    match kind {
        ImplKind::FromBorrowed => Some("_derivative_strum"@),
        _ => None,
    }
}

/// What the fault arm tells whoever reaches it.
pub open spec fn fault_text() -> Seq<char> {
    "AsRef::<str>::as_ref() or AsStaticRef::<str>::as_static() called on disabled variant."@
}

/// The message with which the fault arm fails.
pub fn fault_message() -> (message: &'static str)
    ensures
        message@ == fault_text(),
{
    "AsRef::<str>::as_ref() or AsStaticRef::<str>::as_static() called on disabled variant."
}

impl ImplKind {
    /// The lifetime, without its tick, that this kind of block adds to the
    /// type's generic parameters.
    pub fn extra_lifetime(self) -> (name: Option<&'static str>)
        ensures
            match added_lifetime(self) {
                Some(v) => name matches Some(n) && n@ == v,
                None => name is None,
            },
    {
        match self {
            ImplKind::FromBorrowed => Some("_derivative_strum"),
            _ => None,
        }
    }
}

/// One trait implementation to be written out.
#[derive(Clone, Debug, PartialEq, Eq)]
pub struct ImplBlock<'a, G> {
    pub kind: ImplKind,
    /// The type that the arms match on.
    pub type_ident: String,
    /// The generic parameters of that type, as they came in.
    pub generics: &'a G,
    pub arms: Vec<Arm>,
}

/// What an [`ImplBlock`] holds, as mathematical values, without the generic
/// parameters.
pub struct ImplBlockView {
    pub kind: ImplKind,
    pub type_ident: Seq<char>,
    pub arms: Seq<ArmView>,
}

impl<'a, G> View for ImplBlock<'a, G> {
    type V = ImplBlockView;

    open spec fn view(&self) -> ImplBlockView {
        ImplBlockView {
            kind: self.kind,
            type_ident: self.type_ident@,
            arms: self.arms.deep_view(),
        }
    }
}

impl<'a, G> DeepView for ImplBlock<'a, G> {
    type V = ImplBlockView;

    open spec fn deep_view(&self) -> ImplBlockView {
        self@
    }
}

/// The kinds of block that a static-string conversion consists of, in the
/// order they are written out.
pub open spec fn static_kinds(trait_variant: GenerateTraitVariant) -> Seq<ImplKind> {
    match trait_variant {
        GenerateTraitVariant::AsStaticStr => seq![ImplKind::AsStaticRefStr],
        GenerateTraitVariant::From => seq![ImplKind::FromOwned, ImplKind::FromBorrowed],
    }
}

/// One block of each kind, all for the same type and with the same arms.
pub open spec fn blocks_of(
    kinds: Seq<ImplKind>,
    type_ident: Seq<char>,
    arms: Seq<ArmView>,
) -> Seq<ImplBlockView> {
    Seq::new(kinds.len(), |i: int| ImplBlockView { kind: kinds[i], type_ident, arms })
}

/// A copy of the arms.
pub fn copy_arms(arms: &Vec<Arm>) -> (copy: Vec<Arm>)
    ensures
        copy.deep_view() == arms.deep_view(),
{
    let mut copy: Vec<Arm> = Vec::new();
    let mut i: usize = 0;
    while i < arms.len()
        invariant
            i <= arms.len(),
            copy.deep_view() == arms.deep_view().take(i as int),
        decreases arms.len() - i,
    {
        let pattern = match &arms[i].pattern {
            Pattern::Variant { enum_ident, variant_ident, shape } => Pattern::Variant {
                enum_ident: enum_ident.clone(),
                variant_ident: variant_ident.clone(),
                shape: *shape,
            },
            Pattern::CatchAll => Pattern::CatchAll,
        };
        let body = match &arms[i].body {
            ArmBody::Label(label) => ArmBody::Label(label.clone()),
            ArmBody::Fault => ArmBody::Fault,
        };
        let ghost held = copy.deep_view();
        copy.push(Arm { pattern, body });
        proof {
            let all = arms.deep_view();
            assert(copy.deep_view() =~= held.push(all[i as int]));
            assert(all.take(i + 1) =~= all.take(i as int).push(all[i as int]));
        }
        i += 1;
    }
    proof {
        let all = arms.deep_view();
        assert(all.take(all.len() as int) =~= all);
    }
    copy
}

/// The implementation of `AsRef<str>` for an enumeration.
pub fn as_ref_str_inner<'a, G>(ast: &'a EnumDescriptor<G>) -> (block: Result<
    ImplBlock<'a, G>,
    ConfigError,
>)
    ensures
        match assembled(ast@) {
            Ok(arms) => block matches Ok(b) && b.generics == &ast.generics && b@ == (ImplBlockView {
                kind: ImplKind::AsRefStr,
                type_ident: ast@.ident,
                arms,
            }),
            Err(e) => block matches Err(f) && f == e,
        },
{
    match get_arms(ast) {
        Ok(arms) => Ok(
            ImplBlock {
                kind: ImplKind::AsRefStr,
                type_ident: ast.ident.clone(),
                generics: &ast.generics,
                arms,
            },
        ),
        Err(e) => Err(e),
    }
}

/// The implementations that make up a static-string conversion of an
/// enumeration: one block for `AsStaticStr`; for `From` two, first of the type
/// and then of a reference to it.
pub fn as_static_str_inner<'a, G>(
    ast: &'a EnumDescriptor<G>,
    trait_variant: GenerateTraitVariant,
) -> (blocks: Result<Vec<ImplBlock<'a, G>>, ConfigError>)
    ensures
        match assembled(ast@) {
            Ok(arms) => blocks matches Ok(b) && b.deep_view() == blocks_of(
                static_kinds(trait_variant),
                ast@.ident,
                arms,
            ) && forall|i: int| 0 <= i < b.len() ==> (#[trigger] b[i]).generics == &ast.generics,
            Err(e) => blocks matches Err(f) && f == e,
        },
{
    let arms = match get_arms(ast) {
        Ok(arms) => arms,
        Err(e) => {
            return Err(e);
        },
    };
    let mut blocks: Vec<ImplBlock<'a, G>> = Vec::new();
    match trait_variant {
        GenerateTraitVariant::AsStaticStr => {
            blocks.push(
                ImplBlock {
                    kind: ImplKind::AsStaticRefStr,
                    type_ident: ast.ident.clone(),
                    generics: &ast.generics,
                    arms,
                },
            );
        },
        GenerateTraitVariant::From => {
            let arms2 = copy_arms(&arms);
            blocks.push(
                ImplBlock {
                    kind: ImplKind::FromOwned,
                    type_ident: ast.ident.clone(),
                    generics: &ast.generics,
                    arms,
                },
            );
            blocks.push(
                ImplBlock {
                    kind: ImplKind::FromBorrowed,
                    type_ident: ast.ident.clone(),
                    generics: &ast.generics,
                    arms: arms2,
                },
            );
        },
    }
    assert(blocks.deep_view() =~= blocks_of(
        static_kinds(trait_variant),
        ast@.ident,
        assembled(ast@)->Ok_0,
    ));
    Ok(blocks)
}

} // verus!
