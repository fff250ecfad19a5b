//! What holds of every enumeration and every variant.

use vstd::prelude::*;
use crate::arms::{
    arm_of, assembled, fault_arm, first_error, label_of, outcome, variant_arms, ArmBodyView,
    ArmView, EnumDescriptorView, PatternView, VariantDescriptorView,
};
use crate::case_style::CaseStyle;
use crate::config::{config_of, style_of, ConfigError, VariantConfigView};
use crate::resolve::{
    byte_len, is_longest_at, lemma_longest_index, longest_index, resolved, ResolvedLabel,
    ResolvedLabelView,
};

verus! {

/// Whether the variant's annotations are well formed and carry the disable
/// marker.
pub open spec fn is_disabled_variant(variant: VariantDescriptorView) -> bool {
    config_of(variant.annotations) matches Ok(config) && config.disabled
}

/// Whether some variant is disabled.
pub open spec fn some_disabled(variants: Seq<VariantDescriptorView>) -> bool {
    exists|i: int| 0 <= i < variants.len() && is_disabled_variant(#[trigger] variants[i])
}

/// The number of variants that are not disabled.
pub open spec fn enabled_count(variants: Seq<VariantDescriptorView>) -> nat
    decreases variants.len(),
{
    if variants.len() == 0 {
        0
    } else if is_disabled_variant(variants.last()) {
        enabled_count(variants.drop_last())
    } else {
        enabled_count(variants.drop_last()) + 1
    }
}

/// The number of arms that fail when reached.
pub open spec fn fault_count(arms: Seq<ArmView>) -> nat
    decreases arms.len(),
{
    if arms.len() == 0 {
        0
    } else if arms.last().body is Fault {
        fault_count(arms.drop_last()) + 1
    } else {
        fault_count(arms.drop_last())
    }
}

/// The arm of an enabled variant whose label is its identifier.
pub open spec fn identity_arm(enum_ident: Seq<char>, variant: VariantDescriptorView) -> ArmView {
    ArmView {
        pattern: PatternView::Variant {
            enum_ident,
            variant_ident: variant.ident,
            shape: variant.shape,
        },
        body: ArmBodyView::Label(variant.ident),
    }
}

/// No variant is in error exactly when every variant's annotations are well
/// formed.
pub proof fn lemma_first_error(variants: Seq<VariantDescriptorView>)
    ensures
        first_error(variants) is None <==> forall|i: int|
            0 <= i < variants.len() ==> config_of((#[trigger] variants[i]).annotations) is Ok,
    decreases variants.len(),
{
    if variants.len() > 0 {
        let rest = variants.drop_first();
        lemma_first_error(rest);
        assert(forall|i: int| 0 <= i < rest.len() ==> rest[i] == variants[i + 1]);
        if first_error(variants) is None {
            assert forall|i: int| 0 <= i < variants.len() implies config_of(
                (#[trigger] variants[i]).annotations,
            ) is Ok by {
                if i > 0 {
                    assert(rest[i - 1] == variants[i]);
                }
            }
        }
        if forall|i: int|
            0 <= i < variants.len() ==> config_of((#[trigger] variants[i]).annotations) is Ok {
            assert(config_of(variants[0].annotations) is Ok);
            assert forall|i: int| 0 <= i < rest.len() implies config_of(
                (#[trigger] rest[i]).annotations,
            ) is Ok by {
                assert(rest[i] == variants[i + 1]);
            }
        }
    }
}

/// Where no variant is in error, the variants' arms are those of the enabled
/// variants: as many as there are enabled variants, none of them a fault, each
/// the arm of a variant that is not disabled; and fewer than the variants
/// exactly when some variant is disabled.
pub proof fn lemma_variant_arms(
    enum_ident: Seq<char>,
    variants: Seq<VariantDescriptorView>,
    style: Option<CaseStyle>,
)
    requires
        first_error(variants) is None,
    ensures
        variant_arms(enum_ident, variants, style).len() == enabled_count(variants),
        enabled_count(variants) <= variants.len(),
        enabled_count(variants) < variants.len() <==> some_disabled(variants),
        fault_count(variant_arms(enum_ident, variants, style)) == 0,
        forall|k: int|
            0 <= k < variant_arms(enum_ident, variants, style).len() ==> exists|i: int|
                0 <= i < variants.len() && !is_disabled_variant(variants[i]) && #[trigger] arm_of(
                    enum_ident,
                    variants[i],
                    style,
                ) == Some(#[trigger] variant_arms(enum_ident, variants, style)[k]),
    decreases variants.len(),
{
    lemma_first_error(variants);
    if variants.len() > 0 {
        let front = variants.drop_last();
        let last = variants.last();
        assert(forall|i: int| 0 <= i < front.len() ==> front[i] == variants[i]);
        lemma_first_error(front);
        lemma_variant_arms(enum_ident, front, style);
        let earlier = variant_arms(enum_ident, front, style);
        let arms = variant_arms(enum_ident, variants, style);
        assert(config_of(last.annotations) is Ok);
        if some_disabled(front) {
            let i = choose|i: int| 0 <= i < front.len() && is_disabled_variant(#[trigger] front[i]);
            assert(is_disabled_variant(variants[i]));
        }
        if some_disabled(variants) && !is_disabled_variant(last) {
            let i = choose|i: int|
                0 <= i < variants.len() && is_disabled_variant(#[trigger] variants[i]);
            assert(is_disabled_variant(front[i]));
        }
        assert forall|k: int| 0 <= k < arms.len() implies exists|i: int|
            0 <= i < variants.len() && !is_disabled_variant(variants[i]) && #[trigger] arm_of(
                enum_ident,
                variants[i],
                style,
            ) == Some(#[trigger] arms[k]) by {
            if k < earlier.len() {
                assert(arms[k] == earlier[k]);
                let i = choose|i: int|
                    0 <= i < front.len() && !is_disabled_variant(front[i]) && #[trigger] arm_of(
                        enum_ident,
                        front[i],
                        style,
                    ) == Some(earlier[k]);
                assert(front[i] == variants[i]);
                assert(arm_of(enum_ident, variants[i], style) == Some(arms[k]));
            } else {
                let i = variants.len() - 1;
                assert(arm_of(enum_ident, variants[i], style) == Some(arms[k]));
            }
        }
        if !is_disabled_variant(last) {
            assert(arms.drop_last() =~= earlier);
        }
    }
}

/// An enumeration without any annotation, on itself or on a variant, has no
/// case style; every variant resolves to its identifier unchanged; and the
/// arms are one per variant, in declaration order, without a fault arm.
pub proof fn law_unannotated_labels_are_identifiers(ast: EnumDescriptorView)
    requires
        ast.annotations.len() == 0,
        forall|i: int| 0 <= i < ast.variants.len() ==> (#[trigger] ast.variants[i]).annotations.len() == 0,
    ensures
        style_of(ast.annotations) == Ok::<Option<CaseStyle>, ConfigError>(None),
        forall|i: int|
            0 <= i < ast.variants.len() ==> label_of(#[trigger] ast.variants[i], None) == Ok::<
                ResolvedLabelView,
                ConfigError,
            >(ResolvedLabelView::Label(ast.variants[i].ident)),
        assembled(ast) == Ok::<Seq<ArmView>, ConfigError>(
            Seq::new(ast.variants.len(), |i: int| identity_arm(ast.ident, ast.variants[i])),
        ),
{
    lemma_unannotated_arms(ast.ident, ast.variants);
    lemma_first_error(ast.variants);
}

/// The arms of variants without annotations, under no case style.
proof fn lemma_unannotated_arms(enum_ident: Seq<char>, variants: Seq<VariantDescriptorView>)
    requires
        forall|i: int| 0 <= i < variants.len() ==> (#[trigger] variants[i]).annotations.len() == 0,
    ensures
        variant_arms(enum_ident, variants, None) == Seq::new(
            variants.len(),
            |i: int| identity_arm(enum_ident, variants[i]),
        ),
    decreases variants.len(),
{
    if variants.len() > 0 {
        let front = variants.drop_last();
        assert(forall|i: int| 0 <= i < front.len() ==> front[i] == variants[i]);
        lemma_unannotated_arms(enum_ident, front);
        assert(variants.last().annotations.len() == 0);
        assert(variant_arms(enum_ident, variants, None) =~= Seq::new(
            variants.len(),
            |i: int| identity_arm(enum_ident, variants[i]),
        ));
    } else {
        assert(variant_arms(enum_ident, variants, None) =~= Seq::new(
            variants.len(),
            |i: int| identity_arm(enum_ident, variants[i]),
        ));
    }
}

/// In the arms of a well-formed enumeration a disabled variant has no arm and
/// every other variant has one: the arms begin with those of the enabled
/// variants, in declaration order, none of them a fault. The fault arm closes
/// the list where some variant is disabled, and only there: the list holds
/// one fault arm if a variant is disabled and none otherwise.
pub proof fn law_disabled_variants_have_no_arm(ast: EnumDescriptorView)
    requires
        assembled(ast) is Ok,
    ensures
        ({
            let arms = assembled(ast)->Ok_0;
            let style = style_of(ast.annotations)->Ok_0;
            let enabled = enabled_count(ast.variants);
            &&& forall|i: int|
                0 <= i < ast.variants.len() ==> (is_disabled_variant(ast.variants[i]) <==> #[trigger] arm_of(
                    ast.ident,
                    ast.variants[i],
                    style,
                ) is None)
            &&& enabled <= arms.len()
            &&& arms.take(enabled as int) == variant_arms(ast.ident, ast.variants, style)
            &&& forall|k: int|
                0 <= k < enabled ==> exists|i: int|
                    0 <= i < ast.variants.len() && !is_disabled_variant(ast.variants[i])
                        && #[trigger] arm_of(ast.ident, ast.variants[i], style) == Some(
                        #[trigger] arms[k],
                    )
            &&& some_disabled(ast.variants) ==> arms.len() == enabled + 1 && arms.last()
                == fault_arm()
            &&& !some_disabled(ast.variants) ==> arms.len() == enabled
            &&& fault_count(arms) == (if some_disabled(ast.variants) {
                1nat
            } else {
                0nat
            })
        }),
{
    let style = style_of(ast.annotations)->Ok_0;
    let inner = variant_arms(ast.ident, ast.variants, style);
    let arms = assembled(ast)->Ok_0;
    lemma_first_error(ast.variants);
    lemma_variant_arms(ast.ident, ast.variants, style);
    if some_disabled(ast.variants) {
        assert(arms == inner.push(fault_arm()));
        assert(arms.drop_last() =~= inner);
        assert(arms.take(inner.len() as int) =~= inner);
    } else {
        assert(arms.take(inner.len() as int) =~= inner);
    }
    assert forall|k: int| 0 <= k < inner.len() implies exists|i: int|
        0 <= i < ast.variants.len() && !is_disabled_variant(ast.variants[i]) && #[trigger] arm_of(
            ast.ident,
            ast.variants[i],
            style,
        ) == Some(#[trigger] arms[k]) by {
        assert(arms[k] == inner[k]);
    }
}

/// A variant that is not disabled and has an explicit name resolves to that
/// name, whatever its alternate names and whatever the case style.
pub proof fn law_explicit_name_wins(
    variant: VariantDescriptorView,
    style: Option<CaseStyle>,
    name: Seq<char>,
)
    requires
        config_of(variant.annotations) matches Ok(config) && !config.disabled
            && config.explicit_name == Some(name),
    ensures
        label_of(variant, style) == Ok::<ResolvedLabelView, ConfigError>(
            ResolvedLabelView::Label(name),
        ),
{
}

/// With an explicit name the alternate names are ignored: two configurations
/// that differ in nothing but their alternate names resolve alike.
pub proof fn law_alternates_ignored_under_explicit_name(
    ident: Seq<char>,
    config: VariantConfigView,
    other_names: Seq<Seq<char>>,
    style: Option<CaseStyle>,
)
    requires
        config.explicit_name is Some,
    ensures
        resolved(ident, config, style) == resolved(
            ident,
            VariantConfigView { alt_names: other_names, ..config },
            style,
        ),
{
}

/// A variant that is not disabled, has no explicit name and has alternate
/// names resolves to one of them, and none of them is longer.
pub proof fn law_longest_alternate_wins(variant: VariantDescriptorView, style: Option<CaseStyle>)
    requires
        config_of(variant.annotations) matches Ok(config) && !config.disabled
            && config.explicit_name is None && config.alt_names.len() > 0,
    ensures
        ({
            let names = config_of(variant.annotations)->Ok_0.alt_names;
            &&& label_of(variant, style) matches Ok(ResolvedLabelView::Label(label))
            &&& names.contains(label)
            &&& forall|j: int| 0 <= j < names.len() ==> byte_len(#[trigger] names[j]) <= byte_len(label)
            &&& exists|j: int| 0 <= j < names.len() && byte_len(#[trigger] names[j]) == byte_len(label)
        }),
{
    let names = config_of(variant.annotations)->Ok_0.alt_names;
    lemma_longest_index(names);
    let at = longest_index(names);
    assert(is_longest_at(names, at));
    assert(names[at] == names[at]);
}

/// Only one place is the chosen one: the rule for alternate names leaves
/// nothing open.
pub proof fn law_chosen_alternate_is_unique(names: Seq<Seq<char>>, a: int, b: int)
    requires
        is_longest_at(names, a),
        is_longest_at(names, b),
    ensures
        a == b,
{
    if a < b {
        assert(byte_len(names[b]) < byte_len(names[a]));
        assert(byte_len(names[a]) <= byte_len(names[b]));
    } else if b < a {
        assert(byte_len(names[a]) < byte_len(names[b]));
        assert(byte_len(names[b]) <= byte_len(names[a]));
    }
}

/// Resolution is a function of the variant and the case style: whatever two
/// results [`VariantDescriptor::resolve`](crate::arms::VariantDescriptor::resolve)
/// gives for the same two, they hold the same.
pub proof fn law_resolution_is_repeatable(
    variant: VariantDescriptorView,
    style: Option<CaseStyle>,
    first: Result<ResolvedLabel, ConfigError>,
    second: Result<ResolvedLabel, ConfigError>,
)
    requires
        outcome(first) == label_of(variant, style),
        outcome(second) == label_of(variant, style),
    ensures
        outcome(first) == outcome(second),
        first is Ok <==> second is Ok,
        first matches Ok(a) ==> second matches Ok(b) && a@ == b@,
        first matches Err(e) ==> second matches Err(f) && e == f,
{
}

} // verus!
