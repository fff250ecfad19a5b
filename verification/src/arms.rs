//! From an enumeration to the ordered arms of its variant-to-label mapping.

use vstd::prelude::*;
use crate::annotation::{Annotation, AnnotationView};
use crate::case_style::CaseStyle;
use crate::config::{config_of, default_style, style_of, ConfigError, VariantConfig};
use crate::resolve::{resolve_label, resolved, ResolvedLabel, ResolvedLabelView};

verus! {

/// The shape of a variant's fields, which decides how a pattern skips them.
#[derive(Clone, Copy, Debug, PartialEq, Eq, Structural)]
pub enum FieldShape {
    /// No fields: the bare pattern.
    Unit,
    /// Unnamed fields: the wildcard tuple pattern.
    Unnamed,
    /// Named fields: the wildcard struct pattern.
    Named,
}

/// One variant of an enumeration, as it was declared.
#[derive(Clone, Debug, PartialEq, Eq)]
pub struct VariantDescriptor {
    pub ident: String,
    pub shape: FieldShape,
    pub annotations: Vec<Annotation>,
}

/// What a [`VariantDescriptor`] holds, as mathematical values.
pub struct VariantDescriptorView {
    pub ident: Seq<char>,
    pub shape: FieldShape,
    pub annotations: Seq<AnnotationView>,
}

impl View for VariantDescriptor {
    type V = VariantDescriptorView;

    open spec fn view(&self) -> VariantDescriptorView {
        VariantDescriptorView {
            ident: self.ident@,
            shape: self.shape,
            annotations: self.annotations.deep_view(),
        }
    }
}

impl DeepView for VariantDescriptor {
    type V = VariantDescriptorView;

    open spec fn deep_view(&self) -> VariantDescriptorView {
        self@
    }
}

/// An enumeration, as it was declared. The variants are in declaration
/// order. `generics` is carried along for whoever writes out the code; nothing
/// here looks inside it.
#[derive(Clone, Debug, PartialEq, Eq)]
pub struct EnumDescriptor<G> {
    pub ident: String,
    pub generics: G,
    pub annotations: Vec<Annotation>,
    pub variants: Vec<VariantDescriptor>,
}

/// What an [`EnumDescriptor`] holds, as mathematical values, without the
/// generic parameters.
pub struct EnumDescriptorView {
    pub ident: Seq<char>,
    pub annotations: Seq<AnnotationView>,
    pub variants: Seq<VariantDescriptorView>,
}

impl<G> View for EnumDescriptor<G> {
    type V = EnumDescriptorView;

    open spec fn view(&self) -> EnumDescriptorView {
        EnumDescriptorView {
            ident: self.ident@,
            annotations: self.annotations.deep_view(),
            variants: self.variants.deep_view(),
        }
    }
}

/// The left side of an arm.
#[derive(Clone, Debug, PartialEq, Eq)]
pub enum Pattern {
    /// One variant of the enumeration, with its fields skipped.
    Variant { enum_ident: String, variant_ident: String, shape: FieldShape },
    /// Whatever the arms before it did not match.
    CatchAll,
}

/// The right side of an arm.
#[derive(Clone, Debug, PartialEq, Eq)]
pub enum ArmBody {
    /// The label of the matched variant.
    Label(String),
    /// No string: reaching this arm is a failure at run time.
    Fault,
}

/// One arm of the mapping.
#[derive(Clone, Debug, PartialEq, Eq)]
pub struct Arm {
    pub pattern: Pattern,
    pub body: ArmBody,
}

/// What a [`Pattern`] holds, as mathematical values.
pub enum PatternView {
    Variant { enum_ident: Seq<char>, variant_ident: Seq<char>, shape: FieldShape },
    CatchAll,
}

/// What an [`ArmBody`] holds, as mathematical values.
pub enum ArmBodyView {
    Label(Seq<char>),
    Fault,
}

/// What an [`Arm`] holds, as mathematical values.
pub struct ArmView {
    pub pattern: PatternView,
    pub body: ArmBodyView,
}

impl View for Pattern {
    type V = PatternView;

    open spec fn view(&self) -> PatternView {
        match self {
            Pattern::Variant { enum_ident, variant_ident, shape } => PatternView::Variant {
                enum_ident: enum_ident@,
                variant_ident: variant_ident@,
                shape: *shape,
            },
            Pattern::CatchAll => PatternView::CatchAll,
        }
    }
}

impl View for ArmBody {
    type V = ArmBodyView;

    open spec fn view(&self) -> ArmBodyView {
        match self {
            ArmBody::Label(label) => ArmBodyView::Label(label@),
            ArmBody::Fault => ArmBodyView::Fault,
        }
    }
}

impl View for Arm {
    type V = ArmView;

    open spec fn view(&self) -> ArmView {
        ArmView { pattern: self.pattern@, body: self.body@ }
    }
}

impl DeepView for Arm {
    type V = ArmView;

    open spec fn deep_view(&self) -> ArmView {
        self@
    }
}

/// The arm that closes a mapping with disabled variants.
pub open spec fn fault_arm() -> ArmView {
    ArmView { pattern: PatternView::CatchAll, body: ArmBodyView::Fault }
}

/// The arm that a resolved label gives a variant: none for a disabled one.
pub open spec fn arm_with(
    enum_ident: Seq<char>,
    variant: VariantDescriptorView,
    label: ResolvedLabelView,
) -> Option<ArmView> {
    match label {
        ResolvedLabelView::Disabled => None,
        ResolvedLabelView::Label(text) => Some(
            ArmView {
                pattern: PatternView::Variant {
                    enum_ident,
                    variant_ident: variant.ident,
                    shape: variant.shape,
                },
                body: ArmBodyView::Label(text),
            },
        ),
    }
}

/// The label of a variant, or the reason why its annotations are malformed.
pub open spec fn label_of(variant: VariantDescriptorView, style: Option<CaseStyle>) -> Result<
    ResolvedLabelView,
    ConfigError,
> {
    match config_of(variant.annotations) {
        Ok(config) => Ok(resolved(variant.ident, config, style)),
        Err(e) => Err(e),
    }
}

/// The arm of a variant: none where it is disabled or malformed.
pub open spec fn arm_of(
    enum_ident: Seq<char>,
    variant: VariantDescriptorView,
    style: Option<CaseStyle>,
) -> Option<ArmView> {
    match label_of(variant, style) {
        Ok(label) => arm_with(enum_ident, variant, label),
        Err(_) => None,
    }
}

/// The arms of the variants, in declaration order, each variant giving at
/// most one.
pub open spec fn variant_arms(
    enum_ident: Seq<char>,
    variants: Seq<VariantDescriptorView>,
    style: Option<CaseStyle>,
) -> Seq<ArmView>
    decreases variants.len(),
{
    if variants.len() == 0 {
        Seq::empty()
    } else {
        let earlier = variant_arms(enum_ident, variants.drop_last(), style);
        match arm_of(enum_ident, variants.last(), style) {
            Some(arm) => earlier.push(arm),
            None => earlier,
        }
    }
}

/// The error of the first variant, in declaration order, whose annotations
/// are malformed.
pub open spec fn first_error(variants: Seq<VariantDescriptorView>) -> Option<ConfigError>
    decreases variants.len(),
{
    if variants.len() == 0 {
        None
    } else {
        match config_of(variants.first().annotations) {
            Err(e) => Some(e),
            Ok(_) => first_error(variants.drop_first()),
        }
    }
}

/// The arms of an enumeration: those of its enabled variants in declaration
/// order, closed by the fault arm where a variant gave none. An error where
/// the enumeration's own annotations are malformed, else where a variant's are.
pub open spec fn assembled(ast: EnumDescriptorView) -> Result<Seq<ArmView>, ConfigError> {
    match style_of(ast.annotations) {
        Err(e) => Err(e),
        Ok(style) => match first_error(ast.variants) {
            Some(e) => Err(e),
            None => {
                let arms = variant_arms(ast.ident, ast.variants, style);
                if arms.len() < ast.variants.len() {
                    Ok(arms.push(fault_arm()))
                } else {
                    Ok(arms)
                }
            },
        },
    }
}

/// What a resolution came to, as mathematical values.
pub open spec fn outcome(label: Result<ResolvedLabel, ConfigError>) -> Result<
    ResolvedLabelView,
    ConfigError,
> {
    match label {
        Ok(label) => Ok(label@),
        Err(e) => Err(e),
    }
}

impl VariantDescriptor {
    /// Resolves the label of this variant in an enumeration with this case
    /// style. Fails where the annotations are malformed.
    pub fn resolve(&self, style: Option<CaseStyle>) -> (label: Result<ResolvedLabel, ConfigError>)
        ensures
            outcome(label) == label_of(self@, style),
    {
        match VariantConfig::from_annotations(&self.annotations) {
            Ok(config) => Ok(resolve_label(self.ident.as_str(), &config, style)),
            Err(e) => Err(e),
        }
    }

    /// Builds the arm that maps this variant to an already resolved label.
    /// A disabled variant gets none.
    pub fn arm(&self, enum_ident: &str, label: ResolvedLabel) -> (arm: Option<Arm>)
        ensures
            match arm_with(enum_ident@, self@, label@) {
                Some(v) => arm matches Some(a) && a@ == v,
                None => arm is None,
            },
    {
        match label {
            ResolvedLabel::Disabled => None,
            ResolvedLabel::Label(text) => Some(
                Arm {
                    pattern: Pattern::Variant {
                        enum_ident: enum_ident.to_owned(),
                        variant_ident: self.ident.clone(),
                        shape: self.shape,
                    },
                    body: ArmBody::Label(text),
                },
            ),
        }
    }
}

/// Assembles the arms of an enumeration.
pub fn get_arms<G>(ast: &EnumDescriptor<G>) -> (arms: Result<Vec<Arm>, ConfigError>)
    ensures
        match assembled(ast@) {
            Ok(v) => arms matches Ok(a) && a.deep_view() == v,
            Err(e) => arms matches Err(f) && f == e,
        },
{
    let style = match default_style(&ast.annotations) {
        Ok(style) => style,
        Err(e) => {
            return Err(e);
        },
    };
    let ghost variants = ast.variants.deep_view();
    let mut arms: Vec<Arm> = Vec::new();
    let mut i: usize = 0;
    proof {
        assert(variants.skip(0) =~= variants);
        assert(variants.take(0) =~= Seq::<VariantDescriptorView>::empty());
        assert(arms.deep_view() =~= Seq::<ArmView>::empty());
    }
    while i < ast.variants.len()
        invariant
            i <= ast.variants.len(),
            variants == ast.variants.deep_view(),
            style_of(ast@.annotations) == Ok::<Option<CaseStyle>, ConfigError>(style),
            first_error(variants) == first_error(variants.skip(i as int)),
            arms.deep_view() == variant_arms(ast.ident@, variants.take(i as int), style),
            arms.len() <= i,
        decreases ast.variants.len() - i,
    {
        let variant = &ast.variants[i];
        proof {
            assert(variants.skip(i as int).first() == variant@);
            assert(variants.skip(i as int).drop_first() =~= variants.skip(i + 1));
            assert(variants.take(i + 1).drop_last() =~= variants.take(i as int));
            assert(variants.take(i + 1).last() == variant@);
        }
        let label = match variant.resolve(style) {
            Ok(label) => label,
            Err(e) => {
                return Err(e);
            },
        };
        let ghost held = arms.deep_view();
        if let Some(arm) = variant.arm(ast.ident.as_str(), label) {
            arms.push(arm);
            assert(arms.deep_view() =~= held.push(arm@));
        }
        i += 1;
    }
    proof {
        assert(variants.skip(variants.len() as int) =~= Seq::<VariantDescriptorView>::empty());
        assert(variants.take(variants.len() as int) =~= variants);
    }
    if arms.len() < ast.variants.len() {
        let ghost held = arms.deep_view();
        let closing = Arm { pattern: Pattern::CatchAll, body: ArmBody::Fault };
        arms.push(closing);
        assert(arms.deep_view() =~= held.push(fault_arm()));
    }
    Ok(arms)
}

} // verus!
