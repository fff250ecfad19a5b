//! The typed configuration that an annotation list stands for.
//!
//! Annotations are read once. What comes out is either a configuration with
//! every field decided, or the reason why the list is malformed.

use vstd::prelude::*;
use crate::annotation::{extract_attrs, values_of, Annotation, AnnotationView, Key};
use crate::case_style::{style_named, CaseStyle};
use crate::text::same_text;

verus! {

/// Why an annotation list stands for no configuration.
#[derive(Clone, Copy, Debug, PartialEq, Eq, Structural)]
pub enum ConfigError {
    /// A key that takes a single value was given more than one.
    Repeated(Key),
    /// The value of the style key names no case style.
    UnknownStyle,
}

/// The single value among `values`, none if there is none, and the error for
/// `key` if there are several.
pub open spec fn single_value(values: Seq<Seq<char>>, key: Key) -> Result<
    Option<Seq<char>>,
    ConfigError,
> {
    if values.len() > 1 {
        Err(ConfigError::Repeated(key))
    } else if values.len() == 1 {
        Ok(Some(values[0]))
    } else {
        Ok(None)
    }
}

/// The value that marks a variant as disabled.
pub open spec fn disable_marker() -> Seq<char> {
    "true"@
}

/// The one value given to `key`, if any. More than one is an error.
pub fn unique_attr(annotations: &Vec<Annotation>, key: Key) -> (value: Result<
    Option<String>,
    ConfigError,
>)
    ensures
        match single_value(values_of(annotations.deep_view(), key), key) {
            Ok(Some(v)) => value matches Ok(Some(s)) && s@ == v,
            Ok(None) => value matches Ok(None),
            Err(e) => value matches Err(f) && f == e,
        },
{
    let mut values = extract_attrs(annotations, key);
    if values.len() > 1 {
        Err(ConfigError::Repeated(key))
    } else {
        let ghost found = values.deep_view();
        let value = values.pop();
        assert(value matches Some(s) ==> s@ == found[0]);
        Ok(value)
    }
}

/// Whether the annotations carry the disable marker. More than one value for
/// the disable key is an error.
pub fn is_disabled(annotations: &Vec<Annotation>) -> (disabled: Result<bool, ConfigError>)
    ensures
        disabled == match single_value(
            values_of(annotations.deep_view(), Key::Disabled),
            Key::Disabled,
        ) {
            Ok(Some(v)) => Ok::<bool, ConfigError>(v == disable_marker()),
            Ok(None) => Ok(false),
            Err(e) => Err(e),
        },
{
    match unique_attr(annotations, Key::Disabled) {
        Ok(Some(value)) => Ok(same_text(value.as_str(), "true")),
        Ok(None) => Ok(false),
        Err(e) => Err(e),
    }
}

/// The case style that an enumeration's annotations ask for: none without the
/// style key, an error where the key is repeated or names no style.
pub open spec fn style_of(annotations: Seq<AnnotationView>) -> Result<
    Option<CaseStyle>,
    ConfigError,
> {
    match single_value(values_of(annotations, Key::SerializeAll), Key::SerializeAll) {
        Ok(Some(name)) => match style_named(name) {
            Some(style) => Ok(Some(style)),
            None => Err(ConfigError::UnknownStyle),
        },
        Ok(None) => Ok(None),
        Err(e) => Err(e),
    }
}

/// Reads the case style off an enumeration's annotations.
pub fn default_style(annotations: &Vec<Annotation>) -> (style: Result<
    Option<CaseStyle>,
    ConfigError,
>)
    ensures
        style == style_of(annotations.deep_view()),
{
    match unique_attr(annotations, Key::SerializeAll) {
        Ok(Some(name)) => match CaseStyle::from_name(name.as_str()) {
            Some(style) => Ok(Some(style)),
            None => Err(ConfigError::UnknownStyle),
        },
        Ok(None) => Ok(None),
        Err(e) => Err(e),
    }
}

/// How one variant is to be named, with every annotation already read.
#[derive(Clone, Debug, PartialEq, Eq)]
pub struct VariantConfig {
    /// The variant is left out of the mapping.
    pub disabled: bool,
    /// The name that wins outright.
    pub explicit_name: Option<String>,
    /// The alternate names, in the order they were written.
    pub alt_names: Vec<String>,
}

/// What a [`VariantConfig`] holds, as mathematical values.
pub struct VariantConfigView {
    pub disabled: bool,
    pub explicit_name: Option<Seq<char>>,
    pub alt_names: Seq<Seq<char>>,
}

impl View for VariantConfig {
    type V = VariantConfigView;

    open spec fn view(&self) -> VariantConfigView {
        VariantConfigView {
            disabled: self.disabled,
            explicit_name: match self.explicit_name {
                Some(name) => Some(name@),
                None => None,
            },
            alt_names: self.alt_names.deep_view(),
        }
    }
}

/// The configuration that a variant's annotations stand for. The disable key
/// and the explicit-name key take one value each; a repeated disable key is
/// reported first.
pub open spec fn config_of(annotations: Seq<AnnotationView>) -> Result<
    VariantConfigView,
    ConfigError,
> {
    match single_value(values_of(annotations, Key::Disabled), Key::Disabled) {
        Err(e) => Err(e),
        Ok(marker) => match single_value(values_of(annotations, Key::ToString), Key::ToString) {
            Err(e) => Err(e),
            Ok(name) => Ok(
                VariantConfigView {
                    disabled: marker == Some(disable_marker()),
                    explicit_name: name,
                    alt_names: values_of(annotations, Key::Serialize),
                },
            ),
        },
    }
}

impl VariantConfig {
    /// Reads a variant's annotations into its configuration.
    pub fn from_annotations(annotations: &Vec<Annotation>) -> (config: Result<
        VariantConfig,
        ConfigError,
    >)
        ensures
            match config_of(annotations.deep_view()) {
                Ok(v) => config matches Ok(c) && c@ == v,
                Err(e) => config matches Err(f) && f == e,
            },
    {
        let disabled = match is_disabled(annotations) {
            Ok(disabled) => disabled,
            Err(e) => {
                return Err(e);
            },
        };
        let explicit_name = match unique_attr(annotations, Key::ToString) {
            Ok(name) => name,
            Err(e) => {
                return Err(e);
            },
        };
        let alt_names = extract_attrs(annotations, Key::Serialize);
        Ok(VariantConfig { disabled, explicit_name, alt_names })
    }
}

} // verus!
