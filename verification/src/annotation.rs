//! Naming annotations and the lookups that read them.
//!
//! An annotation is one entry `key = values` under a namespace. Only entries
//! under the reserved namespace count; the rest are passed over.

use vstd::prelude::*;
use crate::text::same_text;

verus! {

/// The keys that the reserved namespace gives a meaning to.
#[derive(Clone, Copy, Debug, PartialEq, Eq, Structural)]
pub enum Key {
    /// Takes the variant out of the mapping.
    Disabled,
    /// The one name that wins over every other rule.
    ToString,
    /// An alternate name; a variant may carry several.
    Serialize,
    /// The case style of an enumeration, for variants without a name.
    SerializeAll,
}

/// The characters of the reserved namespace.
pub open spec fn reserved_namespace() -> Seq<char> {
    "strum"@
}

/// The characters that a key is written with.
pub open spec fn key_name(key: Key) -> Seq<char> {
    match key {
        Key::Disabled => "disabled"@,
        Key::ToString => "to_string"@,
        Key::Serialize => "serialize"@,
        Key::SerializeAll => "serialize_all"@,
    }
}

impl Key {
    /// The key as it is written in an annotation.
    pub fn name(self) -> (name: &'static str)
        ensures
            name@ == key_name(self),
    {
        match self {
            Key::Disabled => "disabled",
            Key::ToString => "to_string",
            Key::Serialize => "serialize",
            Key::SerializeAll => "serialize_all",
        }
    }
}

/// One entry of an annotation list: a key under a namespace, with the string
/// values given to it, in the order they were written.
#[derive(Clone, Debug, PartialEq, Eq)]
pub struct Annotation {
    pub namespace: String,
    pub key: String,
    pub values: Vec<String>,
}

/// What an [`Annotation`] holds, as mathematical values.
pub struct AnnotationView {
    pub namespace: Seq<char>,
    pub key: Seq<char>,
    pub values: Seq<Seq<char>>,
}

impl View for Annotation {
    type V = AnnotationView;

    open spec fn view(&self) -> AnnotationView {
        AnnotationView {
            namespace: self.namespace@,
            key: self.key@,
            values: self.values.deep_view(),
        }
    }
}

impl DeepView for Annotation {
    type V = AnnotationView;

    open spec fn deep_view(&self) -> AnnotationView {
        self@
    }
}

impl AnnotationView {
    /// Whether the entry stands under the reserved namespace and has this key.
    pub open spec fn gives(self, key: Key) -> bool {
        self.namespace == reserved_namespace() && self.key == key_name(key)
    }
}

/// Every value that the annotations give to `key` under the reserved
/// namespace, in the order of the annotations and, within one, of its values.
pub open spec fn values_of(annotations: Seq<AnnotationView>, key: Key) -> Seq<Seq<char>>
    decreases annotations.len(),
{
    if annotations.len() == 0 {
        Seq::empty()
    } else {
        let earlier = values_of(annotations.drop_last(), key);
        if annotations.last().gives(key) {
            earlier + annotations.last().values
        } else {
            earlier
        }
    }
}

impl Annotation {
    /// An entry of the reserved namespace that gives `key` one value.
    pub fn new(key: Key, value: &str) -> (annotation: Annotation)
        ensures
            annotation@ == (AnnotationView {
                namespace: reserved_namespace(),
                key: key_name(key),
                values: seq![value@],
            }),
    {
        let mut values: Vec<String> = Vec::new();
        values.push(value.to_owned());
        let annotation = Annotation {
            namespace: "strum".to_owned(),
            key: key.name().to_owned(),
            values,
        };
        assert(annotation@.values =~= seq![value@]);
        annotation
    }

    /// Whether the entry stands under the reserved namespace and has this key.
    pub fn gives(&self, key: Key) -> (gives: bool)
        ensures
            gives == self@.gives(key),
    {
        same_text(self.namespace.as_str(), "strum") && same_text(self.key.as_str(), key.name())
    }
}

/// Collects every value given to `key`, in order.
pub fn extract_attrs(annotations: &Vec<Annotation>, key: Key) -> (values: Vec<String>)
    ensures
        values.deep_view() == values_of(annotations.deep_view(), key),
{
    let mut values: Vec<String> = Vec::new();
    let mut i: usize = 0;
    proof {
        assert(annotations.deep_view().take(0) =~= Seq::<AnnotationView>::empty());
    }
    while i < annotations.len()
        invariant
            i <= annotations.len(),
            values.deep_view() == values_of(annotations.deep_view().take(i as int), key),
        decreases annotations.len() - i,
    {
        let annotation = &annotations[i];
        let ghost before = values.deep_view();
        if annotation.gives(key) {
            let mut j: usize = 0;
            while j < annotation.values.len()
                invariant
                    j <= annotation.values.len(),
                    values.deep_view() == before + annotation.values.deep_view().take(j as int),
                decreases annotation.values.len() - j,
            {
                let ghost held = values.deep_view();
                values.push(annotation.values[j].clone());
                proof {
                    let all = annotation.values.deep_view();
                    assert(all.take(j + 1) =~= all.take(j as int).push(all[j as int]));
                    assert(values.deep_view() =~= held.push(all[j as int]));
                }
                j += 1;
            }
            proof {
                let all = annotation.values.deep_view();
                assert(all.take(all.len() as int) =~= all);
            }
        }
        proof {
            let views = annotations.deep_view();
            assert(views.take(i + 1).drop_last() =~= views.take(i as int));
            assert(views.take(i + 1).last() == annotation@);
        }
        i += 1;
    }
    proof {
        let views = annotations.deep_view();
        assert(views.take(views.len() as int) =~= views);
    }
    values
}

} // verus!
