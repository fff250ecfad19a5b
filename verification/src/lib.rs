//! Label resolution for enum variants: from the naming annotations on each
//! variant of an enumeration to the string that stands for it, and from there
//! to the ordered match arms of a variant-to-string mapping.

pub mod text;
pub mod case_style;
pub mod annotation;
pub mod config;
pub mod resolve;
pub mod arms;
pub mod impls;
pub mod laws;
