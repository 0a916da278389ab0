//! Verified core of a CSS style engine fragment: attribute-selector
//! matching and the `<basic-shape>` value pipeline (parsing of specified
//! values and resolution to canonical computed values).

pub mod attr;
pub mod basic_shape;
pub mod bytes;
pub mod computed;
pub mod css;
pub mod tokens;
pub mod values;
