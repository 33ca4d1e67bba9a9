//! Typed model of the property values and property schemas of a document and
//! database service, with a codec between those values and generic JSON trees
//! and a narrowing layer that reads a property as a requested type.
pub mod ids;
pub mod json;
pub mod models;
