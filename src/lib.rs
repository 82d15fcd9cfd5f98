//! Records in three shapes: a named-field account profile, positional
//! color and point triples, and a marker type with no data.

pub mod marker;
pub mod triple;
pub mod user;
