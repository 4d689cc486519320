//! Ring routing primitives: the identifier space.

pub mod id;
