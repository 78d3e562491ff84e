//! Shared numerical utilities: root finders and compressible-flow relations.

pub mod isentropic;
pub mod numerics;
pub mod obliqueshock;
