//! Discriminant flag sets for tagged unions.
//!
//! A union schema (an ordered list of variants) is compiled into a companion
//! "kind" flag-set type with one single-bit constant per variant, together
//! with a total mapping from every union value to the constant of its variant.
pub mod bits;
pub mod width;
pub mod schema;
pub mod kind;
pub mod proofs;
pub mod generate;
pub mod render;
