//! Derivation of a uniform field-enumeration capability for record types.
//!
//! The generation-time half inspects a record type's shape ([`shape`]) and
//! emits the source of its two enumeration operations ([`generate`]). The
//! run-time half is the enumeration capability itself ([`iterable`]),
//! together with the type-erased value carrier ([`erased`]) and record types
//! equipped with the capability ([`records`]).

pub mod erased;
pub mod generate;
pub mod iterable;
pub mod records;
pub mod shape;
