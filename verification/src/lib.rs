//! Compile-time generator for the typestate builder pattern.
//!
//! Given the structural description of a record type (its fields, generics
//! and visibility), the library plans and emits the source tokens of a
//! builder type whose generic parameters track, in the host type system,
//! which fields have been assigned: the finalizer only type-checks once
//! every required field has been set exactly once, while defaulted fields
//! may be omitted.

pub mod emit;
pub mod field_info;
pub mod idents;
pub mod laws;
pub mod struct_info;
