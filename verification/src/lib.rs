//! A builder-pattern derivation engine.
//!
//! Given the structural definition of a record type (a name plus an ordered
//! list of named, typed fields), this crate synthesizes the source text of a
//! companion builder type: a fluent setter per field and a validating `build`
//! step that reports the first field left unset. The same field-presence and
//! finalization semantics are also provided directly, as a record builder
//! parameterized over field descriptors, with the guiding properties proved.

pub mod emit;
pub mod names;
pub mod record;
pub mod schema;
