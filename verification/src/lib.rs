//! Function-level lowering of a typed, block-structured function body into a
//! goto-style program: symbol materialisation, the untupling prelude, the
//! unsupported-construct filter and proof-harness registration.

pub mod attributes;
pub mod context;
pub mod filter;
pub mod function;
pub mod goto;
pub mod harness;
pub mod laws;
pub mod metadata;
pub mod mir;
pub mod names;
pub mod prelude;
pub mod symbol_table;
pub mod translation;
pub mod variables;
