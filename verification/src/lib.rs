//! Build-time configuration resolution.
//!
//! A component declares a schema: named fields, each with a type tag and a
//! default expression. A single root-supplied override file may replace the
//! defaults per component. This crate holds the resolution engine: root-path
//! discovery from a build output hint, loading of the component's override
//! sub-table, and per-field reconciliation of an untyped override literal
//! against the field's declared type.

pub mod engine;
pub mod overrides;
pub mod paths;
pub mod resolve;
pub mod sample;
pub mod schema;
pub mod value;
