//! Reading WebAssembly binaries.

pub mod binary_reader;
pub mod component;
pub mod item_laws;
pub mod laws;
pub mod operator_laws;
pub mod operators;
pub mod sections;
pub mod types;
