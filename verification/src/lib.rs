//! Reading, validating and writing WebAssembly binaries.
//!
//! [`parser`] takes a binary apart into its sections, [`reader`] reads the items
//! of a section, [`validator`] decides whether the parts make a valid module or
//! component, and [`encoder`] writes sections.

pub mod encoder;
pub mod error;
pub mod limits;
pub mod parser;
pub mod parser_laws;
pub mod reader;
pub mod validator;

pub use error::{BinaryReaderError, Message, Result};
pub use parser::{Encoding, Parser, Payload};
pub use reader::binary_reader::{BinaryReader, Range};
pub use reader::component::exports::{
    ComponentExport, ComponentExportKind, ComponentExportSectionReader,
};
pub use validator::features::WasmFeatures;
pub use validator::func::{FuncValidator, ValidatorResources};
pub use validator::type_info::Types;
pub use validator::{validate, ValidPayload, Validator};
