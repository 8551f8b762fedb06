//! The limits of the implementation, which are not those of the format.

use vstd::prelude::*;

verus! {

pub const MAX_WASM_TYPES: usize = 1_000_000;

pub const MAX_WASM_FUNCTIONS: usize = 1_000_000;

pub const MAX_WASM_IMPORTS: usize = 100_000;

pub const MAX_WASM_EXPORTS: usize = 100_000;

pub const MAX_WASM_GLOBALS: usize = 1_000_000;

pub const MAX_WASM_ELEMENT_SEGMENTS: usize = 100_000;

pub const MAX_WASM_DATA_SEGMENTS: usize = 100_000;

pub const MAX_WASM_MEMORY32_PAGES: u64 = 65536;

pub const MAX_WASM_MEMORY64_PAGES: u64 = 0x1_0000_0000_0000;

pub const MAX_WASM_STRING_SIZE: usize = 100_000;

pub const MAX_WASM_FUNCTION_SIZE: usize = 7_654_321;

pub const MAX_WASM_FUNCTION_LOCALS: usize = 50_000;

pub const MAX_WASM_FUNCTION_PARAMS: usize = 1_000;

pub const MAX_WASM_FUNCTION_RETURNS: usize = 1_000;

pub const MAX_WASM_TABLE_ENTRIES: usize = 10_000_000;

pub const MAX_WASM_TABLES: usize = 100;

pub const MAX_WASM_MEMORIES: usize = 100;

pub const MAX_WASM_TAGS: usize = 1_000_000;

pub const MAX_WASM_BR_TABLE_SIZE: usize = 7_654_321;

pub const MAX_WASM_MODULE_SIZE: usize = 1_073_741_824;

pub const MAX_WASM_MODULES: usize = 1_000;

pub const MAX_WASM_COMPONENTS: usize = 1_000;

pub const MAX_WASM_INSTANCES: usize = 1_000;

pub const MAX_WASM_VALUES: usize = 1_000;

pub const MAX_WASM_MODULE_TYPE_DECLS: usize = 100_000;

pub const MAX_WASM_COMPONENT_TYPE_DECLS: usize = 100_000;

pub const MAX_WASM_INSTANCE_TYPE_DECLS: usize = 100_000;

pub const MAX_WASM_RECORD_FIELDS: usize = 10_000;

pub const MAX_WASM_VARIANT_CASES: usize = 10_000;

pub const MAX_WASM_TUPLE_TYPES: usize = 10_000;

pub const MAX_WASM_FLAG_NAMES: usize = 1_000;

pub const MAX_WASM_ENUM_CASES: usize = 10_000;

pub const MAX_WASM_UNION_TYPES: usize = 10_000;

pub const MAX_WASM_INSTANTIATION_EXPORTS: usize = 10_000;

pub const MAX_WASM_INSTANTIATION_ARGS: usize = 10_000;

pub const MAX_WASM_START_ARGS: usize = 1_000;

pub const MAX_WASM_CANONICAL_OPTIONS: usize = 10;

} // verus!
