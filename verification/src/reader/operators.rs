//! The operators of function bodies and constant expressions.

use super::binary_reader::{BinaryReader, Cursor};
use super::types::{parse_list, read_list, views, FromReader, Type};
use crate::error::{error_at, viewed, BinaryReaderError, Result};
use crate::limits::MAX_WASM_BR_TABLE_SIZE;
use vstd::prelude::*;

verus! {

/// The proposal that an operator belongs to.
#[derive(Debug, Copy, Clone, PartialEq, Eq, Structural)]
pub enum Feature {
    /// The first version of WebAssembly.
    Mvp,
    /// Conversions from floats that do not trap.
    SaturatingFloatToInt,
    /// Sign extension.
    SignExtension,
    /// Vectors.
    Simd,
    /// Vectors with results that depend on the machine.
    RelaxedSimd,
    /// Threads.
    Threads,
}

/// The types that an operator takes, the last one from the top of the stack.
#[derive(Debug, Copy, Clone, PartialEq, Eq, Structural)]
pub enum Params {
    /// One operand.
    One(Type),
    /// Two operands.
    Two(Type, Type),
    /// Three operands.
    Three(Type, Type, Type),
}

/// An operator that takes values from the stack and gives one back, and does
/// nothing else.
#[derive(Debug, Copy, Clone, PartialEq, Eq, Structural)]
pub struct Simple {
    /// What it takes.
    pub params: Params,
    /// What it gives.
    pub result: Type,
    /// The proposal it belongs to.
    pub feature: Feature,
    /// Whether the extended constant expressions proposal allows it in them.
    pub extended_const: bool,
    /// Whether it computes with floats.
    pub floats: bool,
}

/// How an operator uses memory: it takes an address and up to two values.
#[derive(Debug, Copy, Clone, PartialEq, Eq, Structural)]
pub struct Access {
    /// The value it takes behind the address.
    pub first: Option<Type>,
    /// The value it takes behind that.
    pub second: Option<Type>,
    /// What it gives.
    pub result: Option<Type>,
    /// The natural alignment, as a power of two.
    pub natural: u8,
    /// The proposal it belongs to.
    pub feature: Feature,
    /// Whether the access is atomic.
    pub atomic: bool,
    /// How many lanes there are to choose from; zero if none is chosen.
    pub lanes: u8,
}

/// Which memory is accessed, and where.
#[derive(Debug, Copy, Clone, PartialEq, Eq, Structural)]
pub struct MemArg {
    /// The expected alignment, as a power of two.
    pub align: u8,
    /// What is added to the address.
    pub offset: u64,
    /// The index of the memory.
    pub memory: u32,
}

/// The type of a block.
#[derive(Debug, Copy, Clone, PartialEq, Eq, Structural)]
pub enum BlockType {
    /// It takes nothing and gives nothing.
    Empty,
    /// It takes nothing and gives one value.
    Type(Type),
    /// It takes and gives what the function type with this index does.
    FuncType(u32),
}

/// An operator whose parts have a fixed size.
#[derive(Debug, Copy, Clone, PartialEq, Eq, Structural)]
pub enum Op {
    Unreachable,
    Nop,
    Block(BlockType),
    Loop(BlockType),
    If(BlockType),
    Else,
    Try(BlockType),
    Catch(u32),
    Throw(u32),
    Rethrow(u32),
    End,
    Br(u32),
    BrIf(u32),
    Return,
    Call(u32),
    CallIndirect { ty: u32, table: u32, table_byte: u8 },
    ReturnCall(u32),
    ReturnCallIndirect { ty: u32, table: u32 },
    Delegate(u32),
    CatchAll,
    Drop,
    Select,
    TypedSelect(Type),
    LocalGet(u32),
    LocalSet(u32),
    LocalTee(u32),
    GlobalGet(u32),
    GlobalSet(u32),
    TableGet(u32),
    TableSet(u32),
    Memory(Access, MemArg),
    MemorySize { memory: u32, memory_byte: u8 },
    MemoryGrow { memory: u32, memory_byte: u8 },
    I32Const(i32),
    I64Const(i64),
    F32Const,
    F64Const,
    V128Const,
    RefNull(Type),
    RefIsNull,
    RefFunc(u32),
    Simple(Simple),
    MemoryInit { segment: u32, memory: u32 },
    DataDrop(u32),
    MemoryCopy { target: u32, source: u32 },
    MemoryFill(u32),
    TableInit { segment: u32, table: u32 },
    ElemDrop(u32),
    TableCopy { target: u32, source: u32 },
    TableGrow(u32),
    TableSize(u32),
    TableFill(u32),
    AtomicFence,
}

/// An operator.
#[derive(Debug)]
pub enum Operator {
    /// One whose parts have a fixed size.
    Op(Op),
    /// A branch to one of many targets.
    BrTable {
        /// The targets, by the value they are chosen with.
        targets: Vec<u32>,
        /// The target for all other values.
        default: u32,
    },
}

/// What an [`Operator`] holds.
pub enum OperatorView {
    /// An operator whose parts have a fixed size.
    Op(Op),
    /// A branch to one of many targets.
    BrTable {
        /// The targets.
        targets: Seq<u32>,
        /// The target for all other values.
        default: u32,
    },
}

impl View for Operator {
    type V = OperatorView;

    open spec fn view(&self) -> OperatorView {
        match self {
            Operator::Op(op) => OperatorView::Op(*op),
            Operator::BrTable { targets, default } => OperatorView::BrTable {
                targets: targets@,
                default: *default,
            },
        }
    }
}

/// What the one byte operators without operands of their own in the code take and give.
pub open spec fn plain(code: u8) -> Option<Simple> {
    if code == 0x45 {
        Some(Simple { params: Params::One(Type::I32), result: Type::I32, feature: Feature::Mvp, extended_const: false, floats: false })
    } else if 0x46 <= code && code <= 0x4f {
        Some(Simple { params: Params::Two(Type::I32, Type::I32), result: Type::I32, feature: Feature::Mvp, extended_const: false, floats: false })
    } else if code == 0x50 {
        Some(Simple { params: Params::One(Type::I64), result: Type::I32, feature: Feature::Mvp, extended_const: false, floats: false })
    } else if 0x51 <= code && code <= 0x5a {
        Some(Simple { params: Params::Two(Type::I64, Type::I64), result: Type::I32, feature: Feature::Mvp, extended_const: false, floats: false })
    } else if 0x5b <= code && code <= 0x60 {
        Some(Simple { params: Params::Two(Type::F32, Type::F32), result: Type::I32, feature: Feature::Mvp, extended_const: false, floats: true })
    } else if 0x61 <= code && code <= 0x66 {
        Some(Simple { params: Params::Two(Type::F64, Type::F64), result: Type::I32, feature: Feature::Mvp, extended_const: false, floats: true })
    } else if 0x67 <= code && code <= 0x69 {
        Some(Simple { params: Params::One(Type::I32), result: Type::I32, feature: Feature::Mvp, extended_const: false, floats: false })
    } else if 0x6a <= code && code <= 0x6c {
        Some(Simple { params: Params::Two(Type::I32, Type::I32), result: Type::I32, feature: Feature::Mvp, extended_const: true, floats: false })
    } else if 0x6d <= code && code <= 0x78 {
        Some(Simple { params: Params::Two(Type::I32, Type::I32), result: Type::I32, feature: Feature::Mvp, extended_const: false, floats: false })
    } else if 0x79 <= code && code <= 0x7b {
        Some(Simple { params: Params::One(Type::I64), result: Type::I64, feature: Feature::Mvp, extended_const: false, floats: false })
    } else if 0x7c <= code && code <= 0x7e {
        Some(Simple { params: Params::Two(Type::I64, Type::I64), result: Type::I64, feature: Feature::Mvp, extended_const: true, floats: false })
    } else if 0x7f <= code && code <= 0x8a {
        Some(Simple { params: Params::Two(Type::I64, Type::I64), result: Type::I64, feature: Feature::Mvp, extended_const: false, floats: false })
    } else if 0x8b <= code && code <= 0x91 {
        Some(Simple { params: Params::One(Type::F32), result: Type::F32, feature: Feature::Mvp, extended_const: false, floats: true })
    } else if 0x92 <= code && code <= 0x98 {
        Some(Simple { params: Params::Two(Type::F32, Type::F32), result: Type::F32, feature: Feature::Mvp, extended_const: false, floats: true })
    } else if 0x99 <= code && code <= 0x9f {
        Some(Simple { params: Params::One(Type::F64), result: Type::F64, feature: Feature::Mvp, extended_const: false, floats: true })
    } else if 0xa0 <= code && code <= 0xa6 {
        Some(Simple { params: Params::Two(Type::F64, Type::F64), result: Type::F64, feature: Feature::Mvp, extended_const: false, floats: true })
    } else if code == 0xa7 {
        Some(Simple { params: Params::One(Type::I64), result: Type::I32, feature: Feature::Mvp, extended_const: false, floats: false })
    } else if 0xa8 <= code && code <= 0xa9 {
        Some(Simple { params: Params::One(Type::F32), result: Type::I32, feature: Feature::Mvp, extended_const: false, floats: true })
    } else if 0xaa <= code && code <= 0xab {
        Some(Simple { params: Params::One(Type::F64), result: Type::I32, feature: Feature::Mvp, extended_const: false, floats: true })
    } else if 0xac <= code && code <= 0xad {
        Some(Simple { params: Params::One(Type::I32), result: Type::I64, feature: Feature::Mvp, extended_const: false, floats: false })
    } else if 0xae <= code && code <= 0xaf {
        Some(Simple { params: Params::One(Type::F32), result: Type::I64, feature: Feature::Mvp, extended_const: false, floats: true })
    } else if 0xb0 <= code && code <= 0xb1 {
        Some(Simple { params: Params::One(Type::F64), result: Type::I64, feature: Feature::Mvp, extended_const: false, floats: true })
    } else if 0xb2 <= code && code <= 0xb3 {
        Some(Simple { params: Params::One(Type::I32), result: Type::F32, feature: Feature::Mvp, extended_const: false, floats: true })
    } else if 0xb4 <= code && code <= 0xb5 {
        Some(Simple { params: Params::One(Type::I64), result: Type::F32, feature: Feature::Mvp, extended_const: false, floats: true })
    } else if code == 0xb6 {
        Some(Simple { params: Params::One(Type::F64), result: Type::F32, feature: Feature::Mvp, extended_const: false, floats: true })
    } else if 0xb7 <= code && code <= 0xb8 {
        Some(Simple { params: Params::One(Type::I32), result: Type::F64, feature: Feature::Mvp, extended_const: false, floats: true })
    } else if 0xb9 <= code && code <= 0xba {
        Some(Simple { params: Params::One(Type::I64), result: Type::F64, feature: Feature::Mvp, extended_const: false, floats: true })
    } else if code == 0xbb {
        Some(Simple { params: Params::One(Type::F32), result: Type::F64, feature: Feature::Mvp, extended_const: false, floats: true })
    } else if code == 0xbc {
        Some(Simple { params: Params::One(Type::F32), result: Type::I32, feature: Feature::Mvp, extended_const: false, floats: true })
    } else if code == 0xbd {
        Some(Simple { params: Params::One(Type::F64), result: Type::I64, feature: Feature::Mvp, extended_const: false, floats: true })
    } else if code == 0xbe {
        Some(Simple { params: Params::One(Type::I32), result: Type::F32, feature: Feature::Mvp, extended_const: false, floats: true })
    } else if code == 0xbf {
        Some(Simple { params: Params::One(Type::I64), result: Type::F64, feature: Feature::Mvp, extended_const: false, floats: true })
    } else if 0xc0 <= code && code <= 0xc1 {
        Some(Simple { params: Params::One(Type::I32), result: Type::I32, feature: Feature::SignExtension, extended_const: false, floats: false })
    } else if 0xc2 <= code && code <= 0xc4 {
        Some(Simple { params: Params::One(Type::I64), result: Type::I64, feature: Feature::SignExtension, extended_const: false, floats: false })
    } else {
        None
    }
}

/// What the one byte operators without operands of their own in the code take and give.
fn plain_op(code: u8) -> (op: Option<Simple>)
    ensures
        op == plain(code),
{
    if code == 0x45 {
        Some(Simple { params: Params::One(Type::I32), result: Type::I32, feature: Feature::Mvp, extended_const: false, floats: false })
    } else if 0x46 <= code && code <= 0x4f {
        Some(Simple { params: Params::Two(Type::I32, Type::I32), result: Type::I32, feature: Feature::Mvp, extended_const: false, floats: false })
    } else if code == 0x50 {
        Some(Simple { params: Params::One(Type::I64), result: Type::I32, feature: Feature::Mvp, extended_const: false, floats: false })
    } else if 0x51 <= code && code <= 0x5a {
        Some(Simple { params: Params::Two(Type::I64, Type::I64), result: Type::I32, feature: Feature::Mvp, extended_const: false, floats: false })
    } else if 0x5b <= code && code <= 0x60 {
        Some(Simple { params: Params::Two(Type::F32, Type::F32), result: Type::I32, feature: Feature::Mvp, extended_const: false, floats: true })
    } else if 0x61 <= code && code <= 0x66 {
        Some(Simple { params: Params::Two(Type::F64, Type::F64), result: Type::I32, feature: Feature::Mvp, extended_const: false, floats: true })
    } else if 0x67 <= code && code <= 0x69 {
        Some(Simple { params: Params::One(Type::I32), result: Type::I32, feature: Feature::Mvp, extended_const: false, floats: false })
    } else if 0x6a <= code && code <= 0x6c {
        Some(Simple { params: Params::Two(Type::I32, Type::I32), result: Type::I32, feature: Feature::Mvp, extended_const: true, floats: false })
    } else if 0x6d <= code && code <= 0x78 {
        Some(Simple { params: Params::Two(Type::I32, Type::I32), result: Type::I32, feature: Feature::Mvp, extended_const: false, floats: false })
    } else if 0x79 <= code && code <= 0x7b {
        Some(Simple { params: Params::One(Type::I64), result: Type::I64, feature: Feature::Mvp, extended_const: false, floats: false })
    } else if 0x7c <= code && code <= 0x7e {
        Some(Simple { params: Params::Two(Type::I64, Type::I64), result: Type::I64, feature: Feature::Mvp, extended_const: true, floats: false })
    } else if 0x7f <= code && code <= 0x8a {
        Some(Simple { params: Params::Two(Type::I64, Type::I64), result: Type::I64, feature: Feature::Mvp, extended_const: false, floats: false })
    } else if 0x8b <= code && code <= 0x91 {
        Some(Simple { params: Params::One(Type::F32), result: Type::F32, feature: Feature::Mvp, extended_const: false, floats: true })
    } else if 0x92 <= code && code <= 0x98 {
        Some(Simple { params: Params::Two(Type::F32, Type::F32), result: Type::F32, feature: Feature::Mvp, extended_const: false, floats: true })
    } else if 0x99 <= code && code <= 0x9f {
        Some(Simple { params: Params::One(Type::F64), result: Type::F64, feature: Feature::Mvp, extended_const: false, floats: true })
    } else if 0xa0 <= code && code <= 0xa6 {
        Some(Simple { params: Params::Two(Type::F64, Type::F64), result: Type::F64, feature: Feature::Mvp, extended_const: false, floats: true })
    } else if code == 0xa7 {
        Some(Simple { params: Params::One(Type::I64), result: Type::I32, feature: Feature::Mvp, extended_const: false, floats: false })
    } else if 0xa8 <= code && code <= 0xa9 {
        Some(Simple { params: Params::One(Type::F32), result: Type::I32, feature: Feature::Mvp, extended_const: false, floats: true })
    } else if 0xaa <= code && code <= 0xab {
        Some(Simple { params: Params::One(Type::F64), result: Type::I32, feature: Feature::Mvp, extended_const: false, floats: true })
    } else if 0xac <= code && code <= 0xad {
        Some(Simple { params: Params::One(Type::I32), result: Type::I64, feature: Feature::Mvp, extended_const: false, floats: false })
    } else if 0xae <= code && code <= 0xaf {
        Some(Simple { params: Params::One(Type::F32), result: Type::I64, feature: Feature::Mvp, extended_const: false, floats: true })
    } else if 0xb0 <= code && code <= 0xb1 {
        Some(Simple { params: Params::One(Type::F64), result: Type::I64, feature: Feature::Mvp, extended_const: false, floats: true })
    } else if 0xb2 <= code && code <= 0xb3 {
        Some(Simple { params: Params::One(Type::I32), result: Type::F32, feature: Feature::Mvp, extended_const: false, floats: true })
    } else if 0xb4 <= code && code <= 0xb5 {
        Some(Simple { params: Params::One(Type::I64), result: Type::F32, feature: Feature::Mvp, extended_const: false, floats: true })
    } else if code == 0xb6 {
        Some(Simple { params: Params::One(Type::F64), result: Type::F32, feature: Feature::Mvp, extended_const: false, floats: true })
    } else if 0xb7 <= code && code <= 0xb8 {
        Some(Simple { params: Params::One(Type::I32), result: Type::F64, feature: Feature::Mvp, extended_const: false, floats: true })
    } else if 0xb9 <= code && code <= 0xba {
        Some(Simple { params: Params::One(Type::I64), result: Type::F64, feature: Feature::Mvp, extended_const: false, floats: true })
    } else if code == 0xbb {
        Some(Simple { params: Params::One(Type::F32), result: Type::F64, feature: Feature::Mvp, extended_const: false, floats: true })
    } else if code == 0xbc {
        Some(Simple { params: Params::One(Type::F32), result: Type::I32, feature: Feature::Mvp, extended_const: false, floats: true })
    } else if code == 0xbd {
        Some(Simple { params: Params::One(Type::F64), result: Type::I64, feature: Feature::Mvp, extended_const: false, floats: true })
    } else if code == 0xbe {
        Some(Simple { params: Params::One(Type::I32), result: Type::F32, feature: Feature::Mvp, extended_const: false, floats: true })
    } else if code == 0xbf {
        Some(Simple { params: Params::One(Type::I64), result: Type::F64, feature: Feature::Mvp, extended_const: false, floats: true })
    } else if 0xc0 <= code && code <= 0xc1 {
        Some(Simple { params: Params::One(Type::I32), result: Type::I32, feature: Feature::SignExtension, extended_const: false, floats: false })
    } else if 0xc2 <= code && code <= 0xc4 {
        Some(Simple { params: Params::One(Type::I64), result: Type::I64, feature: Feature::SignExtension, extended_const: false, floats: false })
    } else {
        None
    }
}

/// How the one byte operators on memory use it.
pub open spec fn access(code: u8) -> Option<Access> {
    if code == 0x28 {
        Some(Access { first: None, second: None, result: Some(Type::I32), natural: 2, feature: Feature::Mvp, atomic: false, lanes: 0 })
    } else if code == 0x29 {
        Some(Access { first: None, second: None, result: Some(Type::I64), natural: 3, feature: Feature::Mvp, atomic: false, lanes: 0 })
    } else if code == 0x2a {
        Some(Access { first: None, second: None, result: Some(Type::F32), natural: 2, feature: Feature::Mvp, atomic: false, lanes: 0 })
    } else if code == 0x2b {
        Some(Access { first: None, second: None, result: Some(Type::F64), natural: 3, feature: Feature::Mvp, atomic: false, lanes: 0 })
    } else if 0x2c <= code && code <= 0x2d {
        Some(Access { first: None, second: None, result: Some(Type::I32), natural: 0, feature: Feature::Mvp, atomic: false, lanes: 0 })
    } else if 0x2e <= code && code <= 0x2f {
        Some(Access { first: None, second: None, result: Some(Type::I32), natural: 1, feature: Feature::Mvp, atomic: false, lanes: 0 })
    } else if 0x30 <= code && code <= 0x31 {
        Some(Access { first: None, second: None, result: Some(Type::I64), natural: 0, feature: Feature::Mvp, atomic: false, lanes: 0 })
    } else if 0x32 <= code && code <= 0x33 {
        Some(Access { first: None, second: None, result: Some(Type::I64), natural: 1, feature: Feature::Mvp, atomic: false, lanes: 0 })
    } else if 0x34 <= code && code <= 0x35 {
        Some(Access { first: None, second: None, result: Some(Type::I64), natural: 2, feature: Feature::Mvp, atomic: false, lanes: 0 })
    } else if code == 0x36 {
        Some(Access { first: Some(Type::I32), second: None, result: None, natural: 2, feature: Feature::Mvp, atomic: false, lanes: 0 })
    } else if code == 0x37 {
        Some(Access { first: Some(Type::I64), second: None, result: None, natural: 3, feature: Feature::Mvp, atomic: false, lanes: 0 })
    } else if code == 0x38 {
        Some(Access { first: Some(Type::F32), second: None, result: None, natural: 2, feature: Feature::Mvp, atomic: false, lanes: 0 })
    } else if code == 0x39 {
        Some(Access { first: Some(Type::F64), second: None, result: None, natural: 3, feature: Feature::Mvp, atomic: false, lanes: 0 })
    } else if code == 0x3a {
        Some(Access { first: Some(Type::I32), second: None, result: None, natural: 0, feature: Feature::Mvp, atomic: false, lanes: 0 })
    } else if code == 0x3b {
        Some(Access { first: Some(Type::I32), second: None, result: None, natural: 1, feature: Feature::Mvp, atomic: false, lanes: 0 })
    } else if code == 0x3c {
        Some(Access { first: Some(Type::I64), second: None, result: None, natural: 0, feature: Feature::Mvp, atomic: false, lanes: 0 })
    } else if code == 0x3d {
        Some(Access { first: Some(Type::I64), second: None, result: None, natural: 1, feature: Feature::Mvp, atomic: false, lanes: 0 })
    } else if code == 0x3e {
        Some(Access { first: Some(Type::I64), second: None, result: None, natural: 2, feature: Feature::Mvp, atomic: false, lanes: 0 })
    } else {
        None
    }
}

/// How the one byte operators on memory use it.
fn access_op(code: u8) -> (op: Option<Access>)
    ensures
        op == access(code),
{
    if code == 0x28 {
        Some(Access { first: None, second: None, result: Some(Type::I32), natural: 2, feature: Feature::Mvp, atomic: false, lanes: 0 })
    } else if code == 0x29 {
        Some(Access { first: None, second: None, result: Some(Type::I64), natural: 3, feature: Feature::Mvp, atomic: false, lanes: 0 })
    } else if code == 0x2a {
        Some(Access { first: None, second: None, result: Some(Type::F32), natural: 2, feature: Feature::Mvp, atomic: false, lanes: 0 })
    } else if code == 0x2b {
        Some(Access { first: None, second: None, result: Some(Type::F64), natural: 3, feature: Feature::Mvp, atomic: false, lanes: 0 })
    } else if 0x2c <= code && code <= 0x2d {
        Some(Access { first: None, second: None, result: Some(Type::I32), natural: 0, feature: Feature::Mvp, atomic: false, lanes: 0 })
    } else if 0x2e <= code && code <= 0x2f {
        Some(Access { first: None, second: None, result: Some(Type::I32), natural: 1, feature: Feature::Mvp, atomic: false, lanes: 0 })
    } else if 0x30 <= code && code <= 0x31 {
        Some(Access { first: None, second: None, result: Some(Type::I64), natural: 0, feature: Feature::Mvp, atomic: false, lanes: 0 })
    } else if 0x32 <= code && code <= 0x33 {
        Some(Access { first: None, second: None, result: Some(Type::I64), natural: 1, feature: Feature::Mvp, atomic: false, lanes: 0 })
    } else if 0x34 <= code && code <= 0x35 {
        Some(Access { first: None, second: None, result: Some(Type::I64), natural: 2, feature: Feature::Mvp, atomic: false, lanes: 0 })
    } else if code == 0x36 {
        Some(Access { first: Some(Type::I32), second: None, result: None, natural: 2, feature: Feature::Mvp, atomic: false, lanes: 0 })
    } else if code == 0x37 {
        Some(Access { first: Some(Type::I64), second: None, result: None, natural: 3, feature: Feature::Mvp, atomic: false, lanes: 0 })
    } else if code == 0x38 {
        Some(Access { first: Some(Type::F32), second: None, result: None, natural: 2, feature: Feature::Mvp, atomic: false, lanes: 0 })
    } else if code == 0x39 {
        Some(Access { first: Some(Type::F64), second: None, result: None, natural: 3, feature: Feature::Mvp, atomic: false, lanes: 0 })
    } else if code == 0x3a {
        Some(Access { first: Some(Type::I32), second: None, result: None, natural: 0, feature: Feature::Mvp, atomic: false, lanes: 0 })
    } else if code == 0x3b {
        Some(Access { first: Some(Type::I32), second: None, result: None, natural: 1, feature: Feature::Mvp, atomic: false, lanes: 0 })
    } else if code == 0x3c {
        Some(Access { first: Some(Type::I64), second: None, result: None, natural: 0, feature: Feature::Mvp, atomic: false, lanes: 0 })
    } else if code == 0x3d {
        Some(Access { first: Some(Type::I64), second: None, result: None, natural: 1, feature: Feature::Mvp, atomic: false, lanes: 0 })
    } else if code == 0x3e {
        Some(Access { first: Some(Type::I64), second: None, result: None, natural: 2, feature: Feature::Mvp, atomic: false, lanes: 0 })
    } else {
        None
    }
}

/// What the vector operators without operands of their own in the code take and give.
pub open spec fn vector(code: u32) -> Option<Simple> {
    if code == 0x0e {
        Some(Simple { params: Params::Two(Type::V128, Type::V128), result: Type::V128, feature: Feature::Simd, extended_const: false, floats: false })
    } else if 0x0f <= code && code <= 0x11 {
        Some(Simple { params: Params::One(Type::I32), result: Type::V128, feature: Feature::Simd, extended_const: false, floats: false })
    } else if code == 0x12 {
        Some(Simple { params: Params::One(Type::I64), result: Type::V128, feature: Feature::Simd, extended_const: false, floats: false })
    } else if code == 0x13 {
        Some(Simple { params: Params::One(Type::F32), result: Type::V128, feature: Feature::Simd, extended_const: false, floats: true })
    } else if code == 0x14 {
        Some(Simple { params: Params::One(Type::F64), result: Type::V128, feature: Feature::Simd, extended_const: false, floats: true })
    } else if 0x23 <= code && code <= 0x40 {
        Some(Simple { params: Params::Two(Type::V128, Type::V128), result: Type::V128, feature: Feature::Simd, extended_const: false, floats: false })
    } else if 0x41 <= code && code <= 0x4c {
        Some(Simple { params: Params::Two(Type::V128, Type::V128), result: Type::V128, feature: Feature::Simd, extended_const: false, floats: true })
    } else if code == 0x4d {
        Some(Simple { params: Params::One(Type::V128), result: Type::V128, feature: Feature::Simd, extended_const: false, floats: false })
    } else if 0x4e <= code && code <= 0x51 {
        Some(Simple { params: Params::Two(Type::V128, Type::V128), result: Type::V128, feature: Feature::Simd, extended_const: false, floats: false })
    } else if code == 0x52 {
        Some(Simple { params: Params::Three(Type::V128, Type::V128, Type::V128), result: Type::V128, feature: Feature::Simd, extended_const: false, floats: false })
    } else if code == 0x53 {
        Some(Simple { params: Params::One(Type::V128), result: Type::I32, feature: Feature::Simd, extended_const: false, floats: false })
    } else if 0x5e <= code && code <= 0x5f {
        Some(Simple { params: Params::One(Type::V128), result: Type::V128, feature: Feature::Simd, extended_const: false, floats: true })
    } else if 0x60 <= code && code <= 0x62 {
        Some(Simple { params: Params::One(Type::V128), result: Type::V128, feature: Feature::Simd, extended_const: false, floats: false })
    } else if 0x63 <= code && code <= 0x64 {
        Some(Simple { params: Params::One(Type::V128), result: Type::I32, feature: Feature::Simd, extended_const: false, floats: false })
    } else if 0x65 <= code && code <= 0x66 {
        Some(Simple { params: Params::Two(Type::V128, Type::V128), result: Type::V128, feature: Feature::Simd, extended_const: false, floats: false })
    } else if 0x67 <= code && code <= 0x6a {
        Some(Simple { params: Params::One(Type::V128), result: Type::V128, feature: Feature::Simd, extended_const: false, floats: true })
    } else if 0x6b <= code && code <= 0x6d {
        Some(Simple { params: Params::Two(Type::V128, Type::I32), result: Type::V128, feature: Feature::Simd, extended_const: false, floats: false })
    } else if 0x6e <= code && code <= 0x73 {
        Some(Simple { params: Params::Two(Type::V128, Type::V128), result: Type::V128, feature: Feature::Simd, extended_const: false, floats: false })
    } else if 0x74 <= code && code <= 0x75 {
        Some(Simple { params: Params::One(Type::V128), result: Type::V128, feature: Feature::Simd, extended_const: false, floats: true })
    } else if 0x76 <= code && code <= 0x79 {
        Some(Simple { params: Params::Two(Type::V128, Type::V128), result: Type::V128, feature: Feature::Simd, extended_const: false, floats: false })
    } else if code == 0x7a {
        Some(Simple { params: Params::One(Type::V128), result: Type::V128, feature: Feature::Simd, extended_const: false, floats: true })
    } else if code == 0x7b {
        Some(Simple { params: Params::Two(Type::V128, Type::V128), result: Type::V128, feature: Feature::Simd, extended_const: false, floats: false })
    } else if 0x7c <= code && code <= 0x81 {
        Some(Simple { params: Params::One(Type::V128), result: Type::V128, feature: Feature::Simd, extended_const: false, floats: false })
    } else if code == 0x82 {
        Some(Simple { params: Params::Two(Type::V128, Type::V128), result: Type::V128, feature: Feature::Simd, extended_const: false, floats: false })
    } else if 0x83 <= code && code <= 0x84 {
        Some(Simple { params: Params::One(Type::V128), result: Type::I32, feature: Feature::Simd, extended_const: false, floats: false })
    } else if 0x85 <= code && code <= 0x86 {
        Some(Simple { params: Params::Two(Type::V128, Type::V128), result: Type::V128, feature: Feature::Simd, extended_const: false, floats: false })
    } else if 0x87 <= code && code <= 0x8a {
        Some(Simple { params: Params::One(Type::V128), result: Type::V128, feature: Feature::Simd, extended_const: false, floats: false })
    } else if 0x8b <= code && code <= 0x8d {
        Some(Simple { params: Params::Two(Type::V128, Type::I32), result: Type::V128, feature: Feature::Simd, extended_const: false, floats: false })
    } else if 0x8e <= code && code <= 0x93 {
        Some(Simple { params: Params::Two(Type::V128, Type::V128), result: Type::V128, feature: Feature::Simd, extended_const: false, floats: false })
    } else if code == 0x94 {
        Some(Simple { params: Params::One(Type::V128), result: Type::V128, feature: Feature::Simd, extended_const: false, floats: true })
    } else if 0x95 <= code && code <= 0x99 {
        Some(Simple { params: Params::Two(Type::V128, Type::V128), result: Type::V128, feature: Feature::Simd, extended_const: false, floats: false })
    } else if 0x9b <= code && code <= 0x9f {
        Some(Simple { params: Params::Two(Type::V128, Type::V128), result: Type::V128, feature: Feature::Simd, extended_const: false, floats: false })
    } else if 0xa0 <= code && code <= 0xa1 {
        Some(Simple { params: Params::One(Type::V128), result: Type::V128, feature: Feature::Simd, extended_const: false, floats: false })
    } else if code == 0xa2 {
        Some(Simple { params: Params::Two(Type::V128, Type::V128), result: Type::V128, feature: Feature::RelaxedSimd, extended_const: false, floats: false })
    } else if 0xa3 <= code && code <= 0xa4 {
        Some(Simple { params: Params::One(Type::V128), result: Type::I32, feature: Feature::Simd, extended_const: false, floats: false })
    } else if 0xa5 <= code && code <= 0xa6 {
        Some(Simple { params: Params::One(Type::V128), result: Type::V128, feature: Feature::RelaxedSimd, extended_const: false, floats: false })
    } else if 0xa7 <= code && code <= 0xaa {
        Some(Simple { params: Params::One(Type::V128), result: Type::V128, feature: Feature::Simd, extended_const: false, floats: false })
    } else if 0xab <= code && code <= 0xad {
        Some(Simple { params: Params::Two(Type::V128, Type::I32), result: Type::V128, feature: Feature::Simd, extended_const: false, floats: false })
    } else if code == 0xae {
        Some(Simple { params: Params::Two(Type::V128, Type::V128), result: Type::V128, feature: Feature::Simd, extended_const: false, floats: false })
    } else if 0xaf <= code && code <= 0xb0 {
        Some(Simple { params: Params::Three(Type::V128, Type::V128, Type::V128), result: Type::V128, feature: Feature::RelaxedSimd, extended_const: false, floats: true })
    } else if code == 0xb1 {
        Some(Simple { params: Params::Two(Type::V128, Type::V128), result: Type::V128, feature: Feature::Simd, extended_const: false, floats: false })
    } else if 0xb2 <= code && code <= 0xb3 {
        Some(Simple { params: Params::Three(Type::V128, Type::V128, Type::V128), result: Type::V128, feature: Feature::RelaxedSimd, extended_const: false, floats: false })
    } else if code == 0xb4 {
        Some(Simple { params: Params::Two(Type::V128, Type::V128), result: Type::V128, feature: Feature::RelaxedSimd, extended_const: false, floats: true })
    } else if 0xb5 <= code && code <= 0xba {
        Some(Simple { params: Params::Two(Type::V128, Type::V128), result: Type::V128, feature: Feature::Simd, extended_const: false, floats: false })
    } else if 0xbc <= code && code <= 0xbf {
        Some(Simple { params: Params::Two(Type::V128, Type::V128), result: Type::V128, feature: Feature::Simd, extended_const: false, floats: false })
    } else if 0xc0 <= code && code <= 0xc1 {
        Some(Simple { params: Params::One(Type::V128), result: Type::V128, feature: Feature::Simd, extended_const: false, floats: false })
    } else if 0xc3 <= code && code <= 0xc4 {
        Some(Simple { params: Params::One(Type::V128), result: Type::I32, feature: Feature::Simd, extended_const: false, floats: false })
    } else if 0xc5 <= code && code <= 0xc6 {
        Some(Simple { params: Params::One(Type::V128), result: Type::V128, feature: Feature::RelaxedSimd, extended_const: false, floats: false })
    } else if 0xc7 <= code && code <= 0xca {
        Some(Simple { params: Params::One(Type::V128), result: Type::V128, feature: Feature::Simd, extended_const: false, floats: false })
    } else if 0xcb <= code && code <= 0xcd {
        Some(Simple { params: Params::Two(Type::V128, Type::I32), result: Type::V128, feature: Feature::Simd, extended_const: false, floats: false })
    } else if code == 0xce {
        Some(Simple { params: Params::Two(Type::V128, Type::V128), result: Type::V128, feature: Feature::Simd, extended_const: false, floats: false })
    } else if 0xcf <= code && code <= 0xd0 {
        Some(Simple { params: Params::Three(Type::V128, Type::V128, Type::V128), result: Type::V128, feature: Feature::RelaxedSimd, extended_const: false, floats: true })
    } else if code == 0xd1 {
        Some(Simple { params: Params::Two(Type::V128, Type::V128), result: Type::V128, feature: Feature::Simd, extended_const: false, floats: false })
    } else if 0xd2 <= code && code <= 0xd3 {
        Some(Simple { params: Params::Three(Type::V128, Type::V128, Type::V128), result: Type::V128, feature: Feature::RelaxedSimd, extended_const: false, floats: false })
    } else if code == 0xd4 {
        Some(Simple { params: Params::Two(Type::V128, Type::V128), result: Type::V128, feature: Feature::RelaxedSimd, extended_const: false, floats: true })
    } else if 0xd5 <= code && code <= 0xdb {
        Some(Simple { params: Params::Two(Type::V128, Type::V128), result: Type::V128, feature: Feature::Simd, extended_const: false, floats: false })
    } else if 0xdc <= code && code <= 0xdf {
        Some(Simple { params: Params::Two(Type::V128, Type::V128), result: Type::V128, feature: Feature::Simd, extended_const: false, floats: false })
    } else if 0xe0 <= code && code <= 0xe1 {
        Some(Simple { params: Params::One(Type::V128), result: Type::V128, feature: Feature::Simd, extended_const: false, floats: true })
    } else if code == 0xe2 {
        Some(Simple { params: Params::Two(Type::V128, Type::V128), result: Type::V128, feature: Feature::RelaxedSimd, extended_const: false, floats: true })
    } else if code == 0xe3 {
        Some(Simple { params: Params::One(Type::V128), result: Type::V128, feature: Feature::Simd, extended_const: false, floats: true })
    } else if 0xe4 <= code && code <= 0xeb {
        Some(Simple { params: Params::Two(Type::V128, Type::V128), result: Type::V128, feature: Feature::Simd, extended_const: false, floats: true })
    } else if 0xec <= code && code <= 0xed {
        Some(Simple { params: Params::One(Type::V128), result: Type::V128, feature: Feature::Simd, extended_const: false, floats: true })
    } else if code == 0xee {
        Some(Simple { params: Params::Two(Type::V128, Type::V128), result: Type::V128, feature: Feature::RelaxedSimd, extended_const: false, floats: true })
    } else if code == 0xef {
        Some(Simple { params: Params::One(Type::V128), result: Type::V128, feature: Feature::Simd, extended_const: false, floats: true })
    } else if 0xf0 <= code && code <= 0xf7 {
        Some(Simple { params: Params::Two(Type::V128, Type::V128), result: Type::V128, feature: Feature::Simd, extended_const: false, floats: true })
    } else if 0xf8 <= code && code <= 0xff {
        Some(Simple { params: Params::One(Type::V128), result: Type::V128, feature: Feature::Simd, extended_const: false, floats: true })
    } else {
        None
    }
}

/// What the vector operators without operands of their own in the code take and give.
fn vector_op(code: u32) -> (op: Option<Simple>)
    ensures
        op == vector(code),
{
    if code == 0x0e {
        Some(Simple { params: Params::Two(Type::V128, Type::V128), result: Type::V128, feature: Feature::Simd, extended_const: false, floats: false })
    } else if 0x0f <= code && code <= 0x11 {
        Some(Simple { params: Params::One(Type::I32), result: Type::V128, feature: Feature::Simd, extended_const: false, floats: false })
    } else if code == 0x12 {
        Some(Simple { params: Params::One(Type::I64), result: Type::V128, feature: Feature::Simd, extended_const: false, floats: false })
    } else if code == 0x13 {
        Some(Simple { params: Params::One(Type::F32), result: Type::V128, feature: Feature::Simd, extended_const: false, floats: true })
    } else if code == 0x14 {
        Some(Simple { params: Params::One(Type::F64), result: Type::V128, feature: Feature::Simd, extended_const: false, floats: true })
    } else if 0x23 <= code && code <= 0x40 {
        Some(Simple { params: Params::Two(Type::V128, Type::V128), result: Type::V128, feature: Feature::Simd, extended_const: false, floats: false })
    } else if 0x41 <= code && code <= 0x4c {
        Some(Simple { params: Params::Two(Type::V128, Type::V128), result: Type::V128, feature: Feature::Simd, extended_const: false, floats: true })
    } else if code == 0x4d {
        Some(Simple { params: Params::One(Type::V128), result: Type::V128, feature: Feature::Simd, extended_const: false, floats: false })
    } else if 0x4e <= code && code <= 0x51 {
        Some(Simple { params: Params::Two(Type::V128, Type::V128), result: Type::V128, feature: Feature::Simd, extended_const: false, floats: false })
    } else if code == 0x52 {
        Some(Simple { params: Params::Three(Type::V128, Type::V128, Type::V128), result: Type::V128, feature: Feature::Simd, extended_const: false, floats: false })
    } else if code == 0x53 {
        Some(Simple { params: Params::One(Type::V128), result: Type::I32, feature: Feature::Simd, extended_const: false, floats: false })
    } else if 0x5e <= code && code <= 0x5f {
        Some(Simple { params: Params::One(Type::V128), result: Type::V128, feature: Feature::Simd, extended_const: false, floats: true })
    } else if 0x60 <= code && code <= 0x62 {
        Some(Simple { params: Params::One(Type::V128), result: Type::V128, feature: Feature::Simd, extended_const: false, floats: false })
    } else if 0x63 <= code && code <= 0x64 {
        Some(Simple { params: Params::One(Type::V128), result: Type::I32, feature: Feature::Simd, extended_const: false, floats: false })
    } else if 0x65 <= code && code <= 0x66 {
        Some(Simple { params: Params::Two(Type::V128, Type::V128), result: Type::V128, feature: Feature::Simd, extended_const: false, floats: false })
    } else if 0x67 <= code && code <= 0x6a {
        Some(Simple { params: Params::One(Type::V128), result: Type::V128, feature: Feature::Simd, extended_const: false, floats: true })
    } else if 0x6b <= code && code <= 0x6d {
        Some(Simple { params: Params::Two(Type::V128, Type::I32), result: Type::V128, feature: Feature::Simd, extended_const: false, floats: false })
    } else if 0x6e <= code && code <= 0x73 {
        Some(Simple { params: Params::Two(Type::V128, Type::V128), result: Type::V128, feature: Feature::Simd, extended_const: false, floats: false })
    } else if 0x74 <= code && code <= 0x75 {
        Some(Simple { params: Params::One(Type::V128), result: Type::V128, feature: Feature::Simd, extended_const: false, floats: true })
    } else if 0x76 <= code && code <= 0x79 {
        Some(Simple { params: Params::Two(Type::V128, Type::V128), result: Type::V128, feature: Feature::Simd, extended_const: false, floats: false })
    } else if code == 0x7a {
        Some(Simple { params: Params::One(Type::V128), result: Type::V128, feature: Feature::Simd, extended_const: false, floats: true })
    } else if code == 0x7b {
        Some(Simple { params: Params::Two(Type::V128, Type::V128), result: Type::V128, feature: Feature::Simd, extended_const: false, floats: false })
    } else if 0x7c <= code && code <= 0x81 {
        Some(Simple { params: Params::One(Type::V128), result: Type::V128, feature: Feature::Simd, extended_const: false, floats: false })
    } else if code == 0x82 {
        Some(Simple { params: Params::Two(Type::V128, Type::V128), result: Type::V128, feature: Feature::Simd, extended_const: false, floats: false })
    } else if 0x83 <= code && code <= 0x84 {
        Some(Simple { params: Params::One(Type::V128), result: Type::I32, feature: Feature::Simd, extended_const: false, floats: false })
    } else if 0x85 <= code && code <= 0x86 {
        Some(Simple { params: Params::Two(Type::V128, Type::V128), result: Type::V128, feature: Feature::Simd, extended_const: false, floats: false })
    } else if 0x87 <= code && code <= 0x8a {
        Some(Simple { params: Params::One(Type::V128), result: Type::V128, feature: Feature::Simd, extended_const: false, floats: false })
    } else if 0x8b <= code && code <= 0x8d {
        Some(Simple { params: Params::Two(Type::V128, Type::I32), result: Type::V128, feature: Feature::Simd, extended_const: false, floats: false })
    } else if 0x8e <= code && code <= 0x93 {
        Some(Simple { params: Params::Two(Type::V128, Type::V128), result: Type::V128, feature: Feature::Simd, extended_const: false, floats: false })
    } else if code == 0x94 {
        Some(Simple { params: Params::One(Type::V128), result: Type::V128, feature: Feature::Simd, extended_const: false, floats: true })
    } else if 0x95 <= code && code <= 0x99 {
        Some(Simple { params: Params::Two(Type::V128, Type::V128), result: Type::V128, feature: Feature::Simd, extended_const: false, floats: false })
    } else if 0x9b <= code && code <= 0x9f {
        Some(Simple { params: Params::Two(Type::V128, Type::V128), result: Type::V128, feature: Feature::Simd, extended_const: false, floats: false })
    } else if 0xa0 <= code && code <= 0xa1 {
        Some(Simple { params: Params::One(Type::V128), result: Type::V128, feature: Feature::Simd, extended_const: false, floats: false })
    } else if code == 0xa2 {
        Some(Simple { params: Params::Two(Type::V128, Type::V128), result: Type::V128, feature: Feature::RelaxedSimd, extended_const: false, floats: false })
    } else if 0xa3 <= code && code <= 0xa4 {
        Some(Simple { params: Params::One(Type::V128), result: Type::I32, feature: Feature::Simd, extended_const: false, floats: false })
    } else if 0xa5 <= code && code <= 0xa6 {
        Some(Simple { params: Params::One(Type::V128), result: Type::V128, feature: Feature::RelaxedSimd, extended_const: false, floats: false })
    } else if 0xa7 <= code && code <= 0xaa {
        Some(Simple { params: Params::One(Type::V128), result: Type::V128, feature: Feature::Simd, extended_const: false, floats: false })
    } else if 0xab <= code && code <= 0xad {
        Some(Simple { params: Params::Two(Type::V128, Type::I32), result: Type::V128, feature: Feature::Simd, extended_const: false, floats: false })
    } else if code == 0xae {
        Some(Simple { params: Params::Two(Type::V128, Type::V128), result: Type::V128, feature: Feature::Simd, extended_const: false, floats: false })
    } else if 0xaf <= code && code <= 0xb0 {
        Some(Simple { params: Params::Three(Type::V128, Type::V128, Type::V128), result: Type::V128, feature: Feature::RelaxedSimd, extended_const: false, floats: true })
    } else if code == 0xb1 {
        Some(Simple { params: Params::Two(Type::V128, Type::V128), result: Type::V128, feature: Feature::Simd, extended_const: false, floats: false })
    } else if 0xb2 <= code && code <= 0xb3 {
        Some(Simple { params: Params::Three(Type::V128, Type::V128, Type::V128), result: Type::V128, feature: Feature::RelaxedSimd, extended_const: false, floats: false })
    } else if code == 0xb4 {
        Some(Simple { params: Params::Two(Type::V128, Type::V128), result: Type::V128, feature: Feature::RelaxedSimd, extended_const: false, floats: true })
    } else if 0xb5 <= code && code <= 0xba {
        Some(Simple { params: Params::Two(Type::V128, Type::V128), result: Type::V128, feature: Feature::Simd, extended_const: false, floats: false })
    } else if 0xbc <= code && code <= 0xbf {
        Some(Simple { params: Params::Two(Type::V128, Type::V128), result: Type::V128, feature: Feature::Simd, extended_const: false, floats: false })
    } else if 0xc0 <= code && code <= 0xc1 {
        Some(Simple { params: Params::One(Type::V128), result: Type::V128, feature: Feature::Simd, extended_const: false, floats: false })
    } else if 0xc3 <= code && code <= 0xc4 {
        Some(Simple { params: Params::One(Type::V128), result: Type::I32, feature: Feature::Simd, extended_const: false, floats: false })
    } else if 0xc5 <= code && code <= 0xc6 {
        Some(Simple { params: Params::One(Type::V128), result: Type::V128, feature: Feature::RelaxedSimd, extended_const: false, floats: false })
    } else if 0xc7 <= code && code <= 0xca {
        Some(Simple { params: Params::One(Type::V128), result: Type::V128, feature: Feature::Simd, extended_const: false, floats: false })
    } else if 0xcb <= code && code <= 0xcd {
        Some(Simple { params: Params::Two(Type::V128, Type::I32), result: Type::V128, feature: Feature::Simd, extended_const: false, floats: false })
    } else if code == 0xce {
        Some(Simple { params: Params::Two(Type::V128, Type::V128), result: Type::V128, feature: Feature::Simd, extended_const: false, floats: false })
    } else if 0xcf <= code && code <= 0xd0 {
        Some(Simple { params: Params::Three(Type::V128, Type::V128, Type::V128), result: Type::V128, feature: Feature::RelaxedSimd, extended_const: false, floats: true })
    } else if code == 0xd1 {
        Some(Simple { params: Params::Two(Type::V128, Type::V128), result: Type::V128, feature: Feature::Simd, extended_const: false, floats: false })
    } else if 0xd2 <= code && code <= 0xd3 {
        Some(Simple { params: Params::Three(Type::V128, Type::V128, Type::V128), result: Type::V128, feature: Feature::RelaxedSimd, extended_const: false, floats: false })
    } else if code == 0xd4 {
        Some(Simple { params: Params::Two(Type::V128, Type::V128), result: Type::V128, feature: Feature::RelaxedSimd, extended_const: false, floats: true })
    } else if 0xd5 <= code && code <= 0xdb {
        Some(Simple { params: Params::Two(Type::V128, Type::V128), result: Type::V128, feature: Feature::Simd, extended_const: false, floats: false })
    } else if 0xdc <= code && code <= 0xdf {
        Some(Simple { params: Params::Two(Type::V128, Type::V128), result: Type::V128, feature: Feature::Simd, extended_const: false, floats: false })
    } else if 0xe0 <= code && code <= 0xe1 {
        Some(Simple { params: Params::One(Type::V128), result: Type::V128, feature: Feature::Simd, extended_const: false, floats: true })
    } else if code == 0xe2 {
        Some(Simple { params: Params::Two(Type::V128, Type::V128), result: Type::V128, feature: Feature::RelaxedSimd, extended_const: false, floats: true })
    } else if code == 0xe3 {
        Some(Simple { params: Params::One(Type::V128), result: Type::V128, feature: Feature::Simd, extended_const: false, floats: true })
    } else if 0xe4 <= code && code <= 0xeb {
        Some(Simple { params: Params::Two(Type::V128, Type::V128), result: Type::V128, feature: Feature::Simd, extended_const: false, floats: true })
    } else if 0xec <= code && code <= 0xed {
        Some(Simple { params: Params::One(Type::V128), result: Type::V128, feature: Feature::Simd, extended_const: false, floats: true })
    } else if code == 0xee {
        Some(Simple { params: Params::Two(Type::V128, Type::V128), result: Type::V128, feature: Feature::RelaxedSimd, extended_const: false, floats: true })
    } else if code == 0xef {
        Some(Simple { params: Params::One(Type::V128), result: Type::V128, feature: Feature::Simd, extended_const: false, floats: true })
    } else if 0xf0 <= code && code <= 0xf7 {
        Some(Simple { params: Params::Two(Type::V128, Type::V128), result: Type::V128, feature: Feature::Simd, extended_const: false, floats: true })
    } else if 0xf8 <= code && code <= 0xff {
        Some(Simple { params: Params::One(Type::V128), result: Type::V128, feature: Feature::Simd, extended_const: false, floats: true })
    } else {
        None
    }
}

/// What the operators on one lane take and give, and how many lanes there are.
pub open spec fn lane(code: u32) -> Option<(Simple, u8)> {
    if 0x15 <= code && code <= 0x16 {
        Some((Simple { params: Params::One(Type::V128), result: Type::I32, feature: Feature::Simd, extended_const: false, floats: false }, 16u8))
    } else if code == 0x17 {
        Some((Simple { params: Params::Two(Type::V128, Type::I32), result: Type::V128, feature: Feature::Simd, extended_const: false, floats: false }, 16u8))
    } else if 0x18 <= code && code <= 0x19 {
        Some((Simple { params: Params::One(Type::V128), result: Type::I32, feature: Feature::Simd, extended_const: false, floats: false }, 8u8))
    } else if code == 0x1a {
        Some((Simple { params: Params::Two(Type::V128, Type::I32), result: Type::V128, feature: Feature::Simd, extended_const: false, floats: false }, 8u8))
    } else if code == 0x1b {
        Some((Simple { params: Params::One(Type::V128), result: Type::I32, feature: Feature::Simd, extended_const: false, floats: false }, 4u8))
    } else if code == 0x1c {
        Some((Simple { params: Params::Two(Type::V128, Type::I32), result: Type::V128, feature: Feature::Simd, extended_const: false, floats: false }, 4u8))
    } else if code == 0x1d {
        Some((Simple { params: Params::One(Type::V128), result: Type::I64, feature: Feature::Simd, extended_const: false, floats: false }, 2u8))
    } else if code == 0x1e {
        Some((Simple { params: Params::Two(Type::V128, Type::I64), result: Type::V128, feature: Feature::Simd, extended_const: false, floats: false }, 2u8))
    } else if code == 0x1f {
        Some((Simple { params: Params::One(Type::V128), result: Type::F32, feature: Feature::Simd, extended_const: false, floats: true }, 4u8))
    } else if code == 0x20 {
        Some((Simple { params: Params::Two(Type::V128, Type::F32), result: Type::V128, feature: Feature::Simd, extended_const: false, floats: true }, 4u8))
    } else if code == 0x21 {
        Some((Simple { params: Params::One(Type::V128), result: Type::F64, feature: Feature::Simd, extended_const: false, floats: true }, 2u8))
    } else if code == 0x22 {
        Some((Simple { params: Params::Two(Type::V128, Type::F64), result: Type::V128, feature: Feature::Simd, extended_const: false, floats: true }, 2u8))
    } else {
        None
    }
}

/// What the operators on one lane take and give, and how many lanes there are.
fn lane_op(code: u32) -> (op: Option<(Simple, u8)>)
    ensures
        op == lane(code),
{
    if 0x15 <= code && code <= 0x16 {
        Some((Simple { params: Params::One(Type::V128), result: Type::I32, feature: Feature::Simd, extended_const: false, floats: false }, 16u8))
    } else if code == 0x17 {
        Some((Simple { params: Params::Two(Type::V128, Type::I32), result: Type::V128, feature: Feature::Simd, extended_const: false, floats: false }, 16u8))
    } else if 0x18 <= code && code <= 0x19 {
        Some((Simple { params: Params::One(Type::V128), result: Type::I32, feature: Feature::Simd, extended_const: false, floats: false }, 8u8))
    } else if code == 0x1a {
        Some((Simple { params: Params::Two(Type::V128, Type::I32), result: Type::V128, feature: Feature::Simd, extended_const: false, floats: false }, 8u8))
    } else if code == 0x1b {
        Some((Simple { params: Params::One(Type::V128), result: Type::I32, feature: Feature::Simd, extended_const: false, floats: false }, 4u8))
    } else if code == 0x1c {
        Some((Simple { params: Params::Two(Type::V128, Type::I32), result: Type::V128, feature: Feature::Simd, extended_const: false, floats: false }, 4u8))
    } else if code == 0x1d {
        Some((Simple { params: Params::One(Type::V128), result: Type::I64, feature: Feature::Simd, extended_const: false, floats: false }, 2u8))
    } else if code == 0x1e {
        Some((Simple { params: Params::Two(Type::V128, Type::I64), result: Type::V128, feature: Feature::Simd, extended_const: false, floats: false }, 2u8))
    } else if code == 0x1f {
        Some((Simple { params: Params::One(Type::V128), result: Type::F32, feature: Feature::Simd, extended_const: false, floats: true }, 4u8))
    } else if code == 0x20 {
        Some((Simple { params: Params::Two(Type::V128, Type::F32), result: Type::V128, feature: Feature::Simd, extended_const: false, floats: true }, 4u8))
    } else if code == 0x21 {
        Some((Simple { params: Params::One(Type::V128), result: Type::F64, feature: Feature::Simd, extended_const: false, floats: true }, 2u8))
    } else if code == 0x22 {
        Some((Simple { params: Params::Two(Type::V128, Type::F64), result: Type::V128, feature: Feature::Simd, extended_const: false, floats: true }, 2u8))
    } else {
        None
    }
}

/// How the vector operators on memory use it.
pub open spec fn vector_access(code: u32) -> Option<Access> {
    if code == 0x00 {
        Some(Access { first: None, second: None, result: Some(Type::V128), natural: 4, feature: Feature::Simd, atomic: false, lanes: 0 })
    } else if 0x01 <= code && code <= 0x06 {
        Some(Access { first: None, second: None, result: Some(Type::V128), natural: 3, feature: Feature::Simd, atomic: false, lanes: 0 })
    } else if code == 0x07 {
        Some(Access { first: None, second: None, result: Some(Type::V128), natural: 0, feature: Feature::Simd, atomic: false, lanes: 0 })
    } else if code == 0x08 {
        Some(Access { first: None, second: None, result: Some(Type::V128), natural: 1, feature: Feature::Simd, atomic: false, lanes: 0 })
    } else if code == 0x09 {
        Some(Access { first: None, second: None, result: Some(Type::V128), natural: 2, feature: Feature::Simd, atomic: false, lanes: 0 })
    } else if code == 0x0a {
        Some(Access { first: None, second: None, result: Some(Type::V128), natural: 3, feature: Feature::Simd, atomic: false, lanes: 0 })
    } else if code == 0x0b {
        Some(Access { first: Some(Type::V128), second: None, result: None, natural: 4, feature: Feature::Simd, atomic: false, lanes: 0 })
    } else if code == 0x54 {
        Some(Access { first: Some(Type::V128), second: None, result: Some(Type::V128), natural: 0, feature: Feature::Simd, atomic: false, lanes: 16 })
    } else if code == 0x55 {
        Some(Access { first: Some(Type::V128), second: None, result: Some(Type::V128), natural: 1, feature: Feature::Simd, atomic: false, lanes: 8 })
    } else if code == 0x56 {
        Some(Access { first: Some(Type::V128), second: None, result: Some(Type::V128), natural: 2, feature: Feature::Simd, atomic: false, lanes: 4 })
    } else if code == 0x57 {
        Some(Access { first: Some(Type::V128), second: None, result: Some(Type::V128), natural: 3, feature: Feature::Simd, atomic: false, lanes: 2 })
    } else if code == 0x58 {
        Some(Access { first: Some(Type::V128), second: None, result: None, natural: 0, feature: Feature::Simd, atomic: false, lanes: 16 })
    } else if code == 0x59 {
        Some(Access { first: Some(Type::V128), second: None, result: None, natural: 1, feature: Feature::Simd, atomic: false, lanes: 8 })
    } else if code == 0x5a {
        Some(Access { first: Some(Type::V128), second: None, result: None, natural: 2, feature: Feature::Simd, atomic: false, lanes: 4 })
    } else if code == 0x5b {
        Some(Access { first: Some(Type::V128), second: None, result: None, natural: 3, feature: Feature::Simd, atomic: false, lanes: 2 })
    } else if code == 0x5c {
        Some(Access { first: None, second: None, result: Some(Type::V128), natural: 2, feature: Feature::Simd, atomic: false, lanes: 0 })
    } else if code == 0x5d {
        Some(Access { first: None, second: None, result: Some(Type::V128), natural: 3, feature: Feature::Simd, atomic: false, lanes: 0 })
    } else {
        None
    }
}

/// How the vector operators on memory use it.
fn vector_access_op(code: u32) -> (op: Option<Access>)
    ensures
        op == vector_access(code),
{
    if code == 0x00 {
        Some(Access { first: None, second: None, result: Some(Type::V128), natural: 4, feature: Feature::Simd, atomic: false, lanes: 0 })
    } else if 0x01 <= code && code <= 0x06 {
        Some(Access { first: None, second: None, result: Some(Type::V128), natural: 3, feature: Feature::Simd, atomic: false, lanes: 0 })
    } else if code == 0x07 {
        Some(Access { first: None, second: None, result: Some(Type::V128), natural: 0, feature: Feature::Simd, atomic: false, lanes: 0 })
    } else if code == 0x08 {
        Some(Access { first: None, second: None, result: Some(Type::V128), natural: 1, feature: Feature::Simd, atomic: false, lanes: 0 })
    } else if code == 0x09 {
        Some(Access { first: None, second: None, result: Some(Type::V128), natural: 2, feature: Feature::Simd, atomic: false, lanes: 0 })
    } else if code == 0x0a {
        Some(Access { first: None, second: None, result: Some(Type::V128), natural: 3, feature: Feature::Simd, atomic: false, lanes: 0 })
    } else if code == 0x0b {
        Some(Access { first: Some(Type::V128), second: None, result: None, natural: 4, feature: Feature::Simd, atomic: false, lanes: 0 })
    } else if code == 0x54 {
        Some(Access { first: Some(Type::V128), second: None, result: Some(Type::V128), natural: 0, feature: Feature::Simd, atomic: false, lanes: 16 })
    } else if code == 0x55 {
        Some(Access { first: Some(Type::V128), second: None, result: Some(Type::V128), natural: 1, feature: Feature::Simd, atomic: false, lanes: 8 })
    } else if code == 0x56 {
        Some(Access { first: Some(Type::V128), second: None, result: Some(Type::V128), natural: 2, feature: Feature::Simd, atomic: false, lanes: 4 })
    } else if code == 0x57 {
        Some(Access { first: Some(Type::V128), second: None, result: Some(Type::V128), natural: 3, feature: Feature::Simd, atomic: false, lanes: 2 })
    } else if code == 0x58 {
        Some(Access { first: Some(Type::V128), second: None, result: None, natural: 0, feature: Feature::Simd, atomic: false, lanes: 16 })
    } else if code == 0x59 {
        Some(Access { first: Some(Type::V128), second: None, result: None, natural: 1, feature: Feature::Simd, atomic: false, lanes: 8 })
    } else if code == 0x5a {
        Some(Access { first: Some(Type::V128), second: None, result: None, natural: 2, feature: Feature::Simd, atomic: false, lanes: 4 })
    } else if code == 0x5b {
        Some(Access { first: Some(Type::V128), second: None, result: None, natural: 3, feature: Feature::Simd, atomic: false, lanes: 2 })
    } else if code == 0x5c {
        Some(Access { first: None, second: None, result: Some(Type::V128), natural: 2, feature: Feature::Simd, atomic: false, lanes: 0 })
    } else if code == 0x5d {
        Some(Access { first: None, second: None, result: Some(Type::V128), natural: 3, feature: Feature::Simd, atomic: false, lanes: 0 })
    } else {
        None
    }
}

/// How the atomic operators on memory use it.
pub open spec fn atomic_access(code: u32) -> Option<Access> {
    if code == 0x00 {
        Some(Access { first: Some(Type::I32), second: None, result: Some(Type::I32), natural: 2, feature: Feature::Threads, atomic: true, lanes: 0 })
    } else if code == 0x01 {
        Some(Access { first: Some(Type::I32), second: Some(Type::I64), result: Some(Type::I32), natural: 2, feature: Feature::Threads, atomic: true, lanes: 0 })
    } else if code == 0x02 {
        Some(Access { first: Some(Type::I64), second: Some(Type::I64), result: Some(Type::I32), natural: 3, feature: Feature::Threads, atomic: true, lanes: 0 })
    } else if code == 0x10 {
        Some(Access { first: None, second: None, result: Some(Type::I32), natural: 2, feature: Feature::Threads, atomic: true, lanes: 0 })
    } else if code == 0x11 {
        Some(Access { first: None, second: None, result: Some(Type::I64), natural: 3, feature: Feature::Threads, atomic: true, lanes: 0 })
    } else if code == 0x12 {
        Some(Access { first: None, second: None, result: Some(Type::I32), natural: 0, feature: Feature::Threads, atomic: true, lanes: 0 })
    } else if code == 0x13 {
        Some(Access { first: None, second: None, result: Some(Type::I32), natural: 1, feature: Feature::Threads, atomic: true, lanes: 0 })
    } else if code == 0x14 {
        Some(Access { first: None, second: None, result: Some(Type::I64), natural: 0, feature: Feature::Threads, atomic: true, lanes: 0 })
    } else if code == 0x15 {
        Some(Access { first: None, second: None, result: Some(Type::I64), natural: 1, feature: Feature::Threads, atomic: true, lanes: 0 })
    } else if code == 0x16 {
        Some(Access { first: None, second: None, result: Some(Type::I64), natural: 2, feature: Feature::Threads, atomic: true, lanes: 0 })
    } else if code == 0x17 {
        Some(Access { first: Some(Type::I32), second: None, result: None, natural: 2, feature: Feature::Threads, atomic: true, lanes: 0 })
    } else if code == 0x18 {
        Some(Access { first: Some(Type::I64), second: None, result: None, natural: 3, feature: Feature::Threads, atomic: true, lanes: 0 })
    } else if code == 0x19 {
        Some(Access { first: Some(Type::I32), second: None, result: None, natural: 0, feature: Feature::Threads, atomic: true, lanes: 0 })
    } else if code == 0x1a {
        Some(Access { first: Some(Type::I32), second: None, result: None, natural: 1, feature: Feature::Threads, atomic: true, lanes: 0 })
    } else if code == 0x1b {
        Some(Access { first: Some(Type::I64), second: None, result: None, natural: 0, feature: Feature::Threads, atomic: true, lanes: 0 })
    } else if code == 0x1c {
        Some(Access { first: Some(Type::I64), second: None, result: None, natural: 1, feature: Feature::Threads, atomic: true, lanes: 0 })
    } else if code == 0x1d {
        Some(Access { first: Some(Type::I64), second: None, result: None, natural: 2, feature: Feature::Threads, atomic: true, lanes: 0 })
    } else if 0x1e <= code && code <= 0x47 && (code - 0x1e) % 7 == 0 {
        Some(Access { first: Some(Type::I32), second: None, result: Some(Type::I32), natural: 2, feature: Feature::Threads, atomic: true, lanes: 0 })
    } else if 0x1e <= code && code <= 0x47 && (code - 0x1e) % 7 == 1 {
        Some(Access { first: Some(Type::I64), second: None, result: Some(Type::I64), natural: 3, feature: Feature::Threads, atomic: true, lanes: 0 })
    } else if 0x1e <= code && code <= 0x47 && (code - 0x1e) % 7 == 2 {
        Some(Access { first: Some(Type::I32), second: None, result: Some(Type::I32), natural: 0, feature: Feature::Threads, atomic: true, lanes: 0 })
    } else if 0x1e <= code && code <= 0x47 && (code - 0x1e) % 7 == 3 {
        Some(Access { first: Some(Type::I32), second: None, result: Some(Type::I32), natural: 1, feature: Feature::Threads, atomic: true, lanes: 0 })
    } else if 0x1e <= code && code <= 0x47 && (code - 0x1e) % 7 == 4 {
        Some(Access { first: Some(Type::I64), second: None, result: Some(Type::I64), natural: 0, feature: Feature::Threads, atomic: true, lanes: 0 })
    } else if 0x1e <= code && code <= 0x47 && (code - 0x1e) % 7 == 5 {
        Some(Access { first: Some(Type::I64), second: None, result: Some(Type::I64), natural: 1, feature: Feature::Threads, atomic: true, lanes: 0 })
    } else if 0x1e <= code && code <= 0x47 && (code - 0x1e) % 7 == 6 {
        Some(Access { first: Some(Type::I64), second: None, result: Some(Type::I64), natural: 2, feature: Feature::Threads, atomic: true, lanes: 0 })
    } else if code == 0x48 {
        Some(Access { first: Some(Type::I32), second: Some(Type::I32), result: Some(Type::I32), natural: 2, feature: Feature::Threads, atomic: true, lanes: 0 })
    } else if code == 0x49 {
        Some(Access { first: Some(Type::I64), second: Some(Type::I64), result: Some(Type::I64), natural: 3, feature: Feature::Threads, atomic: true, lanes: 0 })
    } else if code == 0x4a {
        Some(Access { first: Some(Type::I32), second: Some(Type::I32), result: Some(Type::I32), natural: 0, feature: Feature::Threads, atomic: true, lanes: 0 })
    } else if code == 0x4b {
        Some(Access { first: Some(Type::I32), second: Some(Type::I32), result: Some(Type::I32), natural: 1, feature: Feature::Threads, atomic: true, lanes: 0 })
    } else if code == 0x4c {
        Some(Access { first: Some(Type::I64), second: Some(Type::I64), result: Some(Type::I64), natural: 0, feature: Feature::Threads, atomic: true, lanes: 0 })
    } else if code == 0x4d {
        Some(Access { first: Some(Type::I64), second: Some(Type::I64), result: Some(Type::I64), natural: 1, feature: Feature::Threads, atomic: true, lanes: 0 })
    } else if code == 0x4e {
        Some(Access { first: Some(Type::I64), second: Some(Type::I64), result: Some(Type::I64), natural: 2, feature: Feature::Threads, atomic: true, lanes: 0 })
    } else {
        None
    }
}

/// How the atomic operators on memory use it.
fn atomic_access_op(code: u32) -> (op: Option<Access>)
    ensures
        op == atomic_access(code),
{
    if code == 0x00 {
        Some(Access { first: Some(Type::I32), second: None, result: Some(Type::I32), natural: 2, feature: Feature::Threads, atomic: true, lanes: 0 })
    } else if code == 0x01 {
        Some(Access { first: Some(Type::I32), second: Some(Type::I64), result: Some(Type::I32), natural: 2, feature: Feature::Threads, atomic: true, lanes: 0 })
    } else if code == 0x02 {
        Some(Access { first: Some(Type::I64), second: Some(Type::I64), result: Some(Type::I32), natural: 3, feature: Feature::Threads, atomic: true, lanes: 0 })
    } else if code == 0x10 {
        Some(Access { first: None, second: None, result: Some(Type::I32), natural: 2, feature: Feature::Threads, atomic: true, lanes: 0 })
    } else if code == 0x11 {
        Some(Access { first: None, second: None, result: Some(Type::I64), natural: 3, feature: Feature::Threads, atomic: true, lanes: 0 })
    } else if code == 0x12 {
        Some(Access { first: None, second: None, result: Some(Type::I32), natural: 0, feature: Feature::Threads, atomic: true, lanes: 0 })
    } else if code == 0x13 {
        Some(Access { first: None, second: None, result: Some(Type::I32), natural: 1, feature: Feature::Threads, atomic: true, lanes: 0 })
    } else if code == 0x14 {
        Some(Access { first: None, second: None, result: Some(Type::I64), natural: 0, feature: Feature::Threads, atomic: true, lanes: 0 })
    } else if code == 0x15 {
        Some(Access { first: None, second: None, result: Some(Type::I64), natural: 1, feature: Feature::Threads, atomic: true, lanes: 0 })
    } else if code == 0x16 {
        Some(Access { first: None, second: None, result: Some(Type::I64), natural: 2, feature: Feature::Threads, atomic: true, lanes: 0 })
    } else if code == 0x17 {
        Some(Access { first: Some(Type::I32), second: None, result: None, natural: 2, feature: Feature::Threads, atomic: true, lanes: 0 })
    } else if code == 0x18 {
        Some(Access { first: Some(Type::I64), second: None, result: None, natural: 3, feature: Feature::Threads, atomic: true, lanes: 0 })
    } else if code == 0x19 {
        Some(Access { first: Some(Type::I32), second: None, result: None, natural: 0, feature: Feature::Threads, atomic: true, lanes: 0 })
    } else if code == 0x1a {
        Some(Access { first: Some(Type::I32), second: None, result: None, natural: 1, feature: Feature::Threads, atomic: true, lanes: 0 })
    } else if code == 0x1b {
        Some(Access { first: Some(Type::I64), second: None, result: None, natural: 0, feature: Feature::Threads, atomic: true, lanes: 0 })
    } else if code == 0x1c {
        Some(Access { first: Some(Type::I64), second: None, result: None, natural: 1, feature: Feature::Threads, atomic: true, lanes: 0 })
    } else if code == 0x1d {
        Some(Access { first: Some(Type::I64), second: None, result: None, natural: 2, feature: Feature::Threads, atomic: true, lanes: 0 })
    } else if 0x1e <= code && code <= 0x47 && (code - 0x1e) % 7 == 0 {
        Some(Access { first: Some(Type::I32), second: None, result: Some(Type::I32), natural: 2, feature: Feature::Threads, atomic: true, lanes: 0 })
    } else if 0x1e <= code && code <= 0x47 && (code - 0x1e) % 7 == 1 {
        Some(Access { first: Some(Type::I64), second: None, result: Some(Type::I64), natural: 3, feature: Feature::Threads, atomic: true, lanes: 0 })
    } else if 0x1e <= code && code <= 0x47 && (code - 0x1e) % 7 == 2 {
        Some(Access { first: Some(Type::I32), second: None, result: Some(Type::I32), natural: 0, feature: Feature::Threads, atomic: true, lanes: 0 })
    } else if 0x1e <= code && code <= 0x47 && (code - 0x1e) % 7 == 3 {
        Some(Access { first: Some(Type::I32), second: None, result: Some(Type::I32), natural: 1, feature: Feature::Threads, atomic: true, lanes: 0 })
    } else if 0x1e <= code && code <= 0x47 && (code - 0x1e) % 7 == 4 {
        Some(Access { first: Some(Type::I64), second: None, result: Some(Type::I64), natural: 0, feature: Feature::Threads, atomic: true, lanes: 0 })
    } else if 0x1e <= code && code <= 0x47 && (code - 0x1e) % 7 == 5 {
        Some(Access { first: Some(Type::I64), second: None, result: Some(Type::I64), natural: 1, feature: Feature::Threads, atomic: true, lanes: 0 })
    } else if 0x1e <= code && code <= 0x47 && (code - 0x1e) % 7 == 6 {
        Some(Access { first: Some(Type::I64), second: None, result: Some(Type::I64), natural: 2, feature: Feature::Threads, atomic: true, lanes: 0 })
    } else if code == 0x48 {
        Some(Access { first: Some(Type::I32), second: Some(Type::I32), result: Some(Type::I32), natural: 2, feature: Feature::Threads, atomic: true, lanes: 0 })
    } else if code == 0x49 {
        Some(Access { first: Some(Type::I64), second: Some(Type::I64), result: Some(Type::I64), natural: 3, feature: Feature::Threads, atomic: true, lanes: 0 })
    } else if code == 0x4a {
        Some(Access { first: Some(Type::I32), second: Some(Type::I32), result: Some(Type::I32), natural: 0, feature: Feature::Threads, atomic: true, lanes: 0 })
    } else if code == 0x4b {
        Some(Access { first: Some(Type::I32), second: Some(Type::I32), result: Some(Type::I32), natural: 1, feature: Feature::Threads, atomic: true, lanes: 0 })
    } else if code == 0x4c {
        Some(Access { first: Some(Type::I64), second: Some(Type::I64), result: Some(Type::I64), natural: 0, feature: Feature::Threads, atomic: true, lanes: 0 })
    } else if code == 0x4d {
        Some(Access { first: Some(Type::I64), second: Some(Type::I64), result: Some(Type::I64), natural: 1, feature: Feature::Threads, atomic: true, lanes: 0 })
    } else if code == 0x4e {
        Some(Access { first: Some(Type::I64), second: Some(Type::I64), result: Some(Type::I64), natural: 2, feature: Feature::Threads, atomic: true, lanes: 0 })
    } else {
        None
    }
}

/// The one byte operators that have nothing behind them.
pub open spec fn nullary(code: u8) -> Option<Op> {
    if code == 0x00 {
        Some(Op::Unreachable)
    } else if code == 0x01 {
        Some(Op::Nop)
    } else if code == 0x05 {
        Some(Op::Else)
    } else if code == 0x0b {
        Some(Op::End)
    } else if code == 0x0f {
        Some(Op::Return)
    } else if code == 0x19 {
        Some(Op::CatchAll)
    } else if code == 0x1a {
        Some(Op::Drop)
    } else if code == 0x1b {
        Some(Op::Select)
    } else if code == 0xd1 {
        Some(Op::RefIsNull)
    } else {
        match plain(code) {
            Some(simple) => Some(Op::Simple(simple)),
            None => None,
        }
    }
}

/// The one byte operators that have nothing behind them.
fn nullary_op(code: u8) -> (op: Option<Op>)
    ensures
        op == nullary(code),
{
    match code {
        0x00 => Some(Op::Unreachable),
        0x01 => Some(Op::Nop),
        0x05 => Some(Op::Else),
        0x0b => Some(Op::End),
        0x0f => Some(Op::Return),
        0x19 => Some(Op::CatchAll),
        0x1a => Some(Op::Drop),
        0x1b => Some(Op::Select),
        0xd1 => Some(Op::RefIsNull),
        _ => match plain_op(code) {
            Some(simple) => Some(Op::Simple(simple)),
            None => None,
        },
    }
}

/// The one byte operators with one index behind them.
pub open spec fn indexed(code: u8, n: u32) -> Option<Op> {
    if code == 0x07 {
        Some(Op::Catch(n))
    } else if code == 0x08 {
        Some(Op::Throw(n))
    } else if code == 0x09 {
        Some(Op::Rethrow(n))
    } else if code == 0x0c {
        Some(Op::Br(n))
    } else if code == 0x0d {
        Some(Op::BrIf(n))
    } else if code == 0x10 {
        Some(Op::Call(n))
    } else if code == 0x12 {
        Some(Op::ReturnCall(n))
    } else if code == 0x18 {
        Some(Op::Delegate(n))
    } else if code == 0x20 {
        Some(Op::LocalGet(n))
    } else if code == 0x21 {
        Some(Op::LocalSet(n))
    } else if code == 0x22 {
        Some(Op::LocalTee(n))
    } else if code == 0x23 {
        Some(Op::GlobalGet(n))
    } else if code == 0x24 {
        Some(Op::GlobalSet(n))
    } else if code == 0x25 {
        Some(Op::TableGet(n))
    } else if code == 0x26 {
        Some(Op::TableSet(n))
    } else if code == 0xd2 {
        Some(Op::RefFunc(n))
    } else {
        None
    }
}

/// The one byte operators with one index behind them.
fn indexed_op(code: u8, n: u32) -> (op: Option<Op>)
    ensures
        op == indexed(code, n),
        op is Some == indexed(code, 0) is Some,
{
    match code {
        0x07 => Some(Op::Catch(n)),
        0x08 => Some(Op::Throw(n)),
        0x09 => Some(Op::Rethrow(n)),
        0x0c => Some(Op::Br(n)),
        0x0d => Some(Op::BrIf(n)),
        0x10 => Some(Op::Call(n)),
        0x12 => Some(Op::ReturnCall(n)),
        0x18 => Some(Op::Delegate(n)),
        0x20 => Some(Op::LocalGet(n)),
        0x21 => Some(Op::LocalSet(n)),
        0x22 => Some(Op::LocalTee(n)),
        0x23 => Some(Op::GlobalGet(n)),
        0x24 => Some(Op::GlobalSet(n)),
        0x25 => Some(Op::TableGet(n)),
        0x26 => Some(Op::TableSet(n)),
        0xd2 => Some(Op::RefFunc(n)),
        _ => None,
    }
}

/// The operators that open a block.
pub open spec fn opening(code: u8, ty: BlockType) -> Option<Op> {
    if code == 0x02 {
        Some(Op::Block(ty))
    } else if code == 0x03 {
        Some(Op::Loop(ty))
    } else if code == 0x04 {
        Some(Op::If(ty))
    } else if code == 0x06 {
        Some(Op::Try(ty))
    } else {
        None
    }
}

/// The operators that open a block.
fn opening_op(code: u8, ty: BlockType) -> (op: Option<Op>)
    ensures
        op == opening(code, ty),
        op is Some == opening(code, BlockType::Empty) is Some,
{
    match code {
        0x02 => Some(Op::Block(ty)),
        0x03 => Some(Op::Loop(ty)),
        0x04 => Some(Op::If(ty)),
        0x06 => Some(Op::Try(ty)),
        _ => None,
    }
}

impl View for BlockType {
    type V = BlockType;

    open spec fn view(&self) -> BlockType {
        *self
    }
}

impl<'a> FromReader<'a> for BlockType {
    open spec fn parse(c: Cursor) -> (Cursor, Result<BlockType>) {
        match c.byte() {
            (d, Err(e)) => (d, Err(e)),
            (d, Ok(b)) => if b == 0x40 {
                (d, Ok(BlockType::Empty))
            } else {
                match Type::of_byte(b) {
                    Some(ty) => (d, Ok(BlockType::Type(ty))),
                    None => match c.var_s33() {
                        (d, Err(e)) => (d, Err(e)),
                        (d, Ok(n)) => if 0 <= n <= u32::MAX {
                            (d, Ok(BlockType::FuncType(n as u32)))
                        } else {
                            (d, Err(error_at("invalid function type", c.offset())))
                        },
                    },
                }
            },
        }
    }

    fn from_reader(reader: &mut BinaryReader<'a>) -> (result: Result<BlockType>) {
        let offset = reader.original_position();
        let byte = reader.peek()?;
        if byte == 0x40 {
            reader.read_u8()?;
            return Ok(BlockType::Empty);
        }
        if let Some(ty) = Type::from_byte(byte) {
            reader.read_u8()?;
            return Ok(BlockType::Type(ty));
        }
        let n = reader.read_var_s33()?;
        if 0 <= n && n <= u32::MAX as i64 {
            Ok(BlockType::FuncType(n as u32))
        } else {
            Err(BinaryReaderError::new("invalid function type", offset))
        }
    }
}

/// Where memory is accessed. The offset has 64 bits if `memory64` is set.
pub open spec fn parse_memarg(c: Cursor, memory64: bool) -> (Cursor, Result<MemArg>) {
    match c.var_u32() {
        (d, Err(e)) => (d, Err(e)),
        (d, Ok(flags)) => if flags >= 0x80 {
            (d, Err(error_at("malformed memop alignment: alignment too large", c.offset())))
        } else {
            match (if flags >= 0x40 {
                d.var_u32()
            } else {
                (d, Ok(0))
            }) {
                (d, Err(e)) => (d, Err(e)),
                (d, Ok(memory)) => match (if memory64 {
                    d.var_u64()
                } else {
                    match d.var_u32() {
                        (d, Err(e)) => (d, Err(e)),
                        (d, Ok(n)) => (d, Ok(n as u64)),
                    }
                }) {
                    (d, Err(e)) => (d, Err(e)),
                    (d, Ok(offset)) => (
                        d,
                        Ok(MemArg { align: (flags % 0x40) as u8, offset, memory }),
                    ),
                },
            }
        },
    }
}

fn read_memarg<'a>(reader: &mut BinaryReader<'a>, memory64: bool) -> (result: Result<MemArg>)
    requires
        old(reader).wf(),
    ensures
        final(reader).wf(),
        final(reader)@.follows(old(reader)@),
        (final(reader)@, result) == parse_memarg(old(reader)@, memory64),
{
    let at = reader.original_position();
    let flags = reader.read_var_u32()?;
    if flags >= 0x80 {
        return Err(BinaryReaderError::new("malformed memop alignment: alignment too large", at));
    }
    let memory = if flags >= 0x40 {
        reader.read_var_u32()?
    } else {
        0
    };
    let offset = if memory64 {
        reader.read_var_u64()?
    } else {
        reader.read_var_u32()? as u64
    };
    Ok(MemArg { align: (flags % 0x40) as u8, offset, memory })
}

/// A lane, which is one of `lanes`.
pub open spec fn parse_lane(c: Cursor, lanes: u8) -> (Cursor, Result<()>) {
    match c.byte() {
        (d, Err(e)) => (d, Err(e)),
        (d, Ok(b)) => if b < lanes {
            (d, Ok(()))
        } else {
            (d, Err(error_at("SIMD index out of bounds", c.offset())))
        },
    }
}

fn read_lane<'a>(reader: &mut BinaryReader<'a>, lanes: u8) -> (result: Result<()>)
    requires
        old(reader).wf(),
    ensures
        final(reader).wf(),
        final(reader)@.follows(old(reader)@),
        (final(reader)@, result) == parse_lane(old(reader)@, lanes),
{
    let offset = reader.original_position();
    let byte = reader.read_u8()?;
    if byte < lanes {
        Ok(())
    } else {
        Err(BinaryReaderError::new("SIMD index out of bounds", offset))
    }
}

/// `n` lanes, each of which is one of `lanes`.
pub open spec fn parse_lanes(c: Cursor, n: nat, lanes: u8) -> (Cursor, Result<()>)
    decreases n,
{
    if n == 0 {
        (c, Ok(()))
    } else {
        match parse_lane(c, lanes) {
            (c, Err(e)) => (c, Err(e)),
            (c, Ok(_)) => parse_lanes(c, (n - 1) as nat, lanes),
        }
    }
}

fn read_lanes<'a>(reader: &mut BinaryReader<'a>, n: u8, lanes: u8) -> (result: Result<()>)
    requires
        old(reader).wf(),
    ensures
        final(reader).wf(),
        final(reader)@.follows(old(reader)@),
        (final(reader)@, result) == parse_lanes(old(reader)@, n as nat, lanes),
    decreases n,
{
    if n == 0 {
        return Ok(());
    }
    read_lane(reader, lanes)?;
    read_lanes(reader, n - 1, lanes)
}

/// The access to memory that `access` describes, with what stands behind its code.
pub open spec fn parse_access(c: Cursor, access: Access, memory64: bool) -> (Cursor, Result<Op>) {
    match parse_memarg(c, memory64) {
        (c, Err(e)) => (c, Err(e)),
        (c, Ok(memarg)) => if access.lanes == 0 {
            (c, Ok(Op::Memory(access, memarg)))
        } else {
            match parse_lane(c, access.lanes) {
                (c, Err(e)) => (c, Err(e)),
                (c, Ok(_)) => (c, Ok(Op::Memory(access, memarg))),
            }
        },
    }
}

fn read_access<'a>(reader: &mut BinaryReader<'a>, access: Access, memory64: bool) -> (result:
    Result<Op>)
    requires
        old(reader).wf(),
    ensures
        final(reader).wf(),
        final(reader)@.follows(old(reader)@),
        (final(reader)@, result) == parse_access(old(reader)@, access, memory64),
{
    let memarg = read_memarg(reader, memory64)?;
    if access.lanes != 0 {
        read_lane(reader, access.lanes)?;
    }
    Ok(Op::Memory(access, memarg))
}

/// Two indices, one behind the other.
pub open spec fn parse_pair(c: Cursor) -> (Cursor, Result<(u32, u32)>) {
    match c.var_u32() {
        (c, Err(e)) => (c, Err(e)),
        (c, Ok(first)) => match c.var_u32() {
            (c, Err(e)) => (c, Err(e)),
            (c, Ok(second)) => (c, Ok((first, second))),
        },
    }
}

fn read_pair<'a>(reader: &mut BinaryReader<'a>) -> (result: Result<(u32, u32)>)
    requires
        old(reader).wf(),
    ensures
        final(reader).wf(),
        final(reader)@.follows(old(reader)@),
        (final(reader)@, result) == parse_pair(old(reader)@),
{
    let first = reader.read_var_u32()?;
    let second = reader.read_var_u32()?;
    Ok((first, second))
}

/// An operator behind the byte `0xfc`, which stands at `at`.
pub open spec fn parse_fc(c: Cursor, at: int) -> (Cursor, Result<Op>) {
    match c.var_u32() {
        (c, Err(e)) => (c, Err(e)),
        (c, Ok(code)) => if code < 8 {
            (c, Ok(Op::Simple(saturating(code))))
        } else if code == 8 || code == 10 || code == 12 || code == 14 {
            match parse_pair(c) {
                (c, Err(e)) => (c, Err(e)),
                (c, Ok((first, second))) => if code == 8 {
                    (c, Ok(Op::MemoryInit { segment: first, memory: second }))
                } else if code == 10 {
                    (c, Ok(Op::MemoryCopy { target: first, source: second }))
                } else if code == 12 {
                    (c, Ok(Op::TableInit { segment: first, table: second }))
                } else {
                    (c, Ok(Op::TableCopy { target: first, source: second }))
                },
            }
        } else if code <= 17 {
            match c.var_u32() {
                (c, Err(e)) => (c, Err(e)),
                (c, Ok(n)) => if code == 9 {
                    (c, Ok(Op::DataDrop(n)))
                } else if code == 11 {
                    (c, Ok(Op::MemoryFill(n)))
                } else if code == 13 {
                    (c, Ok(Op::ElemDrop(n)))
                } else if code == 15 {
                    (c, Ok(Op::TableGrow(n)))
                } else if code == 16 {
                    (c, Ok(Op::TableSize(n)))
                } else {
                    (c, Ok(Op::TableFill(n)))
                },
            }
        } else {
            (c, Err(error_at("unknown 0xfc subopcode", at)))
        },
    }
}

/// A conversion from a float that does not trap.
pub open spec fn saturating(code: u32) -> Simple {
    Simple {
        params: Params::One(
            if (code / 2) % 2 == 0 {
                Type::F32
            } else {
                Type::F64
            },
        ),
        result: if code < 4 {
            Type::I32
        } else {
            Type::I64
        },
        feature: Feature::SaturatingFloatToInt,
        extended_const: false,
        floats: true,
    }
}

fn read_fc<'a>(reader: &mut BinaryReader<'a>, at: usize) -> (result: Result<Op>)
    requires
        old(reader).wf(),
    ensures
        final(reader).wf(),
        final(reader)@.follows(old(reader)@),
        (final(reader)@, result) == parse_fc(old(reader)@, at as int),
{
    let code = reader.read_var_u32()?;
    if code < 8 {
        let from = if (code / 2) % 2 == 0 {
            Type::F32
        } else {
            Type::F64
        };
        let result = if code < 4 {
            Type::I32
        } else {
            Type::I64
        };
        Ok(
            Op::Simple(
                Simple {
                    params: Params::One(from),
                    result,
                    feature: Feature::SaturatingFloatToInt,
                    extended_const: false,
                    floats: true,
                },
            ),
        )
    } else if code == 8 || code == 10 || code == 12 || code == 14 {
        let (first, second) = read_pair(reader)?;
        if code == 8 {
            Ok(Op::MemoryInit { segment: first, memory: second })
        } else if code == 10 {
            Ok(Op::MemoryCopy { target: first, source: second })
        } else if code == 12 {
            Ok(Op::TableInit { segment: first, table: second })
        } else {
            Ok(Op::TableCopy { target: first, source: second })
        }
    } else if code <= 17 {
        let n = reader.read_var_u32()?;
        if code == 9 {
            Ok(Op::DataDrop(n))
        } else if code == 11 {
            Ok(Op::MemoryFill(n))
        } else if code == 13 {
            Ok(Op::ElemDrop(n))
        } else if code == 15 {
            Ok(Op::TableGrow(n))
        } else if code == 16 {
            Ok(Op::TableSize(n))
        } else {
            Ok(Op::TableFill(n))
        }
    } else {
        Err(BinaryReaderError::new("unknown 0xfc subopcode", at))
    }
}

/// A vector operator: one behind the byte `0xfd`, which stands at `at`.
pub open spec fn parse_fd(c: Cursor, at: int, memory64: bool) -> (Cursor, Result<Op>) {
    match c.var_u32() {
        (c, Err(e)) => (c, Err(e)),
        (c, Ok(code)) => if code == 0x0c {
            match c.take(16) {
                (c, Err(e)) => (c, Err(e)),
                (c, Ok(_)) => (c, Ok(Op::V128Const)),
            }
        } else if code == 0x0d {
            match parse_lanes(c, 16, 32) {
                (c, Err(e)) => (c, Err(e)),
                (c, Ok(_)) => (c, Ok(Op::Simple(shuffle()))),
            }
        } else if let Some(simple) = vector(code) {
            (c, Ok(Op::Simple(simple)))
        } else if let Some((simple, lanes)) = lane(code) {
            match parse_lane(c, lanes) {
                (c, Err(e)) => (c, Err(e)),
                (c, Ok(_)) => (c, Ok(Op::Simple(simple))),
            }
        } else if let Some(access) = vector_access(code) {
            parse_access(c, access, memory64)
        } else {
            (c, Err(error_at("unknown 0xfd subopcode", at)))
        },
    }
}

/// The operator that picks lanes out of two vectors.
pub open spec fn shuffle() -> Simple {
    Simple {
        params: Params::Two(Type::V128, Type::V128),
        result: Type::V128,
        feature: Feature::Simd,
        extended_const: false,
        floats: false,
    }
}

fn read_fd<'a>(reader: &mut BinaryReader<'a>, at: usize, memory64: bool) -> (result: Result<Op>)
    requires
        old(reader).wf(),
    ensures
        final(reader).wf(),
        final(reader)@.follows(old(reader)@),
        (final(reader)@, result) == parse_fd(old(reader)@, at as int, memory64),
{
    let code = reader.read_var_u32()?;
    if code == 0x0c {
        reader.read_bytes(16)?;
        return Ok(Op::V128Const);
    }
    if code == 0x0d {
        read_lanes(reader, 16, 32)?;
        return Ok(
            Op::Simple(
                Simple {
                    params: Params::Two(Type::V128, Type::V128),
                    result: Type::V128,
                    feature: Feature::Simd,
                    extended_const: false,
                    floats: false,
                },
            ),
        );
    }
    if let Some(simple) = vector_op(code) {
        return Ok(Op::Simple(simple));
    }
    if let Some((simple, lanes)) = lane_op(code) {
        read_lane(reader, lanes)?;
        return Ok(Op::Simple(simple));
    }
    if let Some(access) = vector_access_op(code) {
        return read_access(reader, access, memory64);
    }
    Err(BinaryReaderError::new("unknown 0xfd subopcode", at))
}

/// An atomic operator: one behind the byte `0xfe`, which stands at `at`.
pub open spec fn parse_fe(c: Cursor, at: int, memory64: bool) -> (Cursor, Result<Op>) {
    match c.var_u32() {
        (c, Err(e)) => (c, Err(e)),
        (c, Ok(code)) => if code == 3 {
            match c.byte() {
                (d, Err(e)) => (d, Err(e)),
                (d, Ok(b)) => if b == 0 {
                    (d, Ok(Op::AtomicFence))
                } else {
                    (d, Err(error_at("non-zero flags for atomic.fence not supported yet", c.offset())))
                },
            }
        } else if let Some(access) = atomic_access(code) {
            parse_access(c, access, memory64)
        } else {
            (c, Err(error_at("unknown 0xfe subopcode", at)))
        },
    }
}

fn read_fe<'a>(reader: &mut BinaryReader<'a>, at: usize, memory64: bool) -> (result: Result<Op>)
    requires
        old(reader).wf(),
    ensures
        final(reader).wf(),
        final(reader)@.follows(old(reader)@),
        (final(reader)@, result) == parse_fe(old(reader)@, at as int, memory64),
{
    let code = reader.read_var_u32()?;
    if code == 3 {
        let offset = reader.original_position();
        let byte = reader.read_u8()?;
        return if byte == 0 {
            Ok(Op::AtomicFence)
        } else {
            Err(BinaryReaderError::new("non-zero flags for atomic.fence not supported yet", offset))
        };
    }
    if let Some(access) = atomic_access_op(code) {
        return read_access(reader, access, memory64);
    }
    Err(BinaryReaderError::new("unknown 0xfe subopcode", at))
}

/// What stands behind the code of a one byte operator that is none of the
/// simple, indexed, opening or memory ones. The code stands at `at`.
pub open spec fn parse_other(c: Cursor, code: u8, at: int, memory64: bool) -> (Cursor, Result<Op>) {
    if code == 0x11 || code == 0x13 {
        match c.var_u32() {
            (c, Err(e)) => (c, Err(e)),
            (c, Ok(ty)) => match c.byte() {
                (d, Err(e)) => (c, Err(e)),
                (d, Ok(table_byte)) => match c.var_u32() {
                    (c, Err(e)) => (c, Err(e)),
                    (c, Ok(table)) => if code == 0x11 {
                        (c, Ok(Op::CallIndirect { ty, table, table_byte }))
                    } else {
                        (c, Ok(Op::ReturnCallIndirect { ty, table }))
                    },
                },
            },
        }
    } else if code == 0x1c {
        match c.var_u32() {
            (d, Err(e)) => (d, Err(e)),
            (d, Ok(n)) => if n != 1 {
                (d, Err(error_at("invalid result arity", c.offset())))
            } else {
                match <Type as FromReader>::parse(d) {
                    (d, Err(e)) => (d, Err(e)),
                    (d, Ok(ty)) => (d, Ok(Op::TypedSelect(ty))),
                }
            },
        }
    } else if code == 0x3f || code == 0x40 {
        match c.byte() {
            (d, Err(e)) => (c, Err(e)),
            (d, Ok(memory_byte)) => match c.var_u32() {
                (c, Err(e)) => (c, Err(e)),
                (c, Ok(memory)) => if code == 0x3f {
                    (c, Ok(Op::MemorySize { memory, memory_byte }))
                } else {
                    (c, Ok(Op::MemoryGrow { memory, memory_byte }))
                },
            },
        }
    } else if code == 0x41 {
        match c.var_i32() {
            (c, Err(e)) => (c, Err(e)),
            (c, Ok(n)) => (c, Ok(Op::I32Const(n))),
        }
    } else if code == 0x42 {
        match c.var_i64() {
            (c, Err(e)) => (c, Err(e)),
            (c, Ok(n)) => (c, Ok(Op::I64Const(n))),
        }
    } else if code == 0x43 {
        match c.take(4) {
            (c, Err(e)) => (c, Err(e)),
            (c, Ok(_)) => (c, Ok(Op::F32Const)),
        }
    } else if code == 0x44 {
        match c.take(8) {
            (c, Err(e)) => (c, Err(e)),
            (c, Ok(_)) => (c, Ok(Op::F64Const)),
        }
    } else if code == 0xd0 {
        match <Type as FromReader>::parse(c) {
            (c, Err(e)) => (c, Err(e)),
            (c, Ok(ty)) => (c, Ok(Op::RefNull(ty))),
        }
    } else if code == 0xfc {
        parse_fc(c, at)
    } else if code == 0xfd {
        parse_fd(c, at, memory64)
    } else if code == 0xfe {
        parse_fe(c, at, memory64)
    } else {
        (c, Err(error_at("illegal opcode", at)))
    }
}

fn read_other<'a>(reader: &mut BinaryReader<'a>, code: u8, at: usize, memory64: bool) -> (result:
    Result<Op>)
    requires
        old(reader).wf(),
    ensures
        final(reader).wf(),
        final(reader)@.follows(old(reader)@),
        (final(reader)@, result) == parse_other(old(reader)@, code, at as int, memory64),
{
    match code {
        0x11 | 0x13 => {
            let ty = reader.read_var_u32()?;
            let table_byte = reader.peek()?;
            let table = reader.read_var_u32()?;
            if code == 0x11 {
                Ok(Op::CallIndirect { ty, table, table_byte })
            } else {
                Ok(Op::ReturnCallIndirect { ty, table })
            }
        },
        0x1c => {
            let offset = reader.original_position();
            let n = reader.read_var_u32()?;
            if n != 1 {
                return Err(BinaryReaderError::new("invalid result arity", offset));
            }
            let ty = Type::from_reader(reader)?;
            Ok(Op::TypedSelect(ty))
        },
        0x3f | 0x40 => {
            let memory_byte = reader.peek()?;
            let memory = reader.read_var_u32()?;
            if code == 0x3f {
                Ok(Op::MemorySize { memory, memory_byte })
            } else {
                Ok(Op::MemoryGrow { memory, memory_byte })
            }
        },
        0x41 => {
            let n = reader.read_var_i32()?;
            Ok(Op::I32Const(n))
        },
        0x42 => {
            let n = reader.read_var_i64()?;
            Ok(Op::I64Const(n))
        },
        0x43 => {
            reader.read_bytes(4)?;
            Ok(Op::F32Const)
        },
        0x44 => {
            reader.read_bytes(8)?;
            Ok(Op::F64Const)
        },
        0xd0 => {
            let ty = Type::from_reader(reader)?;
            Ok(Op::RefNull(ty))
        },
        0xfc => read_fc(reader, at),
        0xfd => read_fd(reader, at, memory64),
        0xfe => read_fe(reader, at, memory64),
        _ => Err(BinaryReaderError::new("illegal opcode", at)),
    }
}

/// What stands behind the code of an operator of a fixed size; the code stands at `at`.
#[verifier::opaque]
pub open spec fn parse_op(c: Cursor, code: u8, at: int, memory64: bool) -> (Cursor, Result<Op>) {
    if let Some(op) = nullary(code) {
        (c, Ok(op))
    } else if indexed(code, 0) is Some {
        match c.var_u32() {
            (c, Err(e)) => (c, Err(e)),
            (c, Ok(n)) => (c, Ok(indexed(code, n)->0)),
        }
    } else if opening(code, BlockType::Empty) is Some {
        match <BlockType as FromReader>::parse(c) {
            (c, Err(e)) => (c, Err(e)),
            (c, Ok(ty)) => (c, Ok(opening(code, ty)->0)),
        }
    } else if let Some(access) = access(code) {
        parse_access(c, access, memory64)
    } else {
        parse_other(c, code, at, memory64)
    }
}

fn read_op<'a>(reader: &mut BinaryReader<'a>, code: u8, at: usize, memory64: bool) -> (result:
    Result<Op>)
    requires
        old(reader).wf(),
    ensures
        final(reader).wf(),
        final(reader)@.follows(old(reader)@),
        (final(reader)@, result) == parse_op(old(reader)@, code, at as int, memory64),
{
    proof {
        reveal(parse_op);
    }
    if let Some(op) = nullary_op(code) {
        return Ok(op);
    }
    if indexed_op(code, 0).is_some() {
        let n = reader.read_var_u32()?;
        return Ok(indexed_op(code, n).unwrap());
    }
    if opening_op(code, BlockType::Empty).is_some() {
        let ty = BlockType::from_reader(reader)?;
        return Ok(opening_op(code, ty).unwrap());
    }
    if let Some(access) = access_op(code) {
        return read_access(reader, access, memory64);
    }
    read_other(reader, code, at, memory64)
}

/// The targets of a branch table and the target behind them.
pub open spec fn parse_br_table(c: Cursor) -> (Cursor, Result<OperatorView>) {
    match c.size(MAX_WASM_BR_TABLE_SIZE as int, "br_table") {
        (c, Err(e)) => (c, Err(e)),
        (c, Ok(n)) => match parse_list::<u32>(c, n as nat, Seq::empty()) {
            (c, Err(e)) => (c, Err(e)),
            (c, Ok(targets)) => match c.var_u32() {
                (c, Err(e)) => (c, Err(e)),
                (c, Ok(default)) => (c, Ok(OperatorView::BrTable { targets, default })),
            },
        },
    }
}

/// An operator. Offsets into memory have 64 bits if `memory64` is set.
pub open spec fn parse_operator(c: Cursor, memory64: bool) -> (Cursor, Result<OperatorView>) {
    match c.byte() {
        (d, Err(e)) => (d, Err(e)),
        (d, Ok(code)) => if code == 0x0e {
            parse_br_table(d)
        } else {
            match parse_op(d, code, c.offset(), memory64) {
                (d, Err(e)) => (d, Err(e)),
                (d, Ok(op)) => (d, Ok(OperatorView::Op(op))),
            }
        },
    }
}

/// Reads an operator.
pub fn read_operator<'a>(reader: &mut BinaryReader<'a>, memory64: bool) -> (result: Result<
    Operator,
>)
    requires
        old(reader).wf(),
    ensures
        final(reader).wf(),
        final(reader)@.follows(old(reader)@),
        result is Ok ==> final(reader)@.pos > old(reader)@.pos,
        (final(reader)@, viewed(result)) == parse_operator(old(reader)@, memory64),
{
    let at = reader.original_position();
    let code = reader.read_u8()?;
    if code == 0x0e {
        let n = reader.read_size(MAX_WASM_BR_TABLE_SIZE, "br_table")?;
        let targets = read_list::<u32>(reader, n)?;
        assert(views(targets@) =~= targets@);
        let default = reader.read_var_u32()?;
        Ok(Operator::BrTable { targets, default })
    } else {
        let op = read_op(reader, code, at, memory64)?;
        Ok(Operator::Op(op))
    }
}

/// The place behind the first `end`.
pub open spec fn skip_expr(c: Cursor) -> (Cursor, Result<()>)
    decreases c.left(),
    when c.wf()
{
    match parse_operator(c, false) {
        (d, Err(e)) => (d, Err(e)),
        (d, Ok(op)) => if op == OperatorView::Op(Op::End) {
            (d, Ok(()))
        } else if d.follows(c) && d.pos > c.pos {
            skip_expr(d)
        } else {
            (d, Err(d.end_of_file()))
        },
    }
}

/// A constant expression: operators up to the first `end`, with that.
#[derive(Debug, Clone, Copy)]
pub struct ConstExpr<'a> {
    reader: BinaryReader<'a>,
}

impl<'a> View for ConstExpr<'a> {
    type V = Cursor;

    closed spec fn view(&self) -> Cursor {
        self.reader@
    }
}

impl<'a> ConstExpr<'a> {
    /// The reader of the expression's operators.
    pub fn get_binary_reader(&self) -> (reader: BinaryReader<'a>)
        ensures
            reader@ == self@,
    {
        self.reader
    }
}

impl<'a> FromReader<'a> for ConstExpr<'a> {
    open spec fn parse(c: Cursor) -> (Cursor, Result<Cursor>) {
        match skip_expr(c) {
            (d, Err(e)) => (d, Err(e)),
            (d, Ok(_)) => (
                d,
                Ok(Cursor::start(c.bytes.subrange(c.pos, d.pos), c.offset())),
            ),
        }
    }

    open spec fn valid(value: Cursor) -> bool {
        value.wf()
    }

    fn from_reader(reader: &mut BinaryReader<'a>) -> (result: Result<ConstExpr<'a>>) {
        let mut start = *reader;
        let offset = reader.original_position();
        let ghost before = reader@;
        let mut done = false;
        while !done
            invariant
                reader.wf(),
                before.wf(),
                before == old(reader)@,
                reader@.follows(before),
                done ==> skip_expr(before) == (reader@, Ok::<(), BinaryReaderError>(())),
                !done ==> skip_expr(before) == skip_expr(reader@),
            decreases reader@.left(),
        {
            let op = read_operator(reader, false)?;
            if let Operator::Op(Op::End) = op {
                done = true;
            }
        }
        let len = reader.current_position() - start.current_position();
        let bytes = start.read_bytes(len)?;
        Ok(ConstExpr { reader: BinaryReader::new_with_offset(bytes, offset) })
    }
}

} // verus!
