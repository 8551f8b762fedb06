//! Which bytes stand for which operators, and what these compute with.

use super::binary_reader::Cursor;
use super::laws::code;
use super::operators::{
    access, atomic_access, lane, parse_fc, parse_fd, parse_fe, parse_memarg, parse_op,
    parse_operator, parse_other, plain, saturating, skip_expr, vector, vector_access, BlockType,
    ConstExpr, Feature, Op, OperatorView, Params, Simple,
};
use super::types::{parse_list, FromReader, Type};
use crate::error::BinaryReaderError;
use vstd::prelude::*;

verus! {

/// What an operator takes, as a list.
pub open spec fn list_of(params: Params) -> Seq<Type> {
    match params {
        Params::One(a) => seq![a],
        Params::Two(a, b) => seq![a, b],
        Params::Three(a, b, c) => seq![a, b, c],
    }
}

/// An operator takes one value of a type and gives one.
pub open spec fn from_one(op: Option<Simple>, takes: Type, gives: Type) -> bool {
    op matches Some(s) && s.params == Params::One(takes) && s.result == gives
}

/// An operator takes two values of a type and gives one.
pub open spec fn from_two(op: Option<Simple>, takes: Type, gives: Type) -> bool {
    op matches Some(s) && s.params == Params::Two(takes, takes) && s.result == gives
}

/// The operators that compare numbers of one type give a truth value, which is a word: one tests for
/// zero, the others compare two numbers.
pub proof fn law_comparisons(byte: u8)
    ensures
        byte == 0x45 ==> from_one(plain(byte), Type::I32, Type::I32),
        0x46 <= byte <= 0x4f ==> from_two(plain(byte), Type::I32, Type::I32),
        byte == 0x50 ==> from_one(plain(byte), Type::I64, Type::I32),
        0x51 <= byte <= 0x5a ==> from_two(plain(byte), Type::I64, Type::I32),
        0x5b <= byte <= 0x60 ==> from_two(plain(byte), Type::F32, Type::I32),
        0x61 <= byte <= 0x66 ==> from_two(plain(byte), Type::F64, Type::I32),
{
}

/// The operators that calculate with numbers of one type give a number of that type.
pub proof fn law_arithmetic(byte: u8)
    ensures
        0x67 <= byte <= 0x69 ==> from_one(plain(byte), Type::I32, Type::I32),
        0x6a <= byte <= 0x78 ==> from_two(plain(byte), Type::I32, Type::I32),
        0x79 <= byte <= 0x7b ==> from_one(plain(byte), Type::I64, Type::I64),
        0x7c <= byte <= 0x8a ==> from_two(plain(byte), Type::I64, Type::I64),
        0x8b <= byte <= 0x91 ==> from_one(plain(byte), Type::F32, Type::F32),
        0x92 <= byte <= 0x98 ==> from_two(plain(byte), Type::F32, Type::F32),
        0x99 <= byte <= 0x9f ==> from_one(plain(byte), Type::F64, Type::F64),
        0xa0 <= byte <= 0xa6 ==> from_two(plain(byte), Type::F64, Type::F64),
        0xc0 <= byte <= 0xc1 ==> from_one(plain(byte), Type::I32, Type::I32),
        0xc2 <= byte <= 0xc4 ==> from_one(plain(byte), Type::I64, Type::I64),
{
}

/// The types that the operators from 0xa7 on convert from and to, in order.
pub open spec fn conversions() -> Seq<(Type, Type)> {
    seq![
        (Type::I64, Type::I32),
        (Type::F32, Type::I32),
        (Type::F32, Type::I32),
        (Type::F64, Type::I32),
        (Type::F64, Type::I32),
        (Type::I32, Type::I64),
        (Type::I32, Type::I64),
        (Type::F32, Type::I64),
        (Type::F32, Type::I64),
        (Type::F64, Type::I64),
        (Type::F64, Type::I64),
        (Type::I32, Type::F32),
        (Type::I32, Type::F32),
        (Type::I64, Type::F32),
        (Type::I64, Type::F32),
        (Type::F64, Type::F32),
        (Type::I32, Type::F64),
        (Type::I32, Type::F64),
        (Type::I64, Type::F64),
        (Type::I64, Type::F64),
        (Type::F32, Type::F64),
        (Type::F32, Type::I32),
        (Type::F64, Type::I64),
        (Type::I32, Type::F32),
        (Type::I64, Type::F64),
    ]
}

/// The operators that convert take one value and give it in another type.
pub proof fn law_conversions(byte: u8)
    requires
        0xa7 <= byte <= 0xbf,
    ensures
        ({
            let (from, to) = conversions()[byte - 0xa7];
            from_one(plain(byte), from, to)
        }),
{
}

/// The type is one of floats.
pub open spec fn is_float(ty: Type) -> bool {
    ty == Type::F32 || ty == Type::F64
}

/// There are such operators from 0x45 to 0xc4. An operator counts as one of floats if it takes or gives
/// one. Sign extension is a proposal of its own, and only addition, subtraction and multiplication of
/// whole numbers are allowed in extended constant expressions.
pub proof fn law_plain(byte: u8)
    ensures
        plain(byte) is Some <==> 0x45 <= byte <= 0xc4,
        plain(byte) matches Some(s) ==> {
            &&& s.floats <==> is_float(s.result) || is_float(list_of(s.params)[0])
            &&& s.feature == (if byte >= 0xc0 {
                Feature::SignExtension
            } else {
                Feature::Mvp
            })
            &&& s.extended_const <==> 0x6a <= byte <= 0x6c || 0x7c <= byte <= 0x7e
        },
{
}

/// The conversions of floats that do not trap: four to a word and four to two words, of these two from
/// single and two from double precision.
pub proof fn law_saturating(n: u32)
    requires
        n < 8,
    ensures
        ({
            let from = if n == 0 || n == 1 || n == 4 || n == 5 {
                Type::F32
            } else {
                Type::F64
            };
            let s = saturating(n);
            &&& s.params == Params::One(from)
            &&& s.result == if n < 4 {
                Type::I32
            } else {
                Type::I64
            }
            &&& s.feature == Feature::SaturatingFloatToInt && s.floats && !s.extended_const
        }),
{
}

/// What the loads from 0x28 on give, and how wide they are, as powers of two.
pub open spec fn loads() -> Seq<(Type, u8)> {
    seq![
        (Type::I32, 2u8),
        (Type::I64, 3u8),
        (Type::F32, 2u8),
        (Type::F64, 3u8),
        (Type::I32, 0u8),
        (Type::I32, 0u8),
        (Type::I32, 1u8),
        (Type::I32, 1u8),
        (Type::I64, 0u8),
        (Type::I64, 0u8),
        (Type::I64, 1u8),
        (Type::I64, 1u8),
        (Type::I64, 2u8),
        (Type::I64, 2u8),
    ]
}

/// What the stores from 0x36 on take, and how wide they are, as powers of two.
pub open spec fn stores() -> Seq<(Type, u8)> {
    seq![
        (Type::I32, 2u8),
        (Type::I64, 3u8),
        (Type::F32, 2u8),
        (Type::F64, 3u8),
        (Type::I32, 0u8),
        (Type::I32, 1u8),
        (Type::I64, 0u8),
        (Type::I64, 1u8),
        (Type::I64, 2u8),
    ]
}

/// A load gives a value, and a store takes one. Nothing else is said of them.
pub proof fn law_loads_and_stores(byte: u8)
    ensures
        access(byte) is Some <==> 0x28 <= byte <= 0x3e,
        access(byte) matches Some(a) ==> {
            &&& a.second is None && !a.atomic && a.lanes == 0 && a.feature == Feature::Mvp
            &&& byte <= 0x35 ==> a.first is None && a.result == Some(loads()[byte - 0x28].0)
                && a.natural == loads()[byte - 0x28].1
            &&& byte > 0x35 ==> a.result is None && a.first == Some(stores()[byte - 0x36].0)
                && a.natural == stores()[byte - 0x36].1
        },
{
}

/// The types and widths of each seven atomic operators of one kind.
pub open spec fn atomics() -> Seq<(Type, u8)> {
    seq![
        (Type::I32, 2u8),
        (Type::I64, 3u8),
        (Type::I32, 0u8),
        (Type::I32, 1u8),
        (Type::I64, 0u8),
        (Type::I64, 1u8),
        (Type::I64, 2u8),
    ]
}

/// Atomic operators come in sevens from 0x10 on: loads, which give a value, stores, which take one,
/// six kinds of changes, which take one and give one, and exchanges if equal, which take two and give
/// one. In front of them are one that wakes and two that wait.
pub proof fn law_atomics(n: u32)
    ensures
        atomic_access(n) is Some <==> n <= 2 || 0x10 <= n <= 0x4e,
        atomic_access(n) matches Some(a) ==> a.atomic && a.lanes == 0 && a.feature
            == Feature::Threads,
        0x10 <= n <= 0x4e ==> {
            let (ty, width) = atomics()[(n - 0x10) % 7];
            let a = atomic_access(n)->0;
            &&& a.natural == width
            &&& a.first == if n <= 0x16 {
                None
            } else {
                Some(ty)
            }
            &&& a.second == if n >= 0x48 {
                Some(ty)
            } else {
                None
            }
            &&& a.result == if 0x17 <= n <= 0x1d {
                None
            } else {
                Some(ty)
            }
        },
        n <= 2 ==> {
            let a = atomic_access(n)->0;
            &&& a.result == Some(Type::I32)
            &&& a.first == Some(
                if n == 2 {
                    Type::I64
                } else {
                    Type::I32
                },
            )
            &&& a.second == if n == 0 {
                None
            } else {
                Some(Type::I64)
            }
            &&& a.natural == if n == 2 {
                3u8
            } else {
                2u8
            }
        },
{
}

/// The vector operators that test, and give a truth value or bits.
pub open spec fn tests(n: u32) -> bool {
    n == 0x53 || n == 0x63 || n == 0x64 || n == 0x83 || n == 0x84 || n == 0xa3 || n == 0xa4 || n
        == 0xc3 || n == 0xc4
}

/// The vector operators that shift, by a number of bits.
pub open spec fn shifts(n: u32) -> bool {
    0x6b <= n <= 0x6d || 0x8b <= n <= 0x8d || 0xab <= n <= 0xad || 0xcb <= n <= 0xcd
}

/// The vector operators that take three vectors.
pub open spec fn ternary(n: u32) -> bool {
    n == 0x52 || n == 0xaf || n == 0xb0 || n == 0xb2 || n == 0xb3 || n == 0xcf || n == 0xd0 || n
        == 0xd2 || n == 0xd3
}

/// Six vector operators fill all lanes with a number. Shifts take a vector and a number of bits; all
/// others take vectors. Tests give a word, and all others a vector.
pub proof fn law_vectors(n: u32)
    ensures
        vector(n) matches Some(s) ==> {
            let list = list_of(s.params);
            &&& s.feature == Feature::Simd || s.feature == Feature::RelaxedSimd
            &&& !s.extended_const
            &&& s.result == if tests(n) {
                Type::I32
            } else {
                Type::V128
            }
            &&& 0x0f <= n <= 0x14 ==> list.len() == 1 && list[0] == (if n == 0x12 {
                Type::I64
            } else if n == 0x13 {
                Type::F32
            } else if n == 0x14 {
                Type::F64
            } else {
                Type::I32
            })
            &&& !(0x0f <= n <= 0x14) ==> list[0] == Type::V128
            &&& list.len() >= 2 ==> list[1] == if shifts(n) {
                Type::I32
            } else {
                Type::V128
            }
            &&& list.len() == 3 <==> ternary(n)
            &&& tests(n) ==> list.len() == 1
            &&& shifts(n) ==> list.len() == 2
        },
        0x0e <= n <= 0x14 || 0x23 <= n <= 0x52 || 0xf0 <= n <= 0xff ==> vector(n) is Some,
        n < 0x0e || n > 0xff ==> vector(n) is None,
{
}

/// The operators on one lane either take it out of a vector or put it in. A vector has as many lanes
/// as numbers of their type fit in it.
pub proof fn law_lanes(n: u32)
    ensures
        lane(n) is Some <==> 0x15 <= n <= 0x22,
        lane(n) matches Some((s, lanes)) ==> {
            let list = list_of(s.params);
            let number = if list.len() == 1 {
                s.result
            } else {
                list[1]
            };
            &&& list[0] == Type::V128
            &&& list.len() == 1 || (list.len() == 2 && s.result == Type::V128)
            &&& number == Type::I64 || number == Type::F64 ==> lanes == 2
            &&& number == Type::F32 ==> lanes == 4
            &&& number == Type::I32 ==> lanes == 4 || lanes == 8 || lanes == 16
            &&& n <= 0x17 <==> lanes == 16
            &&& 0x18 <= n <= 0x1a <==> lanes == 8
            &&& n == 0x1b || n == 0x1c || n == 0x1f || n == 0x20 <==> lanes == 4
            &&& list.len() == 2 <==> n == 0x17 || n == 0x1a || n == 0x1c || n == 0x1e || n == 0x20
                || n == 0x22
            &&& n == 0x1d || n == 0x1e ==> number == Type::I64
            &&& n == 0x1f || n == 0x20 ==> number == Type::F32
            &&& n == 0x21 || n == 0x22 ==> number == Type::F64
            &&& n <= 0x1c ==> number == Type::I32
        },
{
}

/// The accesses of vectors: loads give a vector, stores take one, and those of one lane take the vector
/// that the lane is of. A lane is as wide as a vector divided by the number of lanes.
pub proof fn law_vector_accesses(n: u32)
    ensures
        vector_access(n) matches Some(a) ==> {
            &&& a.second is None && !a.atomic && a.feature == Feature::Simd
            &&& n <= 0x0a ==> a.first is None && a.result == Some(Type::V128) && a.lanes == 0
            &&& n == 0x0b ==> a.first == Some(Type::V128) && a.result is None && a.lanes == 0
            &&& 0x54 <= n <= 0x5b ==> a.first == Some(Type::V128)
            &&& 0x54 <= n <= 0x57 ==> a.result == Some(Type::V128)
            &&& 0x58 <= n <= 0x5b ==> a.result is None
            &&& n == 0 || n == 0x0b ==> a.natural == 4
            &&& 1 <= n <= 6 ==> a.natural == 3
            &&& 7 <= n <= 0x0a ==> a.natural == n - 7
            &&& 0x54 <= n <= 0x5b ==> a.natural == (n - 0x54) % 4
            &&& n == 0x54 || n == 0x58 ==> a.lanes == 16
            &&& n == 0x55 || n == 0x59 ==> a.lanes == 8
            &&& n == 0x56 || n == 0x5a ==> a.lanes == 4
            &&& n == 0x57 || n == 0x5b ==> a.lanes == 2
        },
        n <= 0x0b || 0x54 <= n <= 0x5d ==> vector_access(n) is Some,
        0x0c <= n <= 0x53 || n > 0x5d ==> vector_access(n) is None,
{
}

/// The place behind a number, which is `n`.
pub open spec fn number_then(c: Cursor, n: u32, d: Cursor) -> bool {
    c.var_u32() == (d, Ok::<u32, BinaryReaderError>(n))
}

/// Two numbers stand in front of a place.
pub open spec fn numbers_then(c: Cursor, m: u32, n: u32, d: Cursor) -> bool {
    c.var_u32().1 == Ok::<u32, BinaryReaderError>(m) && number_then(c.var_u32().0, n, d)
}

/// The byte of an operator, and what stands behind it up to a place.
pub open spec fn stands_for(byte: u8, c: Cursor, op: Op, d: Cursor, memory64: bool) -> bool {
    let sub = c.var_u32().1->Ok_0;
    let rest = c.var_u32().0;
    match op {
        Op::Unreachable => byte == 0x00 && d == c,
        Op::Nop => byte == 0x01 && d == c,
        Op::Block(ty) => byte == 0x02 && <BlockType as FromReader>::parse(c) == (d, Ok::<
            BlockType,
            BinaryReaderError,
        >(ty)),
        Op::Loop(ty) => byte == 0x03 && <BlockType as FromReader>::parse(c) == (d, Ok::<
            BlockType,
            BinaryReaderError,
        >(ty)),
        Op::If(ty) => byte == 0x04 && <BlockType as FromReader>::parse(c) == (d, Ok::<
            BlockType,
            BinaryReaderError,
        >(ty)),
        Op::Else => byte == 0x05 && d == c,
        Op::Try(ty) => byte == 0x06 && <BlockType as FromReader>::parse(c) == (d, Ok::<
            BlockType,
            BinaryReaderError,
        >(ty)),
        Op::Catch(n) => byte == 0x07 && number_then(c, n, d),
        Op::Throw(n) => byte == 0x08 && number_then(c, n, d),
        Op::Rethrow(n) => byte == 0x09 && number_then(c, n, d),
        Op::End => byte == 0x0b && d == c,
        Op::Br(n) => byte == 0x0c && number_then(c, n, d),
        Op::BrIf(n) => byte == 0x0d && number_then(c, n, d),
        Op::Return => byte == 0x0f && d == c,
        Op::Call(n) => byte == 0x10 && number_then(c, n, d),
        Op::CallIndirect { ty, table, table_byte } => byte == 0x11 && numbers_then(c, ty, table, d)
            && table_byte == rest.bytes[rest.pos],
        Op::ReturnCall(n) => byte == 0x12 && number_then(c, n, d),
        Op::ReturnCallIndirect { ty, table } => byte == 0x13 && numbers_then(c, ty, table, d),
        Op::Delegate(n) => byte == 0x18 && number_then(c, n, d),
        Op::CatchAll => byte == 0x19 && d == c,
        Op::Drop => byte == 0x1a && d == c,
        Op::Select => byte == 0x1b && d == c,
        Op::TypedSelect(ty) => {
            &&& byte == 0x1c && sub == 1
            &&& rest.bytes[rest.pos] == code(ty)
            &&& d == rest.advance(1)
        },
        Op::LocalGet(n) => byte == 0x20 && number_then(c, n, d),
        Op::LocalSet(n) => byte == 0x21 && number_then(c, n, d),
        Op::LocalTee(n) => byte == 0x22 && number_then(c, n, d),
        Op::GlobalGet(n) => byte == 0x23 && number_then(c, n, d),
        Op::GlobalSet(n) => byte == 0x24 && number_then(c, n, d),
        Op::TableGet(n) => byte == 0x25 && number_then(c, n, d),
        Op::TableSet(n) => byte == 0x26 && number_then(c, n, d),
        Op::Memory(a, memarg) => {
            let start = if byte == 0xfd || byte == 0xfe {
                rest
            } else {
                c
            };
            let (e, found) = parse_memarg(start, memory64);
            &&& a == (if byte == 0xfd {
                vector_access(sub)->0
            } else if byte == 0xfe {
                atomic_access(sub)->0
            } else {
                access(byte)->0
            })
            &&& found is Ok && found->Ok_0 == memarg
            &&& a.lanes == 0 ==> d == e
            &&& a.lanes > 0 ==> e.left() > 0 && e.bytes[e.pos] < a.lanes && d == e.advance(1)
        },
        Op::MemorySize { memory, memory_byte } => byte == 0x3f && number_then(c, memory, d)
            && memory_byte == c.bytes[c.pos],
        Op::MemoryGrow { memory, memory_byte } => byte == 0x40 && number_then(c, memory, d)
            && memory_byte == c.bytes[c.pos],
        Op::I32Const(n) => byte == 0x41 && c.var_i32() == (d, Ok::<i32, BinaryReaderError>(n)),
        Op::I64Const(n) => byte == 0x42 && c.var_i64() == (d, Ok::<i64, BinaryReaderError>(n)),
        Op::F32Const => byte == 0x43 && c.left() >= 4 && d == c.advance(4),
        Op::F64Const => byte == 0x44 && c.left() >= 8 && d == c.advance(8),
        Op::V128Const => byte == 0xfd && sub == 0x0c && rest.left() >= 16 && d == rest.advance(16),
        Op::RefNull(ty) => byte == 0xd0 && c.left() > 0 && c.bytes[c.pos] == code(ty) && d
            == c.advance(1),
        Op::RefIsNull => byte == 0xd1 && d == c,
        Op::RefFunc(n) => byte == 0xd2 && number_then(c, n, d),
        Op::Simple(s) => {
            ||| plain(byte) == Some(s) && d == c
            ||| byte == 0xfc && sub < 8 && s == saturating(sub) && d == rest
            ||| byte == 0xfd && vector(sub) == Some(s) && d == rest
            ||| byte == 0xfd && (lane(sub) matches Some((t, lanes)) && s == t && rest.left() > 0
                && rest.bytes[rest.pos] < lanes && d == rest.advance(1))
            ||| byte == 0xfd && sub == 0x0d && s.params == Params::Two(Type::V128, Type::V128)
                && s.result == Type::V128 && s.feature == Feature::Simd && !s.extended_const
                && !s.floats
        },
        Op::MemoryInit { segment, memory } => byte == 0xfc && sub == 8 && numbers_then(
            rest,
            segment,
            memory,
            d,
        ),
        Op::DataDrop(n) => byte == 0xfc && sub == 9 && number_then(rest, n, d),
        Op::MemoryCopy { target, source } => byte == 0xfc && sub == 10 && numbers_then(
            rest,
            target,
            source,
            d,
        ),
        Op::MemoryFill(n) => byte == 0xfc && sub == 11 && number_then(rest, n, d),
        Op::TableInit { segment, table } => byte == 0xfc && sub == 12 && numbers_then(
            rest,
            segment,
            table,
            d,
        ),
        Op::ElemDrop(n) => byte == 0xfc && sub == 13 && number_then(rest, n, d),
        Op::TableCopy { target, source } => byte == 0xfc && sub == 14 && numbers_then(
            rest,
            target,
            source,
            d,
        ),
        Op::TableGrow(n) => byte == 0xfc && sub == 15 && number_then(rest, n, d),
        Op::TableSize(n) => byte == 0xfc && sub == 16 && number_then(rest, n, d),
        Op::TableFill(n) => byte == 0xfc && sub == 17 && number_then(rest, n, d),
        Op::AtomicFence => byte == 0xfe && sub == 3 && rest.left() > 0 && rest.bytes[rest.pos] == 0
            && d == rest.advance(1),
    }
}

#[verifier::rlimit(40)]
proof fn lemma_fc(c: Cursor, at: int, memory64: bool)
    ensures
        parse_fc(c, at) matches (d, Ok(op)) ==> stands_for(0xfc, c, op, d, memory64),
{
}

#[verifier::rlimit(40)]
proof fn lemma_fd(c: Cursor, at: int, memory64: bool)
    ensures
        parse_fd(c, at, memory64) matches (d, Ok(op)) ==> stands_for(0xfd, c, op, d, memory64),
{
}

#[verifier::rlimit(40)]
proof fn lemma_fe(c: Cursor, at: int, memory64: bool)
    ensures
        parse_fe(c, at, memory64) matches (d, Ok(op)) ==> stands_for(0xfe, c, op, d, memory64),
{
}

#[verifier::rlimit(40)]
proof fn lemma_other(c: Cursor, byte: u8, at: int, memory64: bool)
    ensures
        parse_other(c, byte, at, memory64) matches (d, Ok(op)) ==> stands_for(
            byte,
            c,
            op,
            d,
            memory64,
        ),
{
    if byte == 0xfc {
        lemma_fc(c, at, memory64);
    } else if byte == 0xfd {
        lemma_fd(c, at, memory64);
    } else if byte == 0xfe {
        lemma_fe(c, at, memory64);
    }
}

/// An operator is read only from its byte and what has to stand behind it.
#[verifier::rlimit(40)]
pub proof fn law_operator_bytes(c: Cursor, memory64: bool)
    ensures
        parse_operator(c, memory64) matches (d, Ok(OperatorView::Op(op))) ==> c.left() > 0
            && stands_for(c.bytes[c.pos], c.advance(1), op, d, memory64),
        parse_operator(c, memory64) matches (d, Ok(OperatorView::BrTable { targets, default })) ==> {
            let (e, n) = c.advance(1).var_u32();
            let (f, list) = parse_list::<u32>(e, n->Ok_0 as nat, Seq::empty());
            &&& c.left() > 0 && c.bytes[c.pos] == 0x0e
            &&& n is Ok && n->Ok_0 <= 7_654_321
            &&& list is Ok && list->Ok_0 == targets
            &&& number_then(f, default, d)
        },
{
    reveal(parse_op);
    if c.left() > 0 {
        lemma_other(c.advance(1), c.bytes[c.pos], c.offset(), memory64);
    }
}

/// An operator that has nothing behind it, or only one index, is always read.
pub proof fn law_operators_known(c: Cursor, memory64: bool)
    requires
        c.left() > 0,
    ensures
        ({
            let byte = c.bytes[c.pos];
            byte == 0x00 || byte == 0x01 || byte == 0x05 || byte == 0x0b || byte == 0x0f || byte
                == 0x19 || byte == 0x1a || byte == 0x1b || byte == 0xd1 || 0x45 <= byte <= 0xc4
                ==> parse_operator(c, memory64).1 is Ok
        }),
        ({
            let byte = c.bytes[c.pos];
            0x07 <= byte <= 0x09 || byte == 0x0c || byte == 0x0d || byte == 0x10 || byte == 0x12
                || byte == 0x18 || 0x20 <= byte <= 0x26 || byte == 0xd2 ==> (parse_operator(
                c,
                memory64,
            ).1 is Ok <==> c.advance(1).var_u32().1 is Ok)
        }),
{
    reveal(parse_op);
}

/// The type of a block is a byte for one that gives nothing, the byte of a value type for one that
/// gives such a value, or the index of a function type.
pub proof fn law_block_type(c: Cursor)
    ensures
        <BlockType as FromReader>::parse(c) matches (d, Ok(ty)) ==> {
            &&& c.left() > 0
            &&& match ty {
                BlockType::Empty => c.bytes[c.pos] == 0x40 && d == c.advance(1),
                BlockType::Type(ty) => c.bytes[c.pos] == code(ty) && d == c.advance(1),
                BlockType::FuncType(n) => c.var_s33() == (d, Ok::<i64, BinaryReaderError>(
                    n as i64,
                )),
            }
        },
{
}

/// Where memory is accessed is a number, of which six bits are the alignment and the next one says
/// whether the index of a memory follows, and then an offset.
pub proof fn law_memarg(c: Cursor, memory64: bool)
    ensures
        parse_memarg(c, memory64) matches (d, Ok(m)) ==> {
            let (e, flags) = c.var_u32();
            let named = flags->Ok_0 >= 0x40;
            let f = if named {
                e.var_u32().0
            } else {
                e
            };
            &&& flags is Ok && m.align < 0x40
            &&& flags->Ok_0 == m.align + if named {
                0x40int
            } else {
                0int
            }
            &&& named ==> e.var_u32().1 == Ok::<u32, BinaryReaderError>(m.memory)
            &&& !named ==> m.memory == 0
            &&& memory64 ==> f.var_u64() == (d, Ok::<u64, BinaryReaderError>(m.offset))
            &&& !memory64 ==> m.offset <= u32::MAX && number_then(f, m.offset as u32, d)
        },
{
}

/// A constant expression is the bytes up to the first `end`, with that.
pub proof fn law_expression(c: Cursor)
    requires
        c.wf(),
    ensures
        <ConstExpr as FromReader>::parse(c) matches (d, Ok(content)) ==> {
            &&& content.bytes == c.bytes.subrange(c.pos, d.pos)
            &&& content.pos == 0 && content.base == c.offset()
        },
        ({
            let (d, op) = parse_operator(c, false);
            skip_expr(c).1 is Ok ==> {
                &&& op is Ok
                &&& op->Ok_0 == OperatorView::Op(Op::End) ==> skip_expr(c).0 == d
                &&& op->Ok_0 != OperatorView::Op(Op::End) ==> skip_expr(c) == skip_expr(d)
                    && d.pos > c.pos
            }
        }),
{
}

} // verus!
