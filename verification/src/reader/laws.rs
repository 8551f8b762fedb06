//! Which bytes stand for what.

use super::binary_reader::{half, lemma_powers, low_signed, Cursor};
use super::types::{
    parse_list, Export, ExternalKind, FromReader, GlobalType, Import, MemoryType, TableType,
    TagType, Type, TypeDef, TypeDefView, TypeRef,
};
use crate::error::BinaryReaderError;
use vstd::arithmetic::power2::pow2;
use vstd::prelude::*;
use vstd::utf8::{encode_utf8, valid_utf8};

verus! {

/// The number whose digits to the base 128 are the low bits of some bytes, the least first.
pub open spec fn digits(bytes: Seq<u8>) -> nat
    decreases bytes.len(),
{
    if bytes.len() == 0 {
        0
    } else {
        (bytes[0] % 0x80 + 0x80 * digits(bytes.skip(1))) as nat
    }
}

/// The bytes between two places.
pub open spec fn between(c: Cursor, d: Cursor) -> Seq<u8> {
    c.bytes.subrange(c.pos, d.pos)
}

/// The bytes are those of one number: all but the last have their top bit set.
pub open spec fn one_number(bytes: Seq<u8>) -> bool {
    &&& bytes.len() > 0
    &&& bytes.last() < 0x80
    &&& forall|i: int| 0 <= i < bytes.len() - 1 ==> #[trigger] bytes[i] >= 0x80
}

/// `d` is a place further on than `c`, in the same bytes.
pub open spec fn further(c: Cursor, d: Cursor) -> bool {
    d.bytes == c.bytes && d.base == c.base && c.pos < d.pos <= c.bytes.len()
}

/// An unsigned number is read from the bytes up to the first without its top bit. It is the number
/// with these digits, and has at most so many bits, as has the number of bytes.
pub proof fn law_unsigned(c: Cursor, bits: nat, what: &'static str)
    requires
        c.wf(),
        1 <= bits <= 64,
    ensures
        c.unsigned(bits, what) matches (d, Ok(n)) ==> {
            &&& further(c, d)
            &&& one_number(between(c, d))
            &&& n == digits(between(c, d)) < pow2(bits)
            &&& 7 * (d.pos - c.pos - 1) < bits
        },
    decreases bits,
{
    lemma_powers(bits);
    if let (d, Ok(n)) = c.unsigned(bits, what) {
        let b = c.bytes[c.pos];
        let next = c.advance(1);
        if bits > 7 && b >= 0x80 {
            law_unsigned(next, (bits - 7) as nat, what);
            let all = between(c, d);
            assert(all.skip(1) =~= between(next, d));
            assert forall|i: int| 0 <= i < all.len() - 1 implies #[trigger] all[i] >= 0x80 by {
                if i > 0 {
                    assert(all[i] == between(next, d)[i - 1]);
                }
            }
        } else {
            assert(between(c, d) =~= seq![b]);
            assert(between(c, d).skip(1) =~= Seq::<u8>::empty());
            assert(digits(between(c, d).skip(1)) == 0);
            if bits > 7 {
                assert(b < 0x80 <= pow2(bits));
            }
            assert(b % 0x80 == b);
        }
    }
}

/// Bytes of one number that has at most so many bits, as has the number of bytes, are read as the
/// number with these digits.
pub proof fn law_unsigned_accepted(c: Cursor, bits: nat, what: &'static str, d: Cursor)
    requires
        c.wf(),
        1 <= bits <= 64,
        further(c, d),
        one_number(between(c, d)),
        digits(between(c, d)) < pow2(bits),
        7 * (d.pos - c.pos - 1) < bits,
    ensures
        c.unsigned(bits, what).0 == d,
        c.unsigned(bits, what).1 is Ok,
        c.unsigned(bits, what).1->Ok_0 == digits(between(c, d)),
    decreases bits,
{
    lemma_powers(bits);
    let all = between(c, d);
    let next = c.advance(1);
    assert(all[0] == c.bytes[c.pos]);
    if d.pos == c.pos + 1 {
        assert(all.skip(1) =~= Seq::<u8>::empty());
        assert(digits(all.skip(1)) == 0);
        assert(all.last() == all[0]);
        assert(digits(all) == all[0]);
        assert(d == next);
    } else {
        let rest = between(next, d);
        assert(all.skip(1) =~= rest);
        assert(all[0] >= 0x80);
        assert(one_number(rest)) by {
            assert(rest.last() == all.last());
            assert forall|i: int| 0 <= i < rest.len() - 1 implies #[trigger] rest[i] >= 0x80 by {
                assert(rest[i] == all[i + 1]);
            }
        }
        assert(bits > 7);
        assert(digits(all) == all[0] % 0x80 + 0x80 * digits(rest));
        assert(digits(rest) < pow2((bits - 7) as nat));
        law_unsigned_accepted(next, (bits - 7) as nat, what, d);
    }
}

/// A signed number is read from the bytes up to the first without its top bit. It is the number with
/// these digits, less one more digit if bit six of the last byte is set, and has at most so many bits.
pub proof fn law_signed(c: Cursor, bits: nat, what: &'static str)
    requires
        c.wf(),
        1 <= bits <= 64,
    ensures
        c.signed(bits, what) matches (d, Ok(n)) ==> {
            let all = between(c, d);
            &&& further(c, d)
            &&& one_number(all)
            &&& n == digits(all) - (if all.last() >= 0x40 {
                pow2(7 * all.len()) as int
            } else {
                0
            })
            &&& -half(bits) <= n < half(bits)
            &&& 7 * (d.pos - c.pos - 1) < bits
        },
    decreases bits,
{
    lemma_powers(bits);
    vstd::arithmetic::power2::lemma2_to64();
    if let (d, Ok(n)) = c.signed(bits, what) {
        let b = c.bytes[c.pos];
        let next = c.advance(1);
        let all = between(c, d);
        if bits > 7 && b >= 0x80 {
            law_signed(next, (bits - 7) as nat, what);
            let rest = between(next, d);
            assert(all.skip(1) =~= rest);
            assert(all.last() == rest.last());
            assert forall|i: int| 0 <= i < all.len() - 1 implies #[trigger] all[i] >= 0x80 by {
                if i > 0 {
                    assert(all[i] == rest[i - 1]);
                }
            }
            vstd::arithmetic::power2::lemma_pow2_adds(7, 7 * rest.len());
            assert(7 * all.len() == 7 + 7 * rest.len());
            assert(pow2(7 * all.len()) == 0x80 * pow2(7 * rest.len()));
            assert(digits(all) == all[0] % 0x80 + 0x80 * digits(rest));
        } else {
            assert(all =~= seq![b]);
            assert(all.skip(1) =~= Seq::<u8>::empty());
            assert(digits(all.skip(1)) == 0);
            assert(digits(all) == b % 0x80);
            assert(7 * all.len() == 7);
            assert(b % 0x80 == b);
            assert(n == low_signed(b));
        }
    }
}

/// The numbers of fixed kinds are those with so many bits.
pub proof fn law_numbers(c: Cursor)
    requires
        c.wf(),
    ensures
        c.var_u32() matches (d, Ok(n)) ==> further(c, d) && one_number(between(c, d)) && n
            == digits(between(c, d)),
        c.var_u64() matches (d, Ok(n)) ==> further(c, d) && one_number(between(c, d)) && n
            == digits(between(c, d)),
        c.var_u32().1 is Ok ==> c.var_u64() == (c.var_u32().0, Ok::<u64, BinaryReaderError>(
            c.var_u32().1->Ok_0 as u64,
        )),
{
    vstd::arithmetic::power2::lemma2_to64();
    vstd::arithmetic::power2::lemma2_to64_rest();
    law_unsigned(c, 32, "var_u32");
    law_unsigned(c, 64, "var_u64");
    if c.var_u32().1 is Ok {
        law_unsigned_accepted(c, 64, "var_u64", c.var_u32().0);
    }
}

/// Four bytes are read as a number, least significant byte first.
pub proof fn law_fixed(c: Cursor)
    requires
        c.wf(),
    ensures
        c.fixed_u32().1 is Ok <==> c.left() >= 4,
        c.fixed_u32() matches (d, Ok(n)) ==> {
            &&& d == c.advance(4)
            &&& n % 0x100 == c.bytes[c.pos]
            &&& (n / 0x100) % 0x100 == c.bytes[c.pos + 1]
            &&& (n / 0x1_0000) % 0x100 == c.bytes[c.pos + 2]
            &&& n / 0x100_0000 == c.bytes[c.pos + 3]
        },
{
}

/// A name is a number, at most a hundred thousand, and so many bytes in UTF-8, which are those of the
/// name.
pub proof fn law_name(c: Cursor)
    requires
        c.wf(),
    ensures
        c.string().1 is Ok <==> {
            let (d, len) = c.var_u32();
            &&& len is Ok
            &&& len->Ok_0 <= 100_000
            &&& len->Ok_0 <= d.left()
            &&& valid_utf8(d.bytes.subrange(d.pos, d.pos + len->Ok_0))
        },
        c.string() matches (d, Ok(name)) ==> {
            let (e, len) = c.var_u32();
            d == e.advance(len->Ok_0 as int) && encode_utf8(name) == between(e, d)
        },
{
    let (d, len) = c.var_u32();
    if len is Ok && len->Ok_0 <= d.left() {
        let bytes = d.bytes.subrange(d.pos, d.pos + len->Ok_0);
        if valid_utf8(bytes) {
            vstd::utf8::decode_utf8_encode_utf8(bytes);
        }
    }
}

/// The byte that stands for a value type.
pub open spec fn code(ty: Type) -> u8 {
    match ty {
        Type::I32 => 0x7f,
        Type::I64 => 0x7e,
        Type::F32 => 0x7d,
        Type::F64 => 0x7c,
        Type::V128 => 0x7b,
        Type::FuncRef => 0x70,
        Type::ExternRef => 0x6f,
    }
}

/// A byte stands for a value type exactly if it is the code of the type, and it is the byte that is
/// written for the type.
pub proof fn law_value_type_byte(c: Cursor, byte: u8, ty: Type)
    ensures
        Type::of_byte(byte) == Some(ty) <==> byte == code(ty),
        ty.byte() == code(ty),
        <Type as FromReader>::parse(c).1 == Ok::<Type, BinaryReaderError>(ty)
            <==> c.left() > 0 && c.bytes[c.pos] == code(ty),
        <Type as FromReader>::parse(c).1 is Ok ==> <Type as FromReader>::parse(c).0 == c.advance(1),
{
}

proof fn lemma_list<'a, T: FromReader<'a>>(c: Cursor, n: nat, acc: Seq<T::V>)
    ensures
        match (parse_list::<T>(c, n, acc), parse_list::<T>(c, n, Seq::empty())) {
            ((d, Ok(all)), (e, Ok(list))) => d == e && all == acc + list && list.len() == n,
            ((d, Err(x)), (e, Err(y))) => d == e && x == y,
            _ => false,
        },
    decreases n,
{
    if n > 0 {
        if let (d, Ok(x)) = T::parse(c) {
            lemma_list::<T>(d, (n - 1) as nat, acc.push(x));
            lemma_list::<T>(d, (n - 1) as nat, Seq::empty().push(x));
            if let (_, Ok(rest)) = parse_list::<T>(d, (n - 1) as nat, Seq::empty()) {
                assert(acc.push(x) + rest =~= acc + (Seq::empty().push(x) + rest));
            }
        }
    } else {
        assert(acc + Seq::<T::V>::empty() =~= acc);
    }
}

/// A list is its values one behind the other: so many of them, the first where the list starts, and
/// the others as a list behind it.
pub proof fn law_list<'a, T: FromReader<'a>>(c: Cursor, n: nat)
    ensures
        n == 0 ==> parse_list::<T>(c, n, Seq::empty()) == (c, Ok::<
            Seq<T::V>,
            BinaryReaderError,
        >(Seq::empty())),
        n > 0 ==> (parse_list::<T>(c, n, Seq::empty()).1 is Ok <==> {
            &&& T::parse(c).1 is Ok
            &&& parse_list::<T>(T::parse(c).0, (n - 1) as nat, Seq::empty()).1 is Ok
        }),
        n > 0 ==> (parse_list::<T>(c, n, Seq::empty()) matches (d, Ok(list)) ==> {
            let (e, rest) = parse_list::<T>(T::parse(c).0, (n - 1) as nat, Seq::empty());
            &&& list.len() == n
            &&& list[0] == T::parse(c).1->Ok_0
            &&& list.skip(1) == rest->Ok_0
            &&& d == e
        }),
{
    if n > 0 {
        if let (d, Ok(x)) = T::parse(c) {
            lemma_list::<T>(d, (n - 1) as nat, Seq::empty().push(x));
            lemma_list::<T>(d, (n - 1) as nat, Seq::empty());
            if let (_, Ok(rest)) = parse_list::<T>(d, (n - 1) as nat, Seq::empty()) {
                assert((Seq::empty().push(x) + rest).skip(1) =~= rest);
            }
        }
    }
}

/// A function type in a type section is a byte, then as many parameter types as a number says and as
/// many result types as a number says, a thousand of each at most.
pub proof fn law_function_type(c: Cursor)
    ensures
        <TypeDef as FromReader>::parse(c) matches (d, Ok(TypeDefView::Func(ty))) ==> {
            let (p, params) = c.advance(1).var_u32();
            let (q, first) = parse_list::<Type>(p, params->Ok_0 as nat, Seq::empty());
            let (r, results) = q.var_u32();
            let (s, second) = parse_list::<Type>(r, results->Ok_0 as nat, Seq::empty());
            &&& c.left() > 0 && c.bytes[c.pos] == 0x60
            &&& params is Ok && params->Ok_0 <= 1_000
            &&& first is Ok && first->Ok_0 == ty.params
            &&& results is Ok && results->Ok_0 <= 1_000
            &&& second is Ok && second->Ok_0 == ty.returns
            &&& s == d
        },
        ({
            let (p, params) = c.advance(1).var_u32();
            let (q, first) = parse_list::<Type>(p, params->Ok_0 as nat, Seq::empty());
            let (r, results) = q.var_u32();
            let (s, second) = parse_list::<Type>(r, results->Ok_0 as nat, Seq::empty());
            c.left() > 0 && c.bytes[c.pos] == 0x60 && params is Ok && params->Ok_0 <= 1_000
                && first is Ok && results is Ok && results->Ok_0 <= 1_000 && second is Ok
                ==> <TypeDef as FromReader>::parse(c).1 is Ok
        }),
{
}

/// A table type is the type of its elements, a byte that says whether there is a maximum, the initial
/// size, and the maximum, if there is one.
pub proof fn law_table_type(c: Cursor, d: Cursor, ty: TableType)
    ensures
        <TableType as FromReader>::parse(c) == (d, Ok::<TableType, BinaryReaderError>(
            ty,
        )) <==> {
            let (e, initial) = c.advance(2).var_u32();
            let (f, maximum) = e.var_u32();
            &&& c.left() >= 2
            &&& c.bytes[c.pos] == code(ty.element_type)
            &&& c.bytes[c.pos + 1] == if ty.maximum is Some {
                1u8
            } else {
                0u8
            }
            &&& initial is Ok && initial->Ok_0 == ty.initial
            &&& ty.maximum is None ==> d == e
            &&& ty.maximum matches Some(max) ==> maximum is Ok && maximum->Ok_0 == max && d == f
        },
{
}

/// A memory type is a byte of which bit zero says whether there is a maximum, bit one whether it is
/// shared and bit two whether its numbers have 64 bits, then the initial size, and the maximum, if
/// there is one.
pub proof fn law_memory_type(c: Cursor, d: Cursor, ty: MemoryType)
    requires
        c.wf(),
    ensures
        <MemoryType as FromReader>::parse(c) == (d, Ok::<
            MemoryType,
            BinaryReaderError,
        >(ty)) ==> {
            let flags = c.bytes[c.pos];
            let (e, initial) = c.advance(1).var_u64();
            let (f, maximum) = e.var_u64();
            &&& c.left() >= 1
            &&& flags == (if ty.maximum is Some {
                1int
            } else {
                0int
            }) + (if ty.shared {
                2int
            } else {
                0int
            }) + (if ty.memory64 {
                4int
            } else {
                0int
            })
            &&& initial is Ok && initial->Ok_0 == ty.initial
            &&& ty.maximum is None ==> d == e
            &&& ty.maximum matches Some(max) ==> maximum is Ok && maximum->Ok_0 == max && d == f
            &&& !ty.memory64 ==> ty.initial <= u32::MAX && (ty.maximum matches Some(max) ==> max
                <= u32::MAX)
        },
{
    if c.left() > 0 {
        let next = c.advance(1);
        law_numbers(next);
        if next.var_u32().1 is Ok {
            law_numbers(next.var_u32().0);
        }
    }
}

/// A global type is the type of its value and a byte that says whether it can be changed.
pub proof fn law_global_type(c: Cursor, d: Cursor, ty: GlobalType)
    ensures
        <GlobalType as FromReader>::parse(c) == (d, Ok::<
            GlobalType,
            BinaryReaderError,
        >(ty)) <==> {
            &&& c.left() >= 2
            &&& c.bytes[c.pos] == code(ty.content_type)
            &&& c.bytes[c.pos + 1] == if ty.mutable {
                1u8
            } else {
                0u8
            }
            &&& d == c.advance(2)
        },
{
}

/// A tag type is a byte that is zero and the index of a function type.
pub proof fn law_tag_type(c: Cursor)
    ensures
        <TagType as FromReader>::parse(c).1 is Ok <==> c.left() >= 1 && c.bytes[c.pos] == 0
            && c.advance(1).var_u32().1 is Ok,
        <TagType as FromReader>::parse(c) matches (d, Ok(ty)) ==> d == c.advance(1).var_u32().0
            && ty.func_type_idx == c.advance(1).var_u32().1->Ok_0,
{
}

/// The byte that stands for a kind of import or export.
pub open spec fn kind_code(kind: ExternalKind) -> u8 {
    match kind {
        ExternalKind::Func => 0,
        ExternalKind::Table => 1,
        ExternalKind::Memory => 2,
        ExternalKind::Global => 3,
        ExternalKind::Tag => 4,
    }
}

/// A kind of import or export is one byte.
pub proof fn law_kind(c: Cursor, d: Cursor, kind: ExternalKind)
    ensures
        <ExternalKind as FromReader>::parse(c) == (d, Ok::<
            ExternalKind,
            BinaryReaderError,
        >(kind)) <==> c.left() > 0 && c.bytes[c.pos] == kind_code(kind) && d == c.advance(1),
{
}

/// What is imported is written as its kind, and then its type, or the index of its type if it is a
/// function.
pub proof fn law_type_ref(c: Cursor)
    ensures
        <TypeRef as FromReader>::parse(c) matches (d, Ok(ty)) ==> {
            let e = c.advance(1);
            &&& c.left() > 0
            &&& match ty {
                TypeRef::Func(index) => c.bytes[c.pos] == 0 && e.var_u32().0 == d
                    && e.var_u32().1->Ok_0 == index,
                TypeRef::Table(ty) => c.bytes[c.pos] == 1 && <TableType as FromReader>::parse(e).0
                    == d && <TableType as FromReader>::parse(e).1->Ok_0 == ty,
                TypeRef::Memory(ty) => c.bytes[c.pos] == 2 && <MemoryType as FromReader>::parse(e).0
                    == d && <MemoryType as FromReader>::parse(e).1->Ok_0 == ty,
                TypeRef::Global(ty) => c.bytes[c.pos] == 3 && <GlobalType as FromReader>::parse(e).0
                    == d && <GlobalType as FromReader>::parse(e).1->Ok_0 == ty,
                TypeRef::Tag(ty) => c.bytes[c.pos] == 4 && <TagType as FromReader>::parse(e).0 == d
                    && <TagType as FromReader>::parse(e).1->Ok_0 == ty,
            }
        },
{
}

/// An import is the name of a module, a name, and what is imported. An export is a name, a kind and an
/// index.
pub proof fn law_import_and_export(c: Cursor)
    ensures
        <Import as FromReader>::parse(c) matches (d, Ok(import)) ==> {
            let (e, module) = c.string();
            let (f, name) = e.string();
            &&& module is Ok && module->Ok_0 == import.module
            &&& name is Ok && name->Ok_0 == import.name
            &&& <TypeRef as FromReader>::parse(f).0 == d
            &&& <TypeRef as FromReader>::parse(f).1 is Ok
            &&& <TypeRef as FromReader>::parse(f).1->Ok_0 == import.ty
        },
        <Export as FromReader>::parse(c) matches (d, Ok(export)) ==> {
            let (e, name) = c.string();
            &&& name is Ok && name->Ok_0 == export.name
            &&& e.left() > 0 && e.bytes[e.pos] == kind_code(export.kind)
            &&& e.advance(1).var_u32().0 == d
            &&& e.advance(1).var_u32().1 is Ok
            &&& e.advance(1).var_u32().1->Ok_0 == export.index
        },
{
}

} // verus!
