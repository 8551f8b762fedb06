//! What is written can be read back.

use super::elements::{expression, expressions, ElementModeView, ElementSegmentView, ElementsView};
use super::instructions::{lebs, InstructionView};
use super::{joined, leb, signed_leb, Written};
use crate::error::Result;
use crate::limits::MAX_WASM_BR_TABLE_SIZE;
use crate::reader::binary_reader::{half, lemma_powers, low_signed, Cursor};
use crate::reader::operators::{
    parse_op, parse_operator, plain, skip_expr, ConstExpr, Op, OperatorView,
};
use crate::reader::sections::{
    parse_element_items, parse_element_kind, parse_element_type, parse_section, Element,
    ElementItemsView, ElementKindView, ElementView, Placed, PlacedView, SectionView,
};
use crate::reader::types::{parse_list, FromReader, Type};
use vstd::arithmetic::power2::pow2;
use vstd::prelude::*;

verus! {

/// The bytes stand at the cursor.
pub open spec fn stands(c: Cursor, bytes: Seq<u8>) -> bool {
    &&& c.wf()
    &&& bytes.len() <= c.left()
    &&& forall|i: int| 0 <= i < bytes.len() ==> c.bytes[c.pos + i] == #[trigger] bytes[i]
}

/// What comes of reading `bytes` as `value`: the place behind them, and the value.
pub open spec fn past<T>(c: Cursor, bytes: Seq<u8>, value: T) -> (Cursor, Result<T>) {
    (c.advance(bytes.len() as int), Ok(value))
}

proof fn lemma_stands_both(c: Cursor, first: Seq<u8>, second: Seq<u8>)
    requires
        stands(c, first + second),
    ensures
        stands(c, first),
        stands(c.advance(first.len() as int), second),
        c.advance(first.len() as int).advance(second.len() as int) == c.advance(
            (first + second).len() as int,
        ),
{
    let both = first + second;
    assert forall|i: int| 0 <= i < first.len() implies c.bytes[c.pos + i]
        == #[trigger] first[i] by {
        assert(both[i] == first[i]);
    }
    let d = c.advance(first.len() as int);
    assert forall|i: int| 0 <= i < second.len() implies d.bytes[d.pos + i]
        == #[trigger] second[i] by {
        assert(both[first.len() + i] == second[i]);
    }
}

proof fn lemma_unsigned(c: Cursor, n: nat, bits: nat, what: &'static str)
    requires
        stands(c, leb(n)),
        1 <= bits <= 64,
        n < pow2(bits),
    ensures
        c.unsigned(bits, what) == past(c, leb(n), n),
    decreases bits,
{
    lemma_powers(bits);
    assert(c.bytes[c.pos + 0] == leb(n)[0]);
    if n >= 0x80 {
        let first = seq![(0x80 + n % 0x80) as u8];
        assert(leb(n) == first + leb(n / 0x80));
        lemma_stands_both(c, first, leb(n / 0x80));
        lemma_unsigned(c.advance(1), n / 0x80, (bits - 7) as nat, what);
    }
}

proof fn lemma_signed(c: Cursor, n: int, bits: nat, what: &'static str)
    requires
        stands(c, signed_leb(n)),
        1 <= bits <= 64,
        -half(bits) <= n < half(bits),
    ensures
        c.signed(bits, what) == past(c, signed_leb(n), n),
    decreases bits,
{
    lemma_powers(bits);
    vstd::arithmetic::power2::lemma2_to64();
    assert(c.bytes[c.pos + 0] == signed_leb(n)[0]);
    if -0x40 <= n < 0x40 {
        assert(low_signed((n % 0x80) as u8) == n);
    } else {
        if bits <= 7 && bits < 7 {
            vstd::arithmetic::power2::lemma_pow2_strictly_increases((bits - 1) as nat, 6);
        }
        let first = seq![(0x80 + n % 0x80) as u8];
        assert(signed_leb(n) == first + signed_leb(n / 0x80));
        lemma_stands_both(c, first, signed_leb(n / 0x80));
        lemma_signed(c.advance(1), n / 0x80, (bits - 7) as nat, what);
    }
}

/// An unsigned number that was written is read back.
pub proof fn law_unsigned_read_back(c: Cursor, n: u32)
    requires
        stands(c, leb(n as nat)),
    ensures
        c.var_u32() == past(c, leb(n as nat), n),
{
    vstd::arithmetic::power2::lemma2_to64();
    lemma_unsigned(c, n as nat, 32, "var_u32");
}

/// A signed number that was written is read back, as one of 32 bits if it is one, and as
/// one of 64 bits.
pub proof fn law_signed_read_back(c: Cursor, n: i64)
    requires
        stands(c, signed_leb(n as int)),
    ensures
        i32::MIN <= n <= i32::MAX ==> c.var_i32() == past(
            c,
            signed_leb(n as int),
            n as i32,
        ),
        c.var_i64() == past(c, signed_leb(n as int), n),
{
    vstd::arithmetic::power2::lemma2_to64();
    vstd::arithmetic::power2::lemma2_to64_rest();
    if i32::MIN <= n <= i32::MAX {
        lemma_signed(c, n as int, 32, "var_i32");
    }
    lemma_signed(c, n as int, 64, "var_i64");
}

proof fn lemma_joined_from(c: Cursor, parts: Seq<Seq<u8>>, i: int)
    requires
        stands(c, joined(parts)),
        0 <= i <= parts.len(),
    ensures
        stands(c, joined(parts.take(i))),
    decreases parts.len() - i,
{
    if i == parts.len() {
        assert(parts.take(i) =~= parts);
    } else {
        lemma_joined_from(c, parts, i + 1);
        assert(parts.take(i + 1).drop_last() =~= parts.take(i));
        lemma_stands_both(c, joined(parts.take(i)), parts[i]);
    }
}

/// The place of one of many runs of bytes that stand one behind the other at the cursor.
pub open spec fn place_of(c: Cursor, parts: Seq<Seq<u8>>, i: int) -> Cursor {
    c.advance(joined(parts.take(i)).len() as int)
}

/// Each of many runs of bytes that stand one behind the other stands at its place.
proof fn lemma_stands_each(c: Cursor, parts: Seq<Seq<u8>>, i: int)
    requires
        stands(c, joined(parts)),
        0 <= i < parts.len(),
    ensures
        stands(place_of(c, parts, i), parts[i]),
        place_of(c, parts, i).advance(parts[i].len() as int) == place_of(c, parts, i + 1),
{
    lemma_joined_from(c, parts, i + 1);
    assert(parts.take(i + 1).drop_last() =~= parts.take(i));
    lemma_stands_both(c, joined(parts.take(i)), parts[i]);
}

proof fn lemma_list<'a, T: FromReader<'a>>(
    c: Cursor,
    parts: Seq<Seq<u8>>,
    values: Seq<T::V>,
    i: int,
)
    requires
        stands(c, joined(parts)),
        parts.len() == values.len(),
        0 <= i <= parts.len(),
        forall|j: int|
            0 <= j < parts.len() ==> T::parse(#[trigger] place_of(c, parts, j)) == past(
                place_of(c, parts, j),
                parts[j],
                values[j],
            ),
    ensures
        parse_list::<T>(
            place_of(c, parts, i),
            (parts.len() - i) as nat,
            values.take(i),
        ) == past(c, joined(parts), values),
    decreases parts.len() - i,
{
    if i == parts.len() {
        assert(parts.take(i) =~= parts);
        assert(values.take(i) =~= values);
    } else {
        lemma_stands_each(c, parts, i);
        assert(values.take(i).push(values[i]) =~= values.take(i + 1));
        lemma_list::<T>(c, parts, values, i + 1);
    }
}

/// If each of many values is read back at its place, the whole list of them is.
pub proof fn law_list_read_back<'a, T: FromReader<'a>>(
    c: Cursor,
    parts: Seq<Seq<u8>>,
    values: Seq<T::V>,
)
    requires
        stands(c, joined(parts)),
        parts.len() == values.len(),
        forall|j: int|
            0 <= j < parts.len() ==> T::parse(#[trigger] place_of(c, parts, j)) == past(
                place_of(c, parts, j),
                parts[j],
                values[j],
            ),
    ensures
        parse_list::<T>(c, parts.len(), Seq::empty()) == past(c, joined(parts), values),
{
    lemma_list::<T>(c, parts, values, 0);
    assert(values.take(0) =~= Seq::<T::V>::empty());
    assert(place_of(c, parts, 0) == c);
}

proof fn lemma_numbers(c: Cursor, list: Seq<u32>)
    requires
        stands(c, joined(lebs(list))),
    ensures
        parse_list::<u32>(c, list.len(), Seq::empty()) == past(c, joined(lebs(list)), list),
{
    let parts = lebs(list);
    assert forall|j: int| 0 <= j < parts.len() implies <u32 as FromReader>::parse(
        #[trigger] place_of(c, parts, j),
    ) == past(place_of(c, parts, j), parts[j], list[j]) by {
        lemma_stands_each(c, parts, j);
        law_unsigned_read_back(place_of(c, parts, j), list[j]);
    }
    law_list_read_back::<u32>(c, parts, list);
}

impl InstructionView {
    /// What the instruction is read as.
    pub open spec fn operator(self) -> OperatorView {
        match self {
            InstructionView::End => OperatorView::Op(Op::End),
            InstructionView::BrTable(targets, default) => OperatorView::BrTable {
                targets,
                default,
            },
            InstructionView::GlobalGet(index) => OperatorView::Op(Op::GlobalGet(index)),
            InstructionView::I32Const(n) => OperatorView::Op(Op::I32Const(n)),
            InstructionView::I64Const(n) => OperatorView::Op(Op::I64Const(n)),
            InstructionView::I32Add => OperatorView::Op(Op::Simple(plain(0x6a)->0)),
            InstructionView::I32Sub => OperatorView::Op(Op::Simple(plain(0x6b)->0)),
            InstructionView::I32Mul => OperatorView::Op(Op::Simple(plain(0x6c)->0)),
            InstructionView::I64Add => OperatorView::Op(Op::Simple(plain(0x7c)->0)),
            InstructionView::I64Sub => OperatorView::Op(Op::Simple(plain(0x7d)->0)),
            InstructionView::I64Mul => OperatorView::Op(Op::Simple(plain(0x7e)->0)),
            InstructionView::RefNull(ty) => OperatorView::Op(Op::RefNull(ty)),
            InstructionView::RefFunc(index) => OperatorView::Op(Op::RefFunc(index)),
        }
    }

    /// No more labels than a reader takes.
    pub open spec fn readable(self) -> bool {
        self matches InstructionView::BrTable(labels, _) ==> labels.len() <= MAX_WASM_BR_TABLE_SIZE
    }
}

/// An instruction that was written is read back.
pub proof fn law_instruction_read_back(c: Cursor, instruction: InstructionView)
    requires
        stands(c, instruction.encoded()),
        instruction.readable(),
    ensures
        parse_operator(c, false) == past(c, instruction.encoded(), instruction.operator()),
{
    reveal(parse_op);
    let bytes = instruction.encoded();
    assert(c.bytes[c.pos + 0] == bytes[0]);
    match instruction {
        InstructionView::BrTable(labels, default) => {
            let code = seq![0x0eu8];
            let count = leb(labels.len() % 0x1_0000_0000);
            let list = joined(lebs(labels));
            let last = leb(default as nat);
            assert(bytes =~= code + (count + (list + last)));
            lemma_stands_both(c, code, count + (list + last));
            let d = c.advance(1);
            lemma_stands_both(d, count, list + last);
            let e = d.advance(count.len() as int);
            lemma_stands_both(e, list, last);
            law_unsigned_read_back(d, labels.len() as u32);
            lemma_numbers(e, labels);
            law_unsigned_read_back(e.advance(list.len() as int), default);
        },
        InstructionView::GlobalGet(index) => {
            lemma_stands_both(c, seq![0x23u8], leb(index as nat));
            law_unsigned_read_back(c.advance(1), index);
        },
        InstructionView::I32Const(n) => {
            lemma_stands_both(c, seq![0x41u8], signed_leb(n as int));
            law_signed_read_back(c.advance(1), n as i64);
        },
        InstructionView::I64Const(n) => {
            lemma_stands_both(c, seq![0x42u8], signed_leb(n as int));
            law_signed_read_back(c.advance(1), n);
        },
        InstructionView::RefNull(ty) => {
            assert(c.bytes[c.pos + 1] == bytes[1]);
        },
        InstructionView::RefFunc(index) => {
            lemma_stands_both(c, seq![0xd2u8], leb(index as nat));
            law_unsigned_read_back(c.advance(1), index);
        },
        _ => {},
    }
}

/// An expression that was written of one instruction is read back as its own bytes.
///
/// An `end` is left out: it is where an expression stops.
pub proof fn law_expression_read_back(c: Cursor, instruction: InstructionView)
    requires
        stands(c, expression(instruction)),
        instruction.readable(),
        instruction !is End,
    ensures
        <ConstExpr as FromReader>::parse(c) == past(
            c,
            expression(instruction),
            Cursor::start(expression(instruction), c.offset()),
        ),
{
    let bytes = instruction.encoded();
    let end = InstructionView::End.encoded();
    lemma_stands_both(c, bytes, end);
    law_instruction_read_back(c, instruction);
    let d = c.advance(bytes.len() as int);
    law_instruction_read_back(d, InstructionView::End);
    reveal_with_fuel(skip_expr, 2);
    assert(c.bytes.subrange(c.pos, d.pos + 1) =~= expression(instruction)) by {
        assert forall|i: int| 0 <= i < expression(instruction).len() implies c.bytes[c.pos + i]
            == expression(instruction)[i] by {}
    }
}

impl ElementSegmentView {
    /// Where the segment goes, as it is read; `at` is the offset of the segment.
    pub open spec fn read_kind(self, at: int) -> ElementKindView {
        match self.mode {
            ElementModeView::Passive => ElementKindView::Passive,
            ElementModeView::Declared => ElementKindView::Declared,
            ElementModeView::Active { table: None, offset } => ElementKindView::Active {
                table_index: 0,
                init_expr: Cursor::start(expression(offset), at + 1),
            },
            ElementModeView::Active { table: Some(table), offset } => ElementKindView::Active {
                table_index: table,
                init_expr: Cursor::start(expression(offset), at + 1 + leb(table as nat).len()),
            },
        }
    }

    /// The type of the elements, as it is read: functions if the elements are, or if the
    /// segment goes to the first table without naming it.
    pub open spec fn read_type(self) -> Type {
        match (self.elements, self.mode) {
            (ElementsView::Functions(_), _) => Type::FuncRef,
            (_, ElementModeView::Active { table: None, .. }) => Type::FuncRef,
            _ => self.element_type,
        }
    }

    /// The elements, as they are read; `at` is the offset of the first one.
    pub open spec fn read_elements(self, at: int) -> ElementItemsView {
        match self.elements {
            ElementsView::Functions(list) => ElementItemsView::Functions(
                Seq::new(
                    list.len(),
                    |i: int|
                        PlacedView { offset: at + joined(lebs(list).take(i)).len(), item: list[i] },
                ),
            ),
            ElementsView::Expressions(list) => ElementItemsView::Expressions(
                Seq::new(
                    list.len(),
                    |i: int|
                        {
                            let parts = expressions(list, self.element_type);
                            let offset = at + joined(parts.take(i)).len();
                            PlacedView { offset, item: Cursor::start(parts[i], offset) }
                        },
                ),
            ),
        }
    }

    /// How many elements there are.
    pub open spec fn len(self) -> nat {
        match self.elements {
            ElementsView::Functions(list) => list.len(),
            ElementsView::Expressions(list) => list.len(),
        }
    }

    /// The segment, as it is read at `at`.
    pub open spec fn read(self, at: int) -> ElementView {
        ElementView {
            kind: self.read_kind(at),
            ty: self.read_type(),
            items: self.read_elements(
                at + 1 + self.placement().len() + leb(self.len() as nat).len(),
            ),
        }
    }

    /// There are so few elements that their count can be written, and the place of an active
    /// segment is an instruction that can be read and does not end the expression.
    pub open spec fn readable(self) -> bool {
        &&& self.len() <= u32::MAX
        &&& self.mode matches ElementModeView::Active { offset, .. } ==> offset.readable()
            && offset !is End
    }
}

proof fn lemma_read_elements(c: Cursor, segment: ElementSegmentView)
    requires
        stands(c, segment.listed()),
        segment.readable(),
    ensures
        parse_element_items(c, segment.flags() as u32) == past(
            c,
            segment.listed(),
            segment.read_elements(c.offset() + leb(segment.len()).len()),
        ),
{
    let count = leb(segment.len());
    let d = c.advance(count.len() as int);
    match segment.elements {
        ElementsView::Functions(list) => {
            let parts = lebs(list);
            lemma_stands_both(c, count, joined(parts));
            law_unsigned_read_back(c, list.len() as u32);
            let values = segment.read_elements(d.offset())->Functions_0;
            assert forall|j: int| 0 <= j < parts.len() implies <Placed<u32> as FromReader>::parse(
                #[trigger] place_of(d, parts, j),
            ) == past(place_of(d, parts, j), parts[j], values[j]) by {
                lemma_stands_each(d, parts, j);
                law_unsigned_read_back(place_of(d, parts, j), list[j]);
            }
            law_list_read_back::<Placed<u32>>(d, parts, values);
        },
        ElementsView::Expressions(list) => {
            let parts = expressions(list, segment.element_type);
            lemma_stands_both(c, count, joined(parts));
            law_unsigned_read_back(c, list.len() as u32);
            let values = segment.read_elements(d.offset())->Expressions_0;
            assert forall|j: int|
                0 <= j < parts.len() implies <Placed<ConstExpr> as FromReader>::parse(
                #[trigger] place_of(d, parts, j),
            ) == past(place_of(d, parts, j), parts[j], values[j]) by {
                lemma_stands_each(d, parts, j);
                law_expression_read_back(
                    place_of(d, parts, j),
                    list[j].instruction(segment.element_type),
                );
            }
            law_list_read_back::<Placed<ConstExpr>>(d, parts, values);
        },
    }
}

proof fn lemma_read_type(c: Cursor, segment: ElementSegmentView)
    requires
        stands(c, seq![segment.kind()]),
        segment.flags() % 4 != 0,
    ensures
        parse_element_type(c, segment.flags() as u32) == past(
            c,
            seq![segment.kind()],
            segment.read_type(),
        ),
{
    assert(c.bytes[c.pos + 0] == seq![segment.kind()][0]);
}

proof fn lemma_read_kind(c: Cursor, segment: ElementSegmentView)
    requires
        segment.mode matches ElementModeView::Active { table: Some(table), offset } && stands(
            c,
            leb(table as nat) + expression(offset),
        ),
        segment.readable(),
    ensures
        segment.mode matches ElementModeView::Active { table: Some(table), offset }
            ==> parse_element_kind(c, segment.flags() as u32) == past(
            c,
            leb(table as nat) + expression(offset),
            segment.read_kind(c.offset() - 1),
        ),
{
    if let ElementModeView::Active { table: Some(table), offset } = segment.mode {
        lemma_stands_both(c, leb(table as nat), expression(offset));
        let d = c.advance(leb(table as nat).len() as int);
        law_unsigned_read_back(c, table);
        law_expression_read_back(d, offset);
    }
}

proof fn lemma_read_placement(c: Cursor, segment: ElementSegmentView)
    requires
        stands(c, segment.placement()),
        segment.readable(),
    ensures
        ({
            let (d, kind) = parse_element_kind(c, segment.flags() as u32);
            &&& kind == Result::<ElementKindView>::Ok(segment.read_kind(c.offset() - 1))
            &&& parse_element_type(d, segment.flags() as u32) == past(
                c,
                segment.placement(),
                segment.read_type(),
            )
        }),
{
    let third = seq![segment.kind()];
    match segment.mode {
        ElementModeView::Active { table: None, offset } => {
            law_expression_read_back(c, offset);
        },
        ElementModeView::Active { table: Some(table), offset } => {
            let head = leb(table as nat) + expression(offset);
            lemma_stands_both(c, head, third);
            lemma_read_kind(c, segment);
            lemma_read_type(c.advance(head.len() as int), segment);
        },
        _ => {
            lemma_read_type(c, segment);
        },
    }
}

/// An element segment that was written is read back: where it goes, its elements and their
/// type.
///
/// The type is the one that was written, but for a segment of functions and for one that goes
/// to the first table without naming it: neither holds a type, and both are read as functions.
pub proof fn law_segment_read_back(c: Cursor, segment: ElementSegmentView)
    requires
        stands(c, segment.encoded()),
        segment.readable(),
    ensures
        <Element as FromReader>::parse(c) == past(
            c,
            segment.encoded(),
            segment.read(c.offset()),
        ),
{
    let first = leb(segment.flags());
    let second = segment.placement();
    let third = segment.listed();
    assert(first.len() == 1);
    assert(segment.encoded() =~= first + (second + third));
    lemma_stands_both(c, first, second + third);
    let d = c.advance(1);
    lemma_stands_both(d, second, third);
    let e = d.advance(second.len() as int);
    law_unsigned_read_back(c, segment.flags() as u32);
    lemma_read_placement(d, segment);
    lemma_read_elements(e, segment);
}

impl Written {
    /// A section with these items.
    pub open spec fn of(parts: Seq<Seq<u8>>) -> Written {
        Written { bytes: joined(parts), count: parts.len() as u32 }
    }
}

/// A section has the items that were put into it, in that order.
pub proof fn law_items_in_order(parts: Seq<Seq<u8>>, part: Seq<u8>)
    requires
        parts.len() < u32::MAX,
    ensures
        Written::of(Seq::empty()) == Written::empty(),
        Written::of(parts).and(part) == Written::of(parts.push(part)),
{
    assert(parts.push(part).drop_last() =~= parts);
}

/// A section that was written says how many bytes it has, and they follow.
pub proof fn law_section_length(c: Cursor, written: Written)
    requires
        stands(c, written.encoded()),
        written.contents().len() <= u32::MAX,
    ensures
        ({
            let length = leb(written.contents().len());
            let d = c.advance(length.len() as int);
            &&& c.var_u32() == past(c, length, written.contents().len() as u32)
            &&& d.take(written.contents().len() as int) == past(
                d,
                written.contents(),
                written.contents(),
            )
        }),
{
    let length = leb(written.contents().len());
    let d = c.advance(length.len() as int);
    lemma_stands_both(c, length, written.contents());
    law_unsigned_read_back(c, written.contents().len() as u32);
    assert(d.bytes.subrange(d.pos, d.pos + written.contents().len()) =~= written.contents());
}

/// The place of the first item of a section that was written and starts at `offset`.
pub open spec fn items_of(written: Written, offset: int) -> Cursor {
    Cursor::start(written.contents(), offset).advance(leb(written.count as nat).len() as int)
}

proof fn lemma_section(written: Written, offset: int)
    requires
        0 <= offset,
        offset + written.contents().len() <= usize::MAX,
    ensures
        parse_section(written.contents(), offset) == Result::<SectionView>::Ok(
            SectionView {
                cursor: items_of(written, offset),
                count: written.count,
                forbid_bulk_memory: false,
            },
        ),
        stands(items_of(written, offset), written.bytes),
        items_of(written, offset).advance(written.bytes.len() as int).pos
            == written.contents().len(),
{
    let c = Cursor::start(written.contents(), offset);
    lemma_stands_both(c, leb(written.count as nat), written.bytes);
    law_unsigned_read_back(c, written.count);
}

/// A function section that was written is read back, to its end.
pub proof fn law_functions_read_back(list: Seq<u32>, offset: int)
    requires
        list.len() <= u32::MAX,
        0 <= offset,
        offset + Written::of(lebs(list)).contents().len() <= usize::MAX,
    ensures
        parse_section(Written::of(lebs(list)).contents(), offset) matches Ok(section) && {
            let (end, read) = parse_list::<u32>(
                section.cursor,
                section.count as nat,
                Seq::empty(),
            );
            &&& section.count == list.len()
            &&& read == Result::<Seq<u32>>::Ok(list)
            &&& section.at(end).end() is Ok
        },
{
    let written = Written::of(lebs(list));
    lemma_section(written, offset);
    lemma_numbers(items_of(written, offset), list);
}

/// The bytes of each of the segments.
pub open spec fn segment_bytes(segments: Seq<ElementSegmentView>) -> Seq<Seq<u8>> {
    Seq::new(segments.len(), |i: int| segments[i].encoded())
}

/// The segments as they are read, with the first one at a cursor.
pub open spec fn segments_read(segments: Seq<ElementSegmentView>, c: Cursor) -> Seq<ElementView> {
    Seq::new(
        segments.len(),
        |i: int| segments[i].read(place_of(c, segment_bytes(segments), i).offset()),
    )
}

/// An element section that was written is read back, to its end.
pub proof fn law_elements_read_back(segments: Seq<ElementSegmentView>, offset: int)
    requires
        segments.len() <= u32::MAX,
        0 <= offset,
        offset + Written::of(segment_bytes(segments)).contents().len() <= usize::MAX,
        forall|i: int| 0 <= i < segments.len() ==> (#[trigger] segments[i]).readable(),
    ensures
        parse_section(Written::of(segment_bytes(segments)).contents(), offset) matches Ok(
            section,
        ) && {
            let (end, read) = parse_list::<Element>(
                section.cursor,
                section.count as nat,
                Seq::empty(),
            );
            &&& section.count == segments.len()
            &&& read == Result::<Seq<ElementView>>::Ok(segments_read(segments, section.cursor))
            &&& section.at(end).end() is Ok
        },
{
    let parts = segment_bytes(segments);
    let written = Written::of(parts);
    lemma_section(written, offset);
    let c = items_of(written, offset);
    let values = segments_read(segments, c);
    assert forall|j: int| 0 <= j < parts.len() implies <Element as FromReader>::parse(
        #[trigger] place_of(c, parts, j),
    ) == past(place_of(c, parts, j), parts[j], values[j]) by {
        lemma_stands_each(c, parts, j);
        law_segment_read_back(place_of(c, parts, j), segments[j]);
    }
    law_list_read_back::<Element>(c, parts, values);
}

} // verus!
