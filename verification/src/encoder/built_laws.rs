//! What is put into a section is found in it.

use super::elements::{
    expression, expressions, Element as Reference, ElementModeView, ElementSection,
    ElementSegmentView, ElementsView,
};
use super::functions::FunctionSection;
use super::instructions::{lebs, InstructionView};
use super::laws::{
    law_elements_read_back, law_functions_read_back, law_instruction_read_back, law_items_in_order,
    law_section_length, law_unsigned_read_back, past, segment_bytes, segments_read, stands,
};
use super::{leb, Section, SectionId, Written};
use crate::error::Result;
use crate::parser::{section_kind, Encoding, Parser, ParserState, PayloadView, SectionKind};
use crate::reader::binary_reader::Cursor;
use crate::reader::operators::{parse_operator, Op, OperatorView};
use crate::reader::sections::{parse_section, Element, ElementKindView, ElementView};
use crate::reader::types::{parse_list, Type};
use vstd::prelude::*;

verus! {

/// A section to which functions of these types have been added, one after the other.
pub open spec fn functions(list: Seq<u32>) -> Written
    decreases list.len(),
{
    if list.len() == 0 {
        Written::empty()
    } else {
        functions(list.drop_last()).with_function(list.last())
    }
}

proof fn lemma_functions(list: Seq<u32>)
    requires
        list.len() <= u32::MAX,
    ensures
        functions(list) == Written::of(lebs(list)),
    decreases list.len(),
{
    if list.len() == 0 {
        assert(lebs(list) =~= Seq::<Seq<u8>>::empty());
        law_items_in_order(Seq::empty(), Seq::empty());
    } else {
        let front = list.drop_last();
        lemma_functions(front);
        law_items_in_order(lebs(front), leb(list.last() as nat));
        assert(lebs(front).push(leb(list.last() as nat)) =~= lebs(list));
    }
}

/// In a section to which functions have been added are as many functions as were added, and they are
/// read from it in the order in which they were added, each of its type, and nothing else is there.
pub proof fn law_functions_added(list: Seq<u32>, offset: int)
    requires
        list.len() <= u32::MAX,
        0 <= offset,
        offset + functions(list).contents().len() <= usize::MAX,
    ensures
        functions(list).len() == list.len(),
        functions(list).is_empty() <==> list.len() == 0,
        parse_section(functions(list).contents(), offset) matches Ok(section) && {
            let (end, read) = parse_list::<u32>(
                section.cursor,
                section.count as nat,
                Seq::empty(),
            );
            &&& read == Result::<Seq<u32>>::Ok(list)
            &&& section.at(end).end() is Ok
        },
{
    lemma_functions(list);
    law_functions_read_back(list, offset);
}

/// A section to which these segments have been added, one after the other.
pub open spec fn segments(list: Seq<ElementSegmentView>) -> Written
    decreases list.len(),
{
    if list.len() == 0 {
        Written::empty()
    } else {
        let before = segments(list.drop_last());
        let last = list.last();
        match last.mode {
            ElementModeView::Active { table, offset } => before.with_active(
                table,
                offset,
                last.element_type,
                last.elements,
            ),
            ElementModeView::Passive => before.with_passive(last.element_type, last.elements),
            ElementModeView::Declared => before.with_declared(last.element_type, last.elements),
        }
    }
}

proof fn lemma_segments(list: Seq<ElementSegmentView>)
    requires
        list.len() <= u32::MAX,
    ensures
        segments(list) == Written::of(segment_bytes(list)),
    decreases list.len(),
{
    if list.len() == 0 {
        assert(segment_bytes(list) =~= Seq::<Seq<u8>>::empty());
        law_items_in_order(Seq::empty(), Seq::empty());
    } else {
        let front = list.drop_last();
        lemma_segments(front);
        law_items_in_order(segment_bytes(front), list.last().encoded());
        assert(segment_bytes(front).push(list.last().encoded()) =~= segment_bytes(list));
    }
}

/// In a section to which segments have been added are as many segments as were added, and they are
/// read from it in the order in which they were added: each goes where it was said to go, to the first
/// table if no table was named, and nothing else is there. A segment can as well be added as a whole,
/// or as its bytes.
pub proof fn law_segments_added(list: Seq<ElementSegmentView>, offset: int)
    requires
        list.len() <= u32::MAX,
        0 <= offset,
        offset + segments(list).contents().len() <= usize::MAX,
        forall|i: int| 0 <= i < list.len() ==> (#[trigger] list[i]).readable(),
    ensures
        segments(list).len() == list.len(),
        segments(list).is_empty() <==> list.len() == 0,
        parse_section(segments(list).contents(), offset) matches Ok(section) && {
            let (end, read) = parse_list::<Element>(
                section.cursor,
                section.count as nat,
                Seq::empty(),
            );
            &&& read is Ok
            &&& read->Ok_0.len() == list.len()
            &&& section.at(end).end() is Ok
            &&& forall|i: int|
                0 <= i < list.len() ==> goes_where_said(list[i], #[trigger] read->Ok_0[i])
        },
        list.len() > 0 ==> {
            let before = segments(list.drop_last());
            &&& segments(list) == before.with_segment(list.last())
            &&& segments(list) == before.with_raw(list.last().encoded())
        },
{
    lemma_segments(list);
    law_elements_read_back(list, offset);
    let section = parse_section(segments(list).contents(), offset)->Ok_0;
    let read = segments_read(list, section.cursor);
    assert forall|i: int| 0 <= i < list.len() implies goes_where_said(
        list[i],
        #[trigger] read[i],
    ) by {}
}

/// A segment that was read goes where one that was written was said to go.
pub open spec fn goes_where_said(segment: ElementSegmentView, read: ElementView) -> bool {
    &&& match segment.mode {
        ElementModeView::Passive => read.kind is Passive,
        ElementModeView::Declared => read.kind is Declared,
        ElementModeView::Active { table, offset } => {
            &&& read.kind matches ElementKindView::Active { table_index, init_expr }
            &&& table_index == match table {
                Some(index) => index,
                None => 0u32,
            }
            &&& init_expr.bytes == expression(offset) && init_expr.pos == 0
        },
    }
    &&& match segment.elements {
        ElementsView::Functions(list) => {
            &&& read.ty == Type::FuncRef
            &&& read.items is Functions && read.items->Functions_0.len() == list.len()
            &&& forall|i: int|
                0 <= i < list.len() ==> (#[trigger] read.items->Functions_0[i]).item == list[i]
        },
        ElementsView::Expressions(list) => {
            &&& read.ty == match segment.mode {
                ElementModeView::Active { table: None, .. } => Type::FuncRef,
                _ => segment.element_type,
            }
            &&& read.items is Expressions && read.items->Expressions_0.len() == list.len()
            &&& forall|i: int|
                0 <= i < list.len() ==> (#[trigger] read.items->Expressions_0[i]).item.bytes
                    == expressions(list, segment.element_type)[i]
        },
    }
}

/// The expression for a reference to a function is read as an operator that gives a reference to that
/// function, the one for no reference as one that gives none of the type of the elements, and then
/// comes the end.
pub proof fn law_reference_expression(
    list: Seq<Reference>,
    ty: Type,
    i: int,
    offset: int,
)
    requires
        0 <= i < list.len(),
        0 <= offset,
        offset + expressions(list, ty)[i].len() <= usize::MAX,
    ensures
        ({
            let bytes = expressions(list, ty)[i];
            let (d, op) = parse_operator(Cursor::start(bytes, offset), false);
            let (e, end) = parse_operator(d, false);
            &&& op == Result::<OperatorView>::Ok(
                OperatorView::Op(
                    match list[i] {
                        Reference::Null => Op::RefNull(ty),
                        Reference::Func(index) => Op::RefFunc(index),
                    },
                ),
            )
            &&& end == Result::<OperatorView>::Ok(OperatorView::Op(Op::End))
            &&& e.pos == bytes.len()
        }),
{
    let instruction = match list[i] {
        Reference::Null => InstructionView::RefNull(ty),
        Reference::Func(index) => InstructionView::RefFunc(index),
    };
    assert(list[i].instruction(ty) == instruction);
    let bytes = expressions(list, ty)[i];
    assert(bytes == instruction.encoded() + InstructionView::End.encoded());
    let c = Cursor::start(bytes, offset);
    let n = instruction.encoded().len();
    assert(stands(c, instruction.encoded())) by {
        assert forall|k: int| 0 <= k < n implies c.bytes[c.pos + k]
            == #[trigger] instruction.encoded()[k] by {}
    }
    law_instruction_read_back(c, instruction);
    let d = c.advance(n as int);
    let last = InstructionView::End.encoded();
    assert(stands(d, last)) by {
        assert forall|k: int| 0 <= k < last.len() implies d.bytes[d.pos + k]
            == #[trigger] last[k] by {}
    }
    law_instruction_read_back(d, InstructionView::End);
}

/// A function section has the number 3 and an element section the number 9, and what is written of
/// them is what was put into them.
pub proof fn law_section_ids(functions: FunctionSection, elements: ElementSection)
    ensures
        functions.section_id().number() == 3,
        elements.section_id().number() == 9,
        functions.written() == functions@,
        elements.written() == elements@,
        section_kind(Encoding::Module, functions.section_id().number()) == Some(
            SectionKind::Function,
        ),
        section_kind(Encoding::Module, elements.section_id().number()) == Some(
            SectionKind::Element,
        ),
{
}

/// A section with items that stands in a binary behind its number is found there by a parser, with
/// what was written in it, and the next section is looked for behind it.
pub proof fn law_section_found(p: Parser, c: Cursor, id: SectionId, written: Written)
    requires
        p.state == ParserState::SectionStart,
        p.encoding == Encoding::Module,
        section_kind(Encoding::Module, id.number()) is Some,
        stands(c, seq![id.number()] + written.encoded()),
        written.contents().len() <= u32::MAX,
        c.bytes.len() <= p.max_size,
    ensures
        ({
            let (q, d, part) = p.parse(c);
            &&& part is Ok
            &&& part->Ok_0 matches PayloadView::Section(kind, section)
            &&& section_kind(Encoding::Module, id.number()) == Some(kind)
            &&& section.cursor.bytes == written.contents()
            &&& section.count == written.count
            &&& q == p
            &&& d == c.advance(1 + written.encoded().len() as int)
        }),
{
    reveal(Parser::parse);
    let all = seq![id.number()] + written.encoded();
    let contents = written.contents();
    let length = leb(contents.len());
    let d = c.advance(1);
    assert(c.bytes[c.pos + 0] == all[0]);
    assert(stands(d, written.encoded())) by {
        assert forall|k: int| 0 <= k < written.encoded().len() implies d.bytes[d.pos + k]
            == #[trigger] written.encoded()[k] by {
            assert(all[k + 1] == written.encoded()[k]);
        }
    }
    law_section_length(d, written);
    let e = d.advance(length.len() as int);
    assert(e.take(contents.len() as int) == past(e, contents, contents));
    let inner = Cursor::start(contents, e.offset());
    assert(stands(inner, leb(written.count as nat))) by {
        assert forall|k: int| 0 <= k < leb(written.count as nat).len() implies inner.bytes[inner.pos
            + k] == #[trigger] leb(written.count as nat)[k] by {}
    }
    law_unsigned_read_back(inner, written.count);
}

} // verus!
