//! The element section of a module.

use super::instructions::{lebs, write_list, Instruction, InstructionView};
use super::{joined, leb, write_section, write_u32, Section, SectionId, ValType, Written};
use crate::reader::types::Type;
use vstd::prelude::*;

verus! {

/// An encoder for the element section.
///
/// Element sections are only supported for modules.
#[derive(Clone, Debug)]
pub struct ElementSection {
    bytes: Vec<u8>,
    num_added: u32,
}

impl View for ElementSection {
    type V = Written;

    closed spec fn view(&self) -> Written {
        Written { bytes: self.bytes@, count: self.num_added }
    }
}

/// A sequence of elements in a segment in the element section.
#[derive(Clone, Copy, Debug)]
pub enum Elements<'a> {
    /// A sequences of references to functions by their indices.
    Functions(&'a [u32]),
    /// A sequence of reference expressions.
    Expressions(&'a [Element]),
}

/// What [`Elements`] hold.
pub enum ElementsView {
    /// References to functions by their indices.
    Functions(Seq<u32>),
    /// Reference expressions.
    Expressions(Seq<Element>),
}

impl<'a> View for Elements<'a> {
    type V = ElementsView;

    open spec fn view(&self) -> ElementsView {
        match self {
            Elements::Functions(functions) => ElementsView::Functions(functions@),
            Elements::Expressions(expressions) => ElementsView::Expressions(expressions@),
        }
    }
}

/// An element in a segment in the element section.
#[derive(Clone, Copy, Debug)]
pub enum Element {
    /// A null reference.
    Null,
    /// A `ref.func n`.
    Func(u32),
}

/// An element segment's mode.
#[derive(Clone, Debug)]
pub enum ElementMode<'a> {
    /// A passive element segment.
    ///
    /// Passive segments are part of the bulk memory proposal.
    Passive,
    /// A declared element segment.
    ///
    /// Declared segments are part of the bulk memory proposal.
    Declared,
    /// An active element segment.
    Active {
        /// The table index.
        ///
        /// `None` is implicitly table `0`. Non-`None` tables are part of the
        /// reference types proposal, including `Some(0)`.
        table: Option<u32>,
        /// The offset within the table to place this segment.
        offset: &'a Instruction<'a>,
    },
}

/// What an [`ElementMode`] holds.
pub enum ElementModeView {
    /// A passive element segment.
    Passive,
    /// A declared element segment.
    Declared,
    /// An active element segment.
    Active {
        /// The table, or the first one.
        table: Option<u32>,
        /// The place in the table.
        offset: InstructionView,
    },
}

impl<'a> View for ElementMode<'a> {
    type V = ElementModeView;

    open spec fn view(&self) -> ElementModeView {
        match self {
            ElementMode::Passive => ElementModeView::Passive,
            ElementMode::Declared => ElementModeView::Declared,
            ElementMode::Active { table, offset } => ElementModeView::Active {
                table: *table,
                offset: offset@,
            },
        }
    }
}

/// An element segment in the element section.
#[derive(Clone, Debug)]
pub struct ElementSegment<'a> {
    /// The element segment's mode.
    pub mode: ElementMode<'a>,
    /// The element segment's type.
    pub element_type: ValType,
    /// This segment's elements.
    pub elements: Elements<'a>,
}

/// What an [`ElementSegment`] holds.
pub struct ElementSegmentView {
    /// The element segment's mode.
    pub mode: ElementModeView,
    /// The element segment's type.
    pub element_type: Type,
    /// This segment's elements.
    pub elements: ElementsView,
}

impl<'a> View for ElementSegment<'a> {
    type V = ElementSegmentView;

    open spec fn view(&self) -> ElementSegmentView {
        ElementSegmentView {
            mode: self.mode@,
            element_type: self.element_type,
            elements: self.elements@,
        }
    }
}

impl Element {
    /// The instruction for an element of this type.
    pub open spec fn instruction(self, element_type: Type) -> InstructionView {
        match self {
            Element::Null => InstructionView::RefNull(element_type),
            Element::Func(index) => InstructionView::RefFunc(index),
        }
    }
}

/// An expression of one instruction: the instruction and an end.
pub open spec fn expression(instruction: InstructionView) -> Seq<u8> {
    instruction.encoded() + InstructionView::End.encoded()
}

/// The bytes of each of the reference expressions.
pub open spec fn expressions(list: Seq<Element>, element_type: Type) -> Seq<Seq<u8>> {
    Seq::new(list.len(), |i: int| expression(list[i].instruction(element_type)))
}

impl ElementSegmentView {
    /// The bits that tell what stands in the segment: the mode in the two low ones,
    /// and whether the elements are expressions in the third.
    pub open spec fn flags(self) -> nat {
        let mode: nat = match self.mode {
            ElementModeView::Active { table: None, .. } => 0,
            ElementModeView::Passive => 1,
            ElementModeView::Active { table: Some(_), .. } => 2,
            ElementModeView::Declared => 3,
        };
        if self.elements is Expressions {
            mode + 4
        } else {
            mode
        }
    }

    /// The byte for the kind of the elements: functions, or references of a type.
    pub open spec fn kind(self) -> u8 {
        if self.elements is Expressions {
            self.element_type.byte()
        } else {
            0
        }
    }

    /// What stands between the flags and the elements: where an active segment goes,
    /// and the kind of the elements, unless the segment goes to the first table
    /// without naming it.
    pub open spec fn placement(self) -> Seq<u8> {
        match self.mode {
            ElementModeView::Active { table: None, offset } => expression(offset),
            ElementModeView::Active { table: Some(table), offset } => leb(table as nat)
                + expression(offset) + seq![self.kind()],
            _ => seq![self.kind()],
        }
    }

    /// The elements, behind the low 32 bits of how many there are.
    pub open spec fn listed(self) -> Seq<u8> {
        match self.elements {
            ElementsView::Functions(list) => leb(list.len()) + joined(lebs(list)),
            ElementsView::Expressions(list) => leb(list.len() % 0x1_0000_0000) + joined(
                expressions(list, self.element_type),
            ),
        }
    }

    /// The segment as it stands in the section.
    pub open spec fn encoded(self) -> Seq<u8> {
        leb(self.flags()) + self.placement() + self.listed()
    }
}

/// Writes an expression of one instruction.
fn write_expression(bytes: &mut Vec<u8>, instruction: &Instruction<'_>)
    ensures
        final(bytes)@ == old(bytes)@ + expression(instruction@),
{
    instruction.encode(bytes);
    Instruction::End.encode(bytes);
    assert(bytes@ =~= old(bytes)@ + expression(instruction@));
}

/// Writes reference expressions one behind the other.
fn write_expressions(bytes: &mut Vec<u8>, list: &[Element], element_type: ValType)
    ensures
        final(bytes)@ == old(bytes)@ + joined(expressions(list@, element_type)),
{
    let ghost parts = expressions(list@, element_type);
    let mut i: usize = 0;
    assert(bytes@ =~= old(bytes)@ + joined(parts.take(0)));
    while i < list.len()
        invariant
            i <= list@.len(),
            parts == expressions(list@, element_type),
            bytes@ == old(bytes)@ + joined(parts.take(i as int)),
        decreases list@.len() - i,
    {
        match list[i] {
            Element::Func(index) => write_expression(bytes, &Instruction::RefFunc(index)),
            Element::Null => write_expression(bytes, &Instruction::RefNull(element_type)),
        }
        assert(parts.take(i + 1).drop_last() =~= parts.take(i as int));
        i = i + 1;
        assert(bytes@ =~= old(bytes)@ + joined(parts.take(i as int)));
    }
    assert(parts.take(i as int) =~= parts);
}

/// Writes what stands in front of the elements.
fn write_head(bytes: &mut Vec<u8>, segment: &ElementSegment<'_>)
    ensures
        final(bytes)@ == old(bytes)@ + (leb(segment@.flags()) + segment@.placement()),
{
    let (expr_bit, kind): (u32, u8) = match segment.elements {
        Elements::Expressions(_) => (4, segment.element_type.to_byte()),
        // the kind of functions
        Elements::Functions(_) => (0, 0x00),
    };
    let ghost before = bytes@;
    let ghost flags = leb(segment@.flags());
    match &segment.mode {
        ElementMode::Active { table: None, offset } => {
            write_u32(bytes, expr_bit);
            write_expression(bytes, offset);
            assert(before + flags + expression(offset@) =~= before + (flags + expression(
                offset@,
            )));
        },
        ElementMode::Passive => {
            write_u32(bytes, 0x01 + expr_bit);
            bytes.push(kind);
            assert((before + flags).push(kind) =~= before + (flags + seq![kind]));
        },
        ElementMode::Active { table: Some(i), offset } => {
            write_u32(bytes, 0x02 + expr_bit);
            write_u32(bytes, *i);
            write_expression(bytes, offset);
            bytes.push(kind);
            let ghost table = leb(*i as nat);
            assert((before + flags + table + expression(offset@)).push(kind) =~= before + (flags + (
            table + expression(offset@) + seq![kind])));
        },
        ElementMode::Declared => {
            write_u32(bytes, 0x03 + expr_bit);
            bytes.push(kind);
            assert((before + flags).push(kind) =~= before + (flags + seq![kind]));
        },
    }
}

/// Writes the elements, and how many there are.
fn write_elements(bytes: &mut Vec<u8>, segment: &ElementSegment<'_>)
    requires
        segment@.elements matches ElementsView::Functions(functions) ==> functions.len()
            <= u32::MAX,
    ensures
        final(bytes)@ == old(bytes)@ + segment@.listed(),
{
    let ghost before = bytes@;
    match segment.elements {
        Elements::Functions(fs) => {
            write_u32(bytes, fs.len() as u32);
            write_list(bytes, fs);
        },
        Elements::Expressions(e) => {
            write_u32(bytes, (e.len() as u64 % 0x1_0000_0000) as u32);
            write_expressions(bytes, e, segment.element_type);
        },
    }
    assert(bytes@ =~= before + segment@.listed());
}

impl Default for ElementSection {
    fn default() -> (section: Self)
        ensures
            section@ == Written::empty(),
    {
        ElementSection { bytes: Vec::new(), num_added: 0 }
    }
}

impl Written {
    /// The section with one more segment.
    pub open spec fn with_segment(self, segment: ElementSegmentView) -> Written {
        self.and(segment.encoded())
    }

    /// The section with one more segment, which goes to a table.
    pub open spec fn with_active(
        self,
        table: Option<u32>,
        offset: InstructionView,
        element_type: Type,
        elements: ElementsView,
    ) -> Written {
        self.with_segment(
            ElementSegmentView {
                mode: ElementModeView::Active { table, offset },
                element_type,
                elements,
            },
        )
    }

    /// The section with one more segment, which waits to be used.
    pub open spec fn with_passive(self, element_type: Type, elements: ElementsView) -> Written {
        self.with_segment(
            ElementSegmentView { mode: ElementModeView::Passive, element_type, elements },
        )
    }

    /// The section with one more segment, which only names its elements.
    pub open spec fn with_declared(self, element_type: Type, elements: ElementsView) -> Written {
        self.with_segment(
            ElementSegmentView { mode: ElementModeView::Declared, element_type, elements },
        )
    }

    /// The section with one more segment, whose bytes are given.
    pub open spec fn with_raw(self, raw_bytes: Seq<u8>) -> Written {
        self.and(raw_bytes)
    }
}

impl ElementSection {
    /// Create a new element section encoder.
    pub fn new() -> (section: Self)
        ensures
            section@ == Written::empty(),
    {
        Self::default()
    }

    /// The number of element segments in the section.
    pub fn len(&self) -> (len: u32)
        ensures
            len == self@.len(),
    {
        self.num_added
    }

    /// Determines if the section is empty.
    pub fn is_empty(&self) -> (empty: bool)
        ensures
            empty == self@.is_empty(),
    {
        self.num_added == 0
    }

    /// Define an element segment.
    ///
    /// A segment of functions must have fewer than 2<sup>32</sup> of them.
    pub fn segment<'a>(&mut self, segment: ElementSegment<'a>) -> (section: &mut Self)
        requires
            old(self)@.count < u32::MAX,
            segment@.elements matches ElementsView::Functions(functions) ==> functions.len()
                <= u32::MAX,
        ensures
            section@ == old(self)@.with_segment(segment@),
            *final(section) == *final(self),
    {
        let ghost before = self.bytes@;
        write_head(&mut self.bytes, &segment);
        write_elements(&mut self.bytes, &segment);
        assert(before + (leb(segment@.flags()) + segment@.placement()) + segment@.listed()
            =~= before + segment@.encoded());
        self.num_added = self.num_added + 1;
        self
    }

    /// Define an active element segment.
    ///
    /// Table `None` is implicitly table `0`. Non-`None` tables are part of the
    /// reference types proposal, including `Some(0)`.
    pub fn active(
        &mut self,
        table_index: Option<u32>,
        offset: &Instruction<'_>,
        element_type: ValType,
        elements: Elements<'_>,
    ) -> (section: &mut Self)
        requires
            old(self)@.count < u32::MAX,
            elements@ matches ElementsView::Functions(functions) ==> functions.len() <= u32::MAX,
        ensures
            section@ == old(self)@.with_active(table_index, offset@, element_type, elements@),
            *final(section) == *final(self),
    {
        self.segment(
            ElementSegment {
                mode: ElementMode::Active { table: table_index, offset },
                element_type,
                elements,
            },
        )
    }

    /// Encode a passive element segment.
    ///
    /// Passive segments are part of the bulk memory proposal.
    pub fn passive<'a>(&mut self, element_type: ValType, elements: Elements<'a>) -> (section:
        &mut Self)
        requires
            old(self)@.count < u32::MAX,
            elements@ matches ElementsView::Functions(functions) ==> functions.len() <= u32::MAX,
        ensures
            section@ == old(self)@.with_passive(element_type, elements@),
            *final(section) == *final(self),
    {
        self.segment(ElementSegment { mode: ElementMode::Passive, element_type, elements })
    }

    /// Encode a declared element segment.
    ///
    /// Declared segments are part of the bulk memory proposal.
    pub fn declared<'a>(&mut self, element_type: ValType, elements: Elements<'a>) -> (section:
        &mut Self)
        requires
            old(self)@.count < u32::MAX,
            elements@ matches ElementsView::Functions(functions) ==> functions.len() <= u32::MAX,
        ensures
            section@ == old(self)@.with_declared(element_type, elements@),
            *final(section) == *final(self),
    {
        self.segment(ElementSegment { mode: ElementMode::Declared, element_type, elements })
    }

    /// Copy a raw, already-encoded element segment into this elements section.
    pub fn raw(&mut self, raw_bytes: &[u8]) -> (section: &mut Self)
        requires
            old(self)@.count < u32::MAX,
        ensures
            section@ == old(self)@.with_raw(raw_bytes@),
            *final(section) == *final(self),
    {
        self.bytes.extend_from_slice(raw_bytes);
        self.num_added = self.num_added + 1;
        self
    }
}

impl Section for ElementSection {
    open spec fn written(&self) -> Written {
        self@
    }

    open spec fn section_id(&self) -> SectionId {
        SectionId::Element
    }

    fn id(&self) -> (id: u8) {
        SectionId::Element.to_byte()
    }

    fn encode(&self, sink: &mut Vec<u8>) {
        write_section(&self.bytes, self.num_added, sink);
    }
}

} // verus!
