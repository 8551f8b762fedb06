//! Writing the sections of WebAssembly binaries.

pub mod built_laws;
pub mod elements;
pub mod functions;
pub mod instructions;
pub mod laws;

pub use self::elements::{Element, ElementMode, ElementSection, ElementSegment, Elements};
pub use self::functions::FunctionSection;
pub use self::instructions::Instruction;

use crate::reader::types::Type;
use vstd::prelude::*;

verus! {

/// The type of a WebAssembly value.
pub type ValType = Type;

/// An unsigned number in LEB128: seven bits a byte, least significant first, the
/// top bit set in all bytes but the last.
pub open spec fn leb(n: nat) -> Seq<u8>
    decreases n,
{
    if n < 0x80 {
        seq![n as u8]
    } else {
        seq![(0x80 + n % 0x80) as u8] + leb(n / 0x80)
    }
}

/// A signed number in LEB128: as an unsigned one, but bit six of the last byte is
/// the sign.
pub open spec fn signed_leb(n: int) -> Seq<u8>
    decreases
            if n >= 0 {
                n
            } else {
                -n
            },
{
    if -0x40 <= n < 0x40 {
        seq![(n % 0x80) as u8]
    } else {
        seq![(0x80 + n % 0x80) as u8] + signed_leb(n / 0x80)
    }
}

/// Runs of bytes one behind the other.
pub open spec fn joined(parts: Seq<Seq<u8>>) -> Seq<u8>
    decreases parts.len(),
{
    if parts.len() == 0 {
        Seq::empty()
    } else {
        joined(parts.drop_last()) + parts.last()
    }
}

/// Writes an unsigned number.
pub fn write_u32(bytes: &mut Vec<u8>, n: u32)
    ensures
        final(bytes)@ == old(bytes)@ + leb(n as nat),
{
    let mut rest = n;
    while rest >= 0x80
        invariant
            bytes@ + leb(rest as nat) == old(bytes)@ + leb(n as nat),
        decreases rest,
    {
        let ghost before = bytes@;
        bytes.push((0x80 + rest % 0x80) as u8);
        assert(before + leb(rest as nat) =~= bytes@ + leb((rest / 0x80) as nat));
        rest = rest / 0x80;
    }
    let ghost before = bytes@;
    bytes.push(rest as u8);
    assert(before + leb(rest as nat) =~= bytes@);
}

/// Writes a signed number.
pub fn write_i64(bytes: &mut Vec<u8>, n: i64)
    ensures
        final(bytes)@ == old(bytes)@ + signed_leb(n as int),
{
    let mut rest = n;
    while rest < -0x40 || rest >= 0x40
        invariant
            bytes@ + signed_leb(rest as int) == old(bytes)@ + signed_leb(n as int),
        decreases
                if rest >= 0 {
                    rest as int
                } else {
                    -rest
                },
    {
        let ghost before = bytes@;
        let (low, high) = low_and_high(rest);
        bytes.push(0x80 + low);
        assert(before + signed_leb(rest as int) =~= bytes@ + signed_leb(high as int));
        rest = high;
    }
    let ghost before = bytes@;
    bytes.push(low_and_high(rest).0);
    assert(before + signed_leb(rest as int) =~= bytes@);
}

/// The low seven bits of a signed number, and the number without them.
fn low_and_high(n: i64) -> (parts: (u8, i64))
    ensures
        parts.0 == n as int % 0x80,
        parts.1 == n as int / 0x80,
{
    if n >= 0 {
        ((n % 0x80) as u8, n / 0x80)
    } else {
        let below = -(n + 1);
        ((0x7f - below % 0x80) as u8, -(below / 0x80) - 1)
    }
}

/// The number in front of a section.
#[derive(Debug, Copy, Clone, PartialEq, Eq, Structural)]
pub enum SectionId {
    Custom,
    Type,
    Import,
    Function,
    Table,
    Memory,
    Global,
    Export,
    Start,
    Element,
    Code,
    Data,
    DataCount,
    Tag,
}

impl SectionId {
    /// The number in front of the section.
    pub open spec fn number(self) -> u8 {
        match self {
            SectionId::Custom => 0,
            SectionId::Type => 1,
            SectionId::Import => 2,
            SectionId::Function => 3,
            SectionId::Table => 4,
            SectionId::Memory => 5,
            SectionId::Global => 6,
            SectionId::Export => 7,
            SectionId::Start => 8,
            SectionId::Element => 9,
            SectionId::Code => 10,
            SectionId::Data => 11,
            SectionId::DataCount => 12,
            SectionId::Tag => 13,
        }
    }

    /// The number in front of the section.
    pub fn to_byte(self) -> (id: u8)
        ensures
            id == self.number(),
    {
        match self {
            SectionId::Custom => 0,
            SectionId::Type => 1,
            SectionId::Import => 2,
            SectionId::Function => 3,
            SectionId::Table => 4,
            SectionId::Memory => 5,
            SectionId::Global => 6,
            SectionId::Export => 7,
            SectionId::Start => 8,
            SectionId::Element => 9,
            SectionId::Code => 10,
            SectionId::Data => 11,
            SectionId::DataCount => 12,
            SectionId::Tag => 13,
        }
    }
}

/// The items of a section as they have been written so far.
#[verifier::ext_equal]
pub struct Written {
    /// The bytes of the items.
    pub bytes: Seq<u8>,
    /// How many items there are.
    pub count: u32,
}

impl Written {
    /// A section without items.
    pub open spec fn empty() -> Written {
        Written { bytes: Seq::empty(), count: 0 }
    }

    /// The section with one more item.
    pub open spec fn and(self, item: Seq<u8>) -> Written {
        Written { bytes: self.bytes + item, count: (self.count + 1) as u32 }
    }

    /// How many items there are.
    pub open spec fn len(self) -> u32 {
        self.count
    }

    /// There are no items.
    pub open spec fn is_empty(self) -> bool {
        self.count == 0
    }

    /// What stands in the section: how many items there are, and the items.
    pub open spec fn contents(self) -> Seq<u8> {
        leb(self.count as nat) + self.bytes
    }

    /// The section as it stands behind its number: how many bytes it has, and
    /// what stands in it.
    pub open spec fn encoded(self) -> Seq<u8> {
        leb(self.contents().len()) + self.contents()
    }
}

/// A section of a module.
pub trait Section {
    /// The items of the section.
    spec fn written(&self) -> Written;

    /// The number in front of the section.
    spec fn section_id(&self) -> SectionId;

    /// The number in front of the section.
    fn id(&self) -> (id: u8)
        ensures
            id == self.section_id().number(),
    ;

    /// Writes the section, but for its number, behind what is in `sink`.
    ///
    /// The section must have fewer than 2<sup>32</sup> bytes.
    fn encode(&self, sink: &mut Vec<u8>)
        requires
            self.written().contents().len() <= u32::MAX,
        ensures
            final(sink)@ == old(sink)@ + self.written().encoded(),
    ;
}

/// Writes a section with so many items.
fn write_section(bytes: &Vec<u8>, num_added: u32, sink: &mut Vec<u8>)
    requires
        (Written { bytes: bytes@, count: num_added }).contents().len() <= u32::MAX,
    ensures
        final(sink)@ == old(sink)@ + (Written { bytes: bytes@, count: num_added }).encoded(),
{
    let ghost written = Written { bytes: bytes@, count: num_added };
    let mut count: Vec<u8> = Vec::new();
    write_u32(&mut count, num_added);
    assert(count@ =~= leb(num_added as nat));
    assert(written.contents().len() == count@.len() + bytes@.len());
    write_u32(sink, (count.len() + bytes.len()) as u32);
    sink.extend_from_slice(&count);
    sink.extend_from_slice(bytes);
    assert(sink@ =~= old(sink)@ + written.encoded());
}

} // verus!
