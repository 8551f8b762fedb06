//! The parts of a binary, one behind the other.

use crate::error::{error_at, viewed, word_error_at, BinaryReaderError, Result};
use crate::limits::MAX_WASM_MODULE_SIZE;
use crate::reader::binary_reader::{BinaryReader, Cursor, Range};
use crate::reader::component::exports::ComponentExportSectionReader;
use crate::reader::component::items::ComponentStartSectionReader;
use crate::reader::sections::{
    parse_section, AliasSectionReader, ComponentFunctionSectionReader, ComponentImportSectionReader,
    ComponentTypeSectionReader, DataSectionReader, ElementSectionReader, ExportSectionReader,
    FunctionBody, FunctionSectionReader, GlobalSectionReader, ImportSectionReader,
    InstanceSectionReader, MemorySectionReader, SectionView, TableSectionReader, TagSectionReader,
    TypeSectionReader,
};
use vstd::prelude::*;

verus! {

/// The version of the binary format of modules.
pub const WASM_MODULE_VERSION: u32 = 0x1;

/// The version of the binary format of components.
pub const WASM_COMPONENT_VERSION: u32 = 0x1_000a;

/// What a binary holds.
#[derive(Debug, Copy, Clone, PartialEq, Eq, Structural)]
pub enum Encoding {
    /// A module.
    Module,
    /// A component.
    Component,
}

/// What comes next in a binary.
#[derive(Debug, Copy, Clone, PartialEq, Eq, Structural)]
pub enum ParserState {
    /// The header.
    Header,
    /// A section.
    SectionStart,
    /// The body of a function.
    FunctionBody {
        /// How many bodies are still to come.
        remaining: u32,
        /// How many bytes of the code section are left.
        len: u32,
    },
}

/// Reads the parts of a binary.
#[derive(Debug, Copy, Clone, PartialEq, Eq, Structural)]
pub struct Parser {
    /// What comes next.
    pub state: ParserState,
    /// The offset of the binary in the one that it is in.
    pub offset: usize,
    /// How many bytes the binary can still have.
    pub max_size: u64,
    /// What the binary holds, once the header has been read.
    pub encoding: Encoding,
}

/// A section with items.
#[derive(Debug, Copy, Clone, PartialEq, Eq, Structural)]
pub enum SectionKind {
    Type,
    Import,
    Function,
    Table,
    Memory,
    Tag,
    Global,
    Export,
    Element,
    Data,
    ComponentType,
    ComponentImport,
    ComponentFunction,
    Instance,
    ComponentExport,
    Alias,
}

/// A part of a binary.
pub enum Payload<'a> {
    /// The header.
    Version {
        /// The version.
        num: u32,
        /// What the binary holds.
        encoding: Encoding,
        /// The offsets of the header.
        range: Range,
    },
    /// The type section of a module.
    TypeSection(TypeSectionReader<'a>),
    /// The import section of a module.
    ImportSection(ImportSectionReader<'a>),
    /// The function section of a module.
    FunctionSection(FunctionSectionReader<'a>),
    /// The table section of a module.
    TableSection(TableSectionReader<'a>),
    /// The memory section of a module.
    MemorySection(MemorySectionReader<'a>),
    /// The tag section of a module.
    TagSection(TagSectionReader<'a>),
    /// The global section of a module.
    GlobalSection(GlobalSectionReader<'a>),
    /// The export section of a module.
    ExportSection(ExportSectionReader<'a>),
    /// The start section of a module.
    StartSection {
        /// The index of the start function.
        func: u32,
        /// The offsets of the section.
        range: Range,
    },
    /// The element section of a module.
    ElementSection(ElementSectionReader<'a>),
    /// The data count section of a module.
    DataCountSection {
        /// How many data segments there are.
        count: u32,
        /// The offsets of the section.
        range: Range,
    },
    /// The data section of a module.
    DataSection(DataSectionReader<'a>),
    /// The start of the code section of a module.
    CodeSectionStart {
        /// How many functions bodies there are.
        count: u32,
        /// The offsets of the section.
        range: Range,
        /// How many bytes all the bodies have.
        size: u32,
    },
    /// The body of a function.
    CodeSectionEntry(FunctionBody<'a>),
    /// The type section of a component.
    ComponentTypeSection(ComponentTypeSectionReader<'a>),
    /// The import section of a component.
    ComponentImportSection(ComponentImportSectionReader<'a>),
    /// The function section of a component.
    ComponentFunctionSection(ComponentFunctionSectionReader<'a>),
    /// A module in a component.
    ModuleSection {
        /// The parser of the module.
        parser: Parser,
        /// The offsets of the module.
        range: Range,
    },
    /// A component in a component.
    ComponentSection {
        /// The parser of the component.
        parser: Parser,
        /// The offsets of the component.
        range: Range,
    },
    /// The instance section of a component.
    InstanceSection(InstanceSectionReader<'a>),
    /// The export section of a component.
    ComponentExportSection(ComponentExportSectionReader<'a>),
    /// The start section of a component.
    ComponentStartSection(ComponentStartSectionReader<'a>),
    /// The alias section of a component.
    AliasSection(AliasSectionReader<'a>),
    /// A section that means nothing to validation.
    CustomSection {
        /// The name.
        name: &'a str,
        /// The offset of the bytes behind the name.
        data_offset: usize,
        /// The bytes behind the name.
        data: &'a [u8],
        /// The offsets of the section.
        range: Range,
    },
    /// A section that is not known.
    UnknownSection {
        /// The number of the section.
        id: u8,
        /// The bytes of the section.
        contents: &'a [u8],
        /// The offsets of the section.
        range: Range,
    },
    /// The end, at an offset.
    End(usize),
}

/// What a [`Payload`] holds.
pub enum PayloadView {
    /// The header.
    Version {
        /// The version.
        num: u32,
        /// What the binary holds.
        encoding: Encoding,
        /// The offsets of the header.
        range: Range,
    },
    /// A section with items.
    Section(SectionKind, SectionView),
    /// The start section of a module.
    StartSection {
        /// The index of the start function.
        func: u32,
        /// The offsets of the section.
        range: Range,
    },
    /// The data count section of a module.
    DataCountSection {
        /// How many data segments there are.
        count: u32,
        /// The offsets of the section.
        range: Range,
    },
    /// The start of the code section of a module.
    CodeSectionStart {
        /// How many functions bodies there are.
        count: u32,
        /// The offsets of the section.
        range: Range,
        /// How many bytes all the bodies have.
        size: u32,
    },
    /// The body of a function.
    CodeSectionEntry(Cursor),
    /// A module in a component.
    ModuleSection {
        /// The parser of the module.
        parser: Parser,
        /// The offsets of the module.
        range: Range,
    },
    /// A component in a component.
    ComponentSection {
        /// The parser of the component.
        parser: Parser,
        /// The offsets of the component.
        range: Range,
    },
    /// The start section of a component.
    ComponentStartSection(Cursor),
    /// A section that means nothing to validation.
    CustomSection {
        /// The name.
        name: Seq<char>,
        /// The offset of the bytes behind the name.
        data_offset: usize,
        /// The bytes behind the name.
        data: Seq<u8>,
        /// The offsets of the section.
        range: Range,
    },
    /// A section that is not known.
    UnknownSection {
        /// The number of the section.
        id: u8,
        /// The bytes of the section.
        contents: Seq<u8>,
        /// The offsets of the section.
        range: Range,
    },
    /// The end, at an offset.
    End(usize),
}

impl<'a> View for Payload<'a> {
    type V = PayloadView;

    open spec fn view(&self) -> PayloadView {
        match self {
            Payload::Version { num, encoding, range } => PayloadView::Version {
                num: *num,
                encoding: *encoding,
                range: *range,
            },
            Payload::TypeSection(s) => PayloadView::Section(SectionKind::Type, s@),
            Payload::ImportSection(s) => PayloadView::Section(SectionKind::Import, s@),
            Payload::FunctionSection(s) => PayloadView::Section(SectionKind::Function, s@),
            Payload::TableSection(s) => PayloadView::Section(SectionKind::Table, s@),
            Payload::MemorySection(s) => PayloadView::Section(SectionKind::Memory, s@),
            Payload::TagSection(s) => PayloadView::Section(SectionKind::Tag, s@),
            Payload::GlobalSection(s) => PayloadView::Section(SectionKind::Global, s@),
            Payload::ExportSection(s) => PayloadView::Section(SectionKind::Export, s@),
            Payload::StartSection { func, range } => PayloadView::StartSection {
                func: *func,
                range: *range,
            },
            Payload::ElementSection(s) => PayloadView::Section(SectionKind::Element, s@),
            Payload::DataCountSection { count, range } => PayloadView::DataCountSection {
                count: *count,
                range: *range,
            },
            Payload::DataSection(s) => PayloadView::Section(SectionKind::Data, s@),
            Payload::CodeSectionStart { count, range, size } => PayloadView::CodeSectionStart {
                count: *count,
                range: *range,
                size: *size,
            },
            Payload::CodeSectionEntry(body) => PayloadView::CodeSectionEntry(body@),
            Payload::ComponentTypeSection(s) => PayloadView::Section(
                SectionKind::ComponentType,
                s@,
            ),
            Payload::ComponentImportSection(s) => PayloadView::Section(
                SectionKind::ComponentImport,
                s@,
            ),
            Payload::ComponentFunctionSection(s) => PayloadView::Section(
                SectionKind::ComponentFunction,
                s@,
            ),
            Payload::ModuleSection { parser, range } => PayloadView::ModuleSection {
                parser: *parser,
                range: *range,
            },
            Payload::ComponentSection { parser, range } => PayloadView::ComponentSection {
                parser: *parser,
                range: *range,
            },
            Payload::InstanceSection(s) => PayloadView::Section(SectionKind::Instance, s@),
            Payload::ComponentExportSection(s) => PayloadView::Section(
                SectionKind::ComponentExport,
                s@,
            ),
            Payload::ComponentStartSection(s) => PayloadView::ComponentStartSection(s@),
            Payload::AliasSection(s) => PayloadView::Section(SectionKind::Alias, s@),
            Payload::CustomSection { name, data_offset, data, range } =>
            PayloadView::CustomSection {
                name: name@,
                data_offset: *data_offset,
                data: data@,
                range: *range,
            },
            Payload::UnknownSection { id, contents, range } => PayloadView::UnknownSection {
                id: *id,
                contents: contents@,
                range: *range,
            },
            Payload::End(offset) => PayloadView::End(*offset),
        }
    }
}

impl PayloadView {
    /// Every place in the part lies in its bytes.
    pub open spec fn wf(self) -> bool {
        match self {
            PayloadView::Section(_, section) => section.cursor.wf(),
            PayloadView::CodeSectionEntry(body) => body.wf(),
            PayloadView::ComponentStartSection(section) => section.wf(),
            _ => true,
        }
    }
}

/// The kind of the section with a number that has items, if it has items.
pub open spec fn section_kind(encoding: Encoding, id: u8) -> Option<SectionKind> {
    match encoding {
        Encoding::Module => if id == 1 {
            Some(SectionKind::Type)
        } else if id == 2 {
            Some(SectionKind::Import)
        } else if id == 3 {
            Some(SectionKind::Function)
        } else if id == 4 {
            Some(SectionKind::Table)
        } else if id == 5 {
            Some(SectionKind::Memory)
        } else if id == 6 {
            Some(SectionKind::Global)
        } else if id == 7 {
            Some(SectionKind::Export)
        } else if id == 9 {
            Some(SectionKind::Element)
        } else if id == 11 {
            Some(SectionKind::Data)
        } else if id == 13 {
            Some(SectionKind::Tag)
        } else {
            None
        },
        Encoding::Component => if id == 1 {
            Some(SectionKind::ComponentType)
        } else if id == 2 {
            Some(SectionKind::ComponentImport)
        } else if id == 3 {
            Some(SectionKind::ComponentFunction)
        } else if id == 6 {
            Some(SectionKind::Instance)
        } else if id == 7 {
            Some(SectionKind::ComponentExport)
        } else if id == 9 {
            Some(SectionKind::Alias)
        } else {
            None
        },
    }
}

/// The offsets of the next `len` bytes.
pub open spec fn range_of(c: Cursor, len: u32) -> Range {
    Range { start: c.offset() as usize, end: (c.offset() + len) as usize }
}

/// One number in a section of `len` bytes; `what` names the section.
pub open spec fn parse_single_u32(c: Cursor, len: u32, what: &'static str) -> (
    Cursor,
    Result<u32>,
) {
    match c.take(len as int) {
        (d, Err(e)) => (d, Err(e)),
        (d, Ok(bytes)) => match Cursor::start(bytes, c.offset()).var_u32() {
            (f, Err(e)) => (d, Err(e)),
            (f, Ok(n)) => if f.left() > 0 {
                (
                    d,
                    Err(word_error_at("unexpected content in the ", what, " section", f.offset())),
                )
            } else {
                (d, Ok(n))
            },
        },
    }
}

/// A section of `len` bytes that means nothing to validation.
pub open spec fn parse_custom(c: Cursor, len: u32) -> (Cursor, Result<PayloadView>) {
    match c.take(len as int) {
        (d, Err(e)) => (d, Err(e)),
        (d, Ok(bytes)) => match Cursor::start(bytes, c.offset()).string() {
            (f, Err(e)) => (d, Err(e)),
            (f, Ok(name)) => (
                d,
                Ok(
                    PayloadView::CustomSection {
                        name,
                        data_offset: f.offset() as usize,
                        data: f.rest(),
                        range: range_of(c, len),
                    },
                ),
            ),
        },
    }
}

/// A section of `len` bytes with items.
pub open spec fn parse_items(c: Cursor, len: u32, kind: SectionKind) -> (
    Cursor,
    Result<PayloadView>,
) {
    match c.take(len as int) {
        (d, Err(e)) => (d, Err(e)),
        (d, Ok(bytes)) => match parse_section(bytes, c.offset()) {
            Err(e) => (d, Err(e)),
            Ok(section) => (d, Ok(PayloadView::Section(kind, section))),
        },
    }
}

impl Parser {
    /// A parser of a binary that stands at an offset.
    pub open spec fn start(offset: usize, max_size: u64) -> Parser {
        Parser {
            state: ParserState::Header,
            offset,
            max_size,
            encoding: Encoding::Module,
        }
    }

    /// The header.
    pub open spec fn header(self, c: Cursor) -> (Parser, Cursor, Result<PayloadView>) {
        match c.take(4) {
            (d, Err(e)) => (self, d, Err(e)),
            (d, Ok(magic)) => if magic != seq![0x00u8, 0x61, 0x73, 0x6d] {
                (
                    self,
                    d,
                    Err(error_at("magic header not detected: bad magic number", c.offset())),
                )
            } else {
                match d.fixed_u32() {
                    (f, Err(e)) => (self, f, Err(e)),
                    (f, Ok(num)) => if num / 0x1_0000 > 1 {
                        (self, f, Err(error_at("unknown binary version", d.offset())))
                    } else {
                        let encoding = if num / 0x1_0000 == 0 {
                            Encoding::Module
                        } else {
                            Encoding::Component
                        };
                        (
                            Parser { state: ParserState::SectionStart, encoding, ..self },
                            f,
                            Ok(
                                PayloadView::Version {
                                    num,
                                    encoding,
                                    range: Range {
                                        start: c.offset() as usize,
                                        end: f.offset() as usize,
                                    },
                                },
                            ),
                        )
                    },
                }
            },
        }
    }

    /// The start of the code section.
    pub open spec fn code_start(self, c: Cursor, len: u32) -> (
        Parser,
        Cursor,
        Result<PayloadView>,
    ) {
        match c.var_u32() {
            (d, Err(e)) => (self, d, Err(e)),
            (d, Ok(count)) => if d.pos - c.pos > len {
                (self, d, Err(error_at("unexpected end-of-file", c.offset())))
            } else {
                let size = (len - (d.pos - c.pos)) as u32;
                (
                    Parser { state: ParserState::FunctionBody { remaining: count, len: size }, ..self },
                    d,
                    Ok(
                        PayloadView::CodeSectionStart {
                            count,
                            range: Range {
                                start: c.offset() as usize,
                                end: (d.offset() + size) as usize,
                            },
                            size,
                        },
                    ),
                )
            },
        }
    }

    /// The body of a function; `remaining` are still to come, in `len` bytes.
    pub open spec fn body(self, c: Cursor, remaining: u32, len: u32) -> (
        Parser,
        Cursor,
        Result<PayloadView>,
    ) {
        match c.var_u32() {
            (d, Err(e)) => (self, d, Err(e)),
            (d, Ok(size)) => match d.take(size as int) {
                (f, Err(e)) => (self, f, Err(e)),
                (f, Ok(bytes)) => if f.pos - c.pos > len {
                    (self, f, Err(error_at("unexpected end-of-file", c.offset())))
                } else {
                    (
                        Parser {
                            state: ParserState::FunctionBody {
                                remaining: (remaining - 1) as u32,
                                len: (len - (f.pos - c.pos)) as u32,
                            },
                            ..self
                        },
                        f,
                        Ok(PayloadView::CodeSectionEntry(Cursor::start(bytes, d.offset()))),
                    )
                },
            },
        }
    }

    /// A section with a number and of a length.
    pub open spec fn section(self, c: Cursor, id: u8, len: u32) -> (
        Parser,
        Cursor,
        Result<PayloadView>,
    ) {
        if id == 0 {
            let (d, r) = parse_custom(c, len);
            (self, d, r)
        } else if section_kind(self.encoding, id) is Some {
            let (d, r) = parse_items(c, len, section_kind(self.encoding, id)->0);
            (self, d, r)
        } else if self.encoding == Encoding::Module && id == 8 {
            match parse_single_u32(c, len, "start") {
                (d, Err(e)) => (self, d, Err(e)),
                (d, Ok(func)) => (
                    self,
                    d,
                    Ok(PayloadView::StartSection { func, range: range_of(c, len) }),
                ),
            }
        } else if self.encoding == Encoding::Module && id == 12 {
            match parse_single_u32(c, len, "data count") {
                (d, Err(e)) => (self, d, Err(e)),
                (d, Ok(count)) => (
                    self,
                    d,
                    Ok(PayloadView::DataCountSection { count, range: range_of(c, len) }),
                ),
            }
        } else if self.encoding == Encoding::Module && id == 10 {
            self.code_start(c, len)
        } else if self.encoding == Encoding::Component && (id == 4 || id == 5) {
            if len > MAX_WASM_MODULE_SIZE {
                (
                    self,
                    c,
                    Err(
                        word_error_at(
                            "",
                            if id == 4 {
                                "module"
                            } else {
                                "component"
                            },
                            " section is too large",
                            c.offset(),
                        ),
                    ),
                )
            } else {
                let parser = Parser::start(c.offset() as usize, len as u64);
                (
                    Parser { max_size: (self.max_size - len) as u64, ..self },
                    c,
                    Ok(
                        if id == 4 {
                            PayloadView::ModuleSection { parser, range: range_of(c, len) }
                        } else {
                            PayloadView::ComponentSection { parser, range: range_of(c, len) }
                        },
                    ),
                )
            }
        } else if self.encoding == Encoding::Component && id == 8 {
            match c.take(len as int) {
                (d, Err(e)) => (self, d, Err(e)),
                (d, Ok(bytes)) => (
                    self,
                    d,
                    Ok(PayloadView::ComponentStartSection(Cursor::start(bytes, c.offset()))),
                ),
            }
        } else {
            match c.take(len as int) {
                (d, Err(e)) => (self, d, Err(e)),
                (d, Ok(contents)) => (
                    self,
                    d,
                    Ok(PayloadView::UnknownSection { id, contents, range: range_of(c, len) }),
                ),
            }
        }
    }

    /// The next section, or the end.
    pub open spec fn section_start(self, c: Cursor) -> (Parser, Cursor, Result<PayloadView>) {
        if c.left() == 0 {
            (self, c, Ok(PayloadView::End(c.offset() as usize)))
        } else {
            match c.byte() {
                (d, Err(e)) => (self, d, Err(e)),
                (d, Ok(id)) => if id >= 0x80 {
                    (self, d, Err(error_at("malformed section id", c.offset())))
                } else {
                    match d.var_u32() {
                        (f, Err(e)) => (self, f, Err(e)),
                        (f, Ok(len)) => if f.pos - c.pos + len > self.max_size {
                            (self, f, Err(error_at("section too large", d.offset())))
                        } else if len > f.left() {
                            (self, f, Err(f.end_of_file()))
                        } else {
                            self.section(f, id, len)
                        },
                    }
                },
            }
        }
    }

    /// What stands at a place.
    #[verifier::opaque]
    pub open spec fn parse(self, c: Cursor) -> (Parser, Cursor, Result<PayloadView>) {
        match self.state {
            ParserState::Header => self.header(c),
            ParserState::SectionStart => self.section_start(c),
            ParserState::FunctionBody { remaining, len } => if remaining > 0 {
                self.body(c, remaining, len)
            } else if len == 0 {
                Parser { state: ParserState::SectionStart, ..self }.section_start(c)
            } else {
                (self, c, Err(error_at("trailing bytes at end of section", c.offset())))
            },
        }
    }
}

fn read_single_u32(reader: &mut BinaryReader<'_>, len: u32, what: &'static str) -> (result: Result<
    u32,
>)
    requires
        old(reader)@.wf(),
    ensures
        final(reader)@.wf(),
        final(reader)@.follows(old(reader)@),
        (final(reader)@, result) == parse_single_u32(old(reader)@, len, what),
{
    let offset = reader.original_position();
    let bytes = reader.read_bytes(len as usize)?;
    let mut content = BinaryReader::new_with_offset(bytes, offset);
    let n = content.read_var_u32()?;
    if !content.eof() {
        return Err(
            BinaryReaderError::with_word(
                "unexpected content in the ",
                what,
                " section",
                content.original_position(),
            ),
        );
    }
    Ok(n)
}

fn read_custom<'a>(reader: &mut BinaryReader<'a>, len: u32) -> (result: Result<Payload<'a>>)
    requires
        old(reader)@.wf(),
        len <= old(reader)@.left(),
    ensures
        final(reader)@.wf(),
        final(reader)@.follows(old(reader)@),
        (final(reader)@, viewed(result)) == parse_custom(old(reader)@, len),
{
    let offset = reader.original_position();
    let range = Range { start: offset, end: offset + len as usize };
    let bytes = reader.read_bytes(len as usize)?;
    let mut content = BinaryReader::new_with_offset(bytes, offset);
    let name = content.read_string()?;
    let data_offset = content.original_position();
    let left = content.bytes_remaining();
    let ghost rest = content@;
    let data = content.read_bytes(left)?;
    assert(data@ =~= rest.rest());
    Ok(Payload::CustomSection { name, data_offset, data, range })
}

fn read_items<'a>(reader: &mut BinaryReader<'a>, len: u32, encoding: Encoding, id: u8) -> (result:
    Result<Payload<'a>>)
    requires
        old(reader)@.wf(),
        section_kind(encoding, id) is Some,
    ensures
        final(reader)@.wf(),
        final(reader)@.follows(old(reader)@),
        (final(reader)@, viewed(result)) == parse_items(
            old(reader)@,
            len,
            section_kind(encoding, id)->0,
        ),
        result matches Ok(payload) ==> payload@.wf(),
{
    let offset = reader.original_position();
    let bytes = reader.read_bytes(len as usize)?;
    match (encoding, id) {
        (Encoding::Module, 1) => Ok(Payload::TypeSection(TypeSectionReader::new(bytes, offset)?)),
        (Encoding::Module, 2) => Ok(
            Payload::ImportSection(ImportSectionReader::new(bytes, offset)?),
        ),
        (Encoding::Module, 3) => Ok(
            Payload::FunctionSection(FunctionSectionReader::new(bytes, offset)?),
        ),
        (Encoding::Module, 4) => Ok(Payload::TableSection(TableSectionReader::new(bytes, offset)?)),
        (Encoding::Module, 5) => Ok(
            Payload::MemorySection(MemorySectionReader::new(bytes, offset)?),
        ),
        (Encoding::Module, 6) => Ok(
            Payload::GlobalSection(GlobalSectionReader::new(bytes, offset)?),
        ),
        (Encoding::Module, 7) => Ok(
            Payload::ExportSection(ExportSectionReader::new(bytes, offset)?),
        ),
        (Encoding::Module, 9) => Ok(
            Payload::ElementSection(ElementSectionReader::new(bytes, offset)?),
        ),
        (Encoding::Module, 11) => Ok(Payload::DataSection(DataSectionReader::new(bytes, offset)?)),
        (Encoding::Module, _) => Ok(Payload::TagSection(TagSectionReader::new(bytes, offset)?)),
        (Encoding::Component, 1) => Ok(
            Payload::ComponentTypeSection(ComponentTypeSectionReader::new(bytes, offset)?),
        ),
        (Encoding::Component, 2) => Ok(
            Payload::ComponentImportSection(ComponentImportSectionReader::new(bytes, offset)?),
        ),
        (Encoding::Component, 3) => Ok(
            Payload::ComponentFunctionSection(ComponentFunctionSectionReader::new(bytes, offset)?),
        ),
        (Encoding::Component, 6) => Ok(
            Payload::InstanceSection(InstanceSectionReader::new(bytes, offset)?),
        ),
        (Encoding::Component, 7) => Ok(
            Payload::ComponentExportSection(ComponentExportSectionReader::new(bytes, offset)?),
        ),
        (Encoding::Component, _) => Ok(
            Payload::AliasSection(AliasSectionReader::new(bytes, offset)?),
        ),
    }
}

fn has_items(encoding: Encoding, id: u8) -> (yes: bool)
    ensures
        yes == (section_kind(encoding, id) is Some),
{
    match encoding {
        Encoding::Module => (1 <= id && id <= 7) || id == 9 || id == 11 || id == 13,
        Encoding::Component => (1 <= id && id <= 3) || id == 6 || id == 7 || id == 9,
    }
}

impl Parser {
    /// Creates a parser of a binary that starts at an offset.
    pub fn new(offset: usize) -> (parser: Parser)
        ensures
            parser == Parser::start(offset, u64::MAX),
    {
        Parser { state: ParserState::Header, offset, max_size: u64::MAX, encoding: Encoding::Module }
    }

    fn read_header<'a>(&mut self, reader: &mut BinaryReader<'a>) -> (result: Result<Payload<'a>>)
        requires
            old(reader)@.wf(),
        ensures
            final(reader)@.wf(),
            final(reader)@.follows(old(reader)@),
            (*final(self), final(reader)@, viewed(result)) == old(self).header(old(reader)@),
            result is Ok ==> final(reader)@.pos > old(reader)@.pos,
    {
        let start = reader.original_position();
        let magic = reader.read_bytes(4)?;
        if magic[0] != 0x00 || magic[1] != 0x61 || magic[2] != 0x73 || magic[3] != 0x6d {
            proof {
                let expected = seq![0x00u8, 0x61, 0x73, 0x6d];
                assert(magic@ != expected) by {
                    assert(expected[0] == 0x00 && expected[1] == 0x61 && expected[2] == 0x73
                        && expected[3] == 0x6d);
                }
            }
            return Err(
                BinaryReaderError::new("magic header not detected: bad magic number", start),
            );
        }
        assert(magic@ =~= seq![0x00u8, 0x61, 0x73, 0x6d]);
        let offset = reader.original_position();
        let num = reader.read_u32()?;
        let encoding = match num / 0x1_0000 {
            0 => Encoding::Module,
            1 => Encoding::Component,
            _ => {
                return Err(BinaryReaderError::new("unknown binary version", offset));
            },
        };
        self.encoding = encoding;
        self.state = ParserState::SectionStart;
        Ok(
            Payload::Version {
                num,
                encoding,
                range: Range { start, end: reader.original_position() },
            },
        )
    }

    fn read_code_start<'a>(&mut self, reader: &mut BinaryReader<'a>, len: u32) -> (result: Result<
        Payload<'a>,
    >)
        requires
            old(reader)@.wf(),
            len <= old(reader)@.left(),
        ensures
            final(reader)@.wf(),
            final(reader)@.follows(old(reader)@),
            (*final(self), final(reader)@, viewed(result)) == old(self).code_start(
                old(reader)@,
                len,
            ),
            result is Ok ==> final(reader)@.pos > old(reader)@.pos,
    {
        let start = reader.original_position();
        let before = reader.current_position();
        let count = reader.read_var_u32()?;
        let consumed = reader.current_position() - before;
        if consumed > len as usize {
            return Err(BinaryReaderError::new("unexpected end-of-file", start));
        }
        let size = len - consumed as u32;
        let range = Range { start, end: reader.original_position() + size as usize };
        self.state = ParserState::FunctionBody { remaining: count, len: size };
        Ok(Payload::CodeSectionStart { count, range, size })
    }

    fn read_body<'a>(&mut self, reader: &mut BinaryReader<'a>, remaining: u32, len: u32) -> (result:
        Result<Payload<'a>>)
        requires
            old(reader)@.wf(),
            remaining > 0,
        ensures
            final(reader)@.wf(),
            final(reader)@.follows(old(reader)@),
            (*final(self), final(reader)@, viewed(result)) == old(self).body(
                old(reader)@,
                remaining,
                len,
            ),
            result is Ok ==> final(reader)@.pos > old(reader)@.pos,
            result matches Ok(payload) ==> payload@.wf(),
    {
        let start = reader.original_position();
        let before = reader.current_position();
        let size = reader.read_var_u32()?;
        let offset = reader.original_position();
        let bytes = reader.read_bytes(size as usize)?;
        let consumed = reader.current_position() - before;
        if consumed > len as usize {
            return Err(BinaryReaderError::new("unexpected end-of-file", start));
        }
        self.state = ParserState::FunctionBody {
            remaining: remaining - 1,
            len: len - consumed as u32,
        };
        Ok(Payload::CodeSectionEntry(FunctionBody::new(offset, bytes)))
    }

    fn read_section<'a>(&mut self, reader: &mut BinaryReader<'a>, id: u8, len: u32) -> (result:
        Result<Payload<'a>>)
        requires
            old(reader)@.wf(),
            len <= old(reader)@.left(),
            len <= old(self).max_size,
        ensures
            final(reader)@.wf(),
            final(reader)@.follows(old(reader)@),
            (*final(self), final(reader)@, viewed(result)) == old(self).section(
                old(reader)@,
                id,
                len,
            ),
            result matches Ok(payload) ==> payload@.wf(),
    {
        let offset = reader.original_position();
        let range = Range { start: offset, end: offset + len as usize };
        if id == 0 {
            return read_custom(reader, len);
        }
        if has_items(self.encoding, id) {
            return read_items(reader, len, self.encoding, id);
        }
        match (self.encoding, id) {
            (Encoding::Module, 8) => {
                let func = read_single_u32(reader, len, "start")?;
                Ok(Payload::StartSection { func, range })
            },
            (Encoding::Module, 12) => {
                let count = read_single_u32(reader, len, "data count")?;
                Ok(Payload::DataCountSection { count, range })
            },
            (Encoding::Module, 10) => self.read_code_start(reader, len),
            (Encoding::Component, 4) => {
                if len as usize > MAX_WASM_MODULE_SIZE {
                    return Err(
                        BinaryReaderError::with_word(
                            "",
                            "module",
                            " section is too large",
                            offset,
                        ),
                    );
                }
                self.max_size = self.max_size - len as u64;
                let mut parser = Parser::new(offset);
                parser.max_size = len as u64;
                Ok(Payload::ModuleSection { parser, range })
            },
            (Encoding::Component, 5) => {
                if len as usize > MAX_WASM_MODULE_SIZE {
                    return Err(
                        BinaryReaderError::with_word(
                            "",
                            "component",
                            " section is too large",
                            offset,
                        ),
                    );
                }
                self.max_size = self.max_size - len as u64;
                let mut parser = Parser::new(offset);
                parser.max_size = len as u64;
                Ok(Payload::ComponentSection { parser, range })
            },
            (Encoding::Component, 8) => {
                let bytes = reader.read_bytes(len as usize)?;
                Ok(Payload::ComponentStartSection(ComponentStartSectionReader::new(bytes, offset)))
            },
            _ => {
                let contents = reader.read_bytes(len as usize)?;
                Ok(Payload::UnknownSection { id, contents, range })
            },
        }
    }

    fn read_section_start<'a>(&mut self, reader: &mut BinaryReader<'a>) -> (result: Result<
        Payload<'a>,
    >)
        requires
            old(reader)@.wf(),
        ensures
            final(reader)@.wf(),
            final(reader)@.follows(old(reader)@),
            (*final(self), final(reader)@, viewed(result)) == old(self).section_start(
                old(reader)@,
            ),
            result matches Ok(payload) ==> payload@ is End || final(reader)@.pos
                > old(reader)@.pos,
            result is Ok && old(reader)@.left() <= old(self).max_size ==> final(reader)@.pos
                - old(reader)@.pos <= final(self).max_size,
            result matches Ok(payload) ==> payload@.wf(),
    {
        let start = reader.current_position();
        let id_offset = reader.original_position();
        if reader.eof() {
            return Ok(Payload::End(id_offset));
        }
        let id = reader.read_u8()?;
        if id >= 0x80 {
            return Err(BinaryReaderError::new("malformed section id", id_offset));
        }
        let len_offset = reader.original_position();
        let len = reader.read_var_u32()?;
        let consumed = (reader.current_position() - start) as u64;
        // Test that the section fits into what is left of the binary, which
        // matters for one that is in another.
        if consumed > self.max_size || len as u64 > self.max_size - consumed {
            return Err(BinaryReaderError::new("section too large", len_offset));
        }
        if len as usize > reader.bytes_remaining() {
            return Err(BinaryReaderError::new("Unexpected EOF", reader.original_position()));
        }
        self.read_section(reader, id, len)
    }

    /// Reads what comes next.
    pub fn read<'a>(&mut self, reader: &mut BinaryReader<'a>) -> (result: Result<Payload<'a>>)
        requires
            old(reader)@.wf(),
        ensures
            final(reader)@.wf(),
            final(reader)@.follows(old(reader)@),
            (*final(self), final(reader)@, viewed(result)) == old(self).parse(old(reader)@),
            result matches Ok(payload) ==> (payload@ is ModuleSection || payload@ is ComponentSection)
                ==> final(self).state == ParserState::SectionStart,
            result matches Ok(payload) ==> payload@ is End || final(reader)@.pos
                > old(reader)@.pos,
            result is Ok && old(reader)@.left() <= old(self).max_size ==> final(reader)@.pos
                - old(reader)@.pos <= final(self).max_size,
            result matches Ok(payload) ==> payload@.wf(),
    {
        reveal(Parser::parse);
        match self.state {
            ParserState::Header => self.read_header(reader),
            ParserState::SectionStart => self.read_section_start(reader),
            ParserState::FunctionBody { remaining, len } => {
                if remaining > 0 {
                    self.read_body(reader, remaining, len)
                } else if len == 0 {
                    self.state = ParserState::SectionStart;
                    self.read_section_start(reader)
                } else {
                    Err(
                        BinaryReaderError::new(
                            "trailing bytes at end of section",
                            reader.original_position(),
                        ),
                    )
                }
            },
        }
    }
}

impl Parser {
    /// Function bodies come only in the code section, behind its start; and where
    /// another binary starts, its header comes next.
    pub proof fn lemma_states(self, c: Cursor)
        ensures
            match self.parse(c) {
                (_, _, Err(_)) => true,
                (parser, _, Ok(payload)) => {
                    &&& payload is Version <==> self.state is Header
                    &&& parser.state !is Header
                    &&& payload is CodeSectionEntry ==> self.state is FunctionBody
                    &&& parser.state is FunctionBody ==> payload is CodeSectionStart
                        || payload is CodeSectionEntry
                    &&& payload matches PayloadView::ModuleSection { parser: inner, .. }
                        ==> inner.state == ParserState::Header
                    &&& payload matches PayloadView::ComponentSection { parser: inner, .. }
                        ==> inner.state == ParserState::Header
                },
            },
    {
        reveal(Parser::parse);
    }
}

/// Goes through all parts of a binary and of those in it.
pub struct ParseAll<'a> {
    data: &'a [u8],
    position: usize,
    offset: usize,
    current: Parser,
    stack: Vec<Parser>,
    done: bool,
}

/// What a [`ParseAll`] holds.
#[verifier::ext_equal]
pub struct ParseView {
    /// The bytes of the binary.
    pub bytes: Seq<u8>,
    /// How many of them have been read.
    pub pos: int,
    /// The offset of the first byte.
    pub base: int,
    /// The parser of what is read now.
    pub current: Parser,
    /// The parsers of the binaries that what is read now is in.
    pub stack: Seq<Parser>,
    /// Nothing more comes.
    pub done: bool,
}

impl<'a> View for ParseAll<'a> {
    type V = ParseView;

    closed spec fn view(&self) -> ParseView {
        ParseView {
            bytes: self.data@,
            pos: self.position as int,
            base: self.offset as int,
            current: self.current,
            stack: self.stack@,
            done: self.done,
        }
    }
}

impl ParseView {
    /// The start of a binary.
    pub open spec fn start(parser: Parser, bytes: Seq<u8>) -> ParseView {
        ParseView {
            bytes,
            pos: 0,
            base: parser.offset as int,
            current: parser,
            stack: Seq::empty(),
            done: false,
        }
    }

    /// The place lies in the bytes, and only where a section starts can there be
    /// another binary.
    pub open spec fn wf(self) -> bool {
        &&& 0 <= self.pos <= self.bytes.len()
        &&& 0 <= self.base
        &&& self.base + self.bytes.len() <= usize::MAX
        &&& forall|i: int|
            0 <= i < self.stack.len() ==> (#[trigger] self.stack[i]).state
                == ParserState::SectionStart
    }

    /// How many bytes the parser of what is read now can see.
    pub open spec fn visible(self) -> int {
        if self.bytes.len() - self.pos <= self.current.max_size {
            self.bytes.len() - self.pos
        } else {
            self.current.max_size as int
        }
    }

    /// The bytes that the parser of what is read now can see.
    pub open spec fn window(self) -> Cursor {
        Cursor::start(
            self.bytes.subrange(self.pos, self.pos + self.visible()),
            self.base + self.pos,
        )
    }

    /// How much is still to come: ends, and bytes, each of which can bring one more end.
    pub open spec fn left(self) -> nat {
        (2 * (self.bytes.len() - self.pos) + self.stack.len() + if self.done {
            0int
        } else {
            1int
        }) as nat
    }

    /// The state behind a part of the binary that is `consumed` bytes long.
    pub open spec fn behind(self, payload: PayloadView, parser: Parser, consumed: int) -> ParseView {
        let pos = self.pos + consumed;
        let parser = Parser { max_size: (parser.max_size - consumed) as u64, ..parser };
        match payload {
            PayloadView::ModuleSection { parser: inner, .. } => ParseView {
                pos,
                current: inner,
                stack: self.stack.push(parser),
                ..self
            },
            PayloadView::ComponentSection { parser: inner, .. } => ParseView {
                pos,
                current: inner,
                stack: self.stack.push(parser),
                ..self
            },
            PayloadView::End(_) => if self.stack.len() > 0 {
                ParseView {
                    pos,
                    current: self.stack.last(),
                    stack: self.stack.drop_last(),
                    ..self
                }
            } else {
                ParseView { pos, current: parser, done: true, ..self }
            },
            _ => ParseView { pos, current: parser, ..self },
        }
    }

    /// The next part, and the state behind it. Nothing comes behind an error.
    pub open spec fn step(self) -> (ParseView, Option<Result<PayloadView>>) {
        if self.done {
            (self, None)
        } else {
            match self.current.parse(self.window()) {
                (_, _, Err(e)) => (ParseView { done: true, ..self }, Some(Err(e))),
                (parser, c, Ok(payload)) => (
                    self.behind(payload, parser, c.pos),
                    Some(Ok(payload)),
                ),
            }
        }
    }
}

impl Parser {
    /// Goes through all parts of the binary that `data` holds.
    pub fn parse_all<'a>(self, data: &'a [u8]) -> (parts: ParseAll<'a>)
        requires
            self.offset + data@.len() <= usize::MAX,
        ensures
            parts@ == ParseView::start(self, data@),
            parts@.wf(),
    {
        ParseAll {
            data,
            position: 0,
            offset: self.offset,
            current: self,
            stack: Vec::new(),
            done: false,
        }
    }
}

impl<'a> ParseAll<'a> {
    /// The next part.
    pub fn next(&mut self) -> (payload: Option<Result<Payload<'a>>>)
        requires
            old(self)@.wf(),
        ensures
            final(self)@.wf(),
            final(self)@ == old(self)@.step().0,
            match payload {
                None => old(self)@.step().1 is None,
                Some(result) => old(self)@.step().1 == Some(viewed(result)),
            },
            payload matches Some(Ok(payload)) ==> payload@.wf() && final(self)@.left() < old(
                self,
            )@.left(),
    {
        if self.done {
            return None;
        }
        let left = self.data.len() - self.position;
        let visible = if left as u64 <= self.current.max_size {
            left
        } else {
            self.current.max_size as usize
        };
        let window = &self.data[self.position..self.position + visible];
        let mut reader = BinaryReader::new_with_offset(window, self.offset + self.position);
        assert(reader@ == self@.window());
        let mut parser = self.current;
        let payload = match parser.read(&mut reader) {
            Ok(payload) => payload,
            Err(e) => {
                self.done = true;
                return Some(Err(e));
            },
        };
        let consumed = reader.current_position();
        self.position = self.position + consumed;
        parser.max_size = parser.max_size - consumed as u64;
        match &payload {
            Payload::ModuleSection { parser: inner, .. } | Payload::ComponentSection {
                parser: inner,
                ..
            } => {
                self.stack.push(parser);
                self.current = *inner;
            },
            Payload::End(_) => match self.stack.pop() {
                Some(outer) => {
                    self.current = outer;
                },
                None => {
                    self.current = parser;
                    self.done = true;
                },
            },
            _ => {
                self.current = parser;
            },
        }
        assert(self@ =~= old(self)@.step().0);
        Some(Ok(payload))
    }
}

} // verus!
