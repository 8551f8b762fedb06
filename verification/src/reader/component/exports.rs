//! The exports of a component.

use super::items::ComponentArgKind;
use crate::error::{viewed, Result};
use crate::reader::binary_reader::{BinaryReader, Cursor, Range};
use crate::reader::sections::{
    parse_section, SectionIteratorLimited, SectionReader, SectionView, SectionWithLimitedItems,
};
use crate::reader::types::FromReader;
use vstd::prelude::*;

verus! {

/// Represents the kind of export in a WebAssembly component.
pub type ComponentExportKind = ComponentArgKind;

/// Represents an export in a WebAssembly component.
#[derive(Debug, Copy, Clone)]
pub struct ComponentExport<'a> {
    /// The name of the exported item.
    pub name: &'a str,
    /// The kind of the export.
    pub kind: ComponentExportKind,
}

/// What a [`ComponentExport`] holds.
pub struct ComponentExportView {
    /// The name of the exported item.
    pub name: Seq<char>,
    /// The kind of the export.
    pub kind: ComponentExportKind,
}

impl<'a> View for ComponentExport<'a> {
    type V = ComponentExportView;

    open spec fn view(&self) -> ComponentExportView {
        ComponentExportView { name: self.name@, kind: self.kind }
    }
}

impl<'a> FromReader<'a> for ComponentExport<'a> {
    open spec fn parse(c: Cursor) -> (Cursor, Result<ComponentExportView>) {
        match c.string() {
            (c, Err(e)) => (c, Err(e)),
            (c, Ok(name)) => match <ComponentExportKind as FromReader>::parse(c) {
                (c, Err(e)) => (c, Err(e)),
                (c, Ok(kind)) => (c, Ok(ComponentExportView { name, kind })),
            },
        }
    }

    fn from_reader(reader: &mut BinaryReader<'a>) -> (result: Result<ComponentExport<'a>>) {
        let name = reader.read_string()?;
        let kind = ComponentExportKind::from_reader(reader)?;
        Ok(ComponentExport { name, kind })
    }
}

/// A reader for the export section of a WebAssembly component.
#[derive(Clone, Copy)]
pub struct ComponentExportSectionReader<'a> {
    reader: BinaryReader<'a>,
    count: u32,
}

impl<'a> View for ComponentExportSectionReader<'a> {
    type V = SectionView;

    closed spec fn view(&self) -> SectionView {
        SectionView { cursor: self.reader@, count: self.count, forbid_bulk_memory: false }
    }
}

impl<'a> ComponentExportSectionReader<'a> {
    /// Constructs a new `ComponentExportSectionReader` for the given data and offset.
    pub fn new(data: &'a [u8], offset: usize) -> (result: Result<Self>)
        requires
            offset + data@.len() <= usize::MAX,
        ensures
            viewed(result) == parse_section(data@, offset as int),
            result matches Ok(section) ==> section@.cursor.wf(),
    {
        let mut reader = BinaryReader::new_with_offset(data, offset);
        let count = reader.read_var_u32()?;
        Ok(ComponentExportSectionReader { reader, count })
    }

    /// Gets the original position of the section reader.
    pub fn original_position(&self) -> (offset: usize)
        requires
            self@.cursor.wf(),
        ensures
            offset == self@.cursor.offset(),
    {
        self.reader.original_position()
    }

    /// Gets the count of items in the section.
    pub fn get_count(&self) -> (count: u32)
        ensures
            count == self@.count,
    {
        self.count
    }

    /// Reads the next export of the section: its name, and then its kind.
    ///
    /// The section does not stop a caller from reading more than it says it has.
    pub fn read(&mut self) -> (result: Result<ComponentExport<'a>>)
        requires
            old(self)@.cursor.wf(),
        ensures
            final(self)@.cursor.wf(),
            final(self)@.cursor.follows(old(self)@.cursor),
            final(self)@ == old(self)@.at(final(self)@.cursor),
            (final(self)@.cursor, viewed(result)) == <ComponentExport as FromReader>::parse(
                old(self)@.cursor,
            ),
    {
        ComponentExport::from_reader(&mut self.reader)
    }

    /// Goes through the exports of the section, and then checks that it ends.
    pub fn into_iter(self) -> (iterator: SectionIteratorLimited<Self>)
        ensures
            iterator.section() == self@,
            iterator.left() == self@.count,
            !iterator.ended(),
    {
        SectionIteratorLimited::new(self)
    }
}

impl<'a> SectionReader for ComponentExportSectionReader<'a> {
    type Item = ComponentExport<'a>;

    open spec fn section(&self) -> SectionView {
        self@
    }

    open spec fn parse_item(forbid_bulk_memory: bool, c: Cursor) -> (
        Cursor,
        Result<ComponentExportView>,
    ) {
        <ComponentExport as FromReader>::parse(c)
    }

    open spec fn valid_item(item: ComponentExportView) -> bool {
        true
    }

    fn read(&mut self) -> (result: Result<ComponentExport<'a>>) {
        Self::read(self)
    }

    fn eof(&self) -> (done: bool) {
        self.reader.eof()
    }

    fn original_position(&self) -> (offset: usize) {
        Self::original_position(self)
    }

    fn range(&self) -> (range: Range) {
        self.reader.range()
    }
}

impl<'a> SectionWithLimitedItems for ComponentExportSectionReader<'a> {
    fn get_count(&self) -> (count: u32) {
        Self::get_count(self)
    }
}

} // verus!
