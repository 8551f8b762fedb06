//! Sections: a number of items, and then so many items.

use super::binary_reader::{BinaryReader, Cursor, Range};
use super::operators::ConstExpr;
use super::component::items::{Alias, ComponentFunction, Instance};
use super::component::types::{ComponentImport, ComponentTypeDef};
use super::types::{
    parse_list, read_list, views, Export, ExternalKind, FromReader, GlobalType, Import, MemoryType,
    TableType, TagType, Type, TypeDef,
};
use crate::error::{error_at, viewed, BinaryReaderError, Result};
use core::marker::PhantomData;
use vstd::prelude::*;

verus! {

/// What a reader of a section knows: how many items the section says it has,
/// and the place of the next one.
pub struct SectionView {
    /// The place of the next item.
    pub cursor: Cursor,
    /// How many items the section says it has.
    pub count: u32,
    /// Whether the forms that the bulk memory proposal adds are refused.
    pub forbid_bulk_memory: bool,
}

impl SectionView {
    /// The same section with the next item elsewhere.
    pub open spec fn at(self, cursor: Cursor) -> SectionView {
        SectionView { cursor, ..self }
    }

    /// The error for bytes behind the last item, if there are any.
    pub open spec fn end(self) -> Result<()> {
        if self.cursor.pos >= self.cursor.bytes.len() {
            Ok(())
        } else {
            Err(
                error_at(
                    "section size mismatch: unexpected data at the end of the section",
                    self.cursor.offset(),
                ),
            )
        }
    }
}

/// A reader of the items of a section.
pub trait SectionReader: Sized {
    /// What the section holds.
    type Item: View;

    /// What the reader knows.
    spec fn section(&self) -> SectionView;

    /// The item at a place.
    spec fn parse_item(forbid_bulk_memory: bool, c: Cursor) -> (
        Cursor,
        Result<<Self::Item as View>::V>,
    );

    /// What is read can be read further.
    spec fn valid_item(item: <Self::Item as View>::V) -> bool;

    /// Reads the next item.
    fn read(&mut self) -> (result: Result<Self::Item>)
        requires
            old(self).section().cursor.wf(),
        ensures
            final(self).section().cursor.wf(),
            final(self).section().cursor.follows(old(self).section().cursor),
            final(self).section() == old(self).section().at(final(self).section().cursor),
            (final(self).section().cursor, viewed(result)) == Self::parse_item(
                old(self).section().forbid_bulk_memory,
                old(self).section().cursor,
            ),
            result matches Ok(item) ==> Self::valid_item(item@),
    ;

    /// Whether all bytes have been read.
    fn eof(&self) -> (done: bool)
        ensures
            done == (self.section().cursor.pos >= self.section().cursor.bytes.len()),
    ;

    /// The offset of the next item in the whole binary.
    fn original_position(&self) -> (offset: usize)
        requires
            self.section().cursor.wf(),
        ensures
            offset == self.section().cursor.offset(),
    ;

    /// The offsets of the section in the whole binary.
    fn range(&self) -> (range: Range)
        requires
            self.section().cursor.wf(),
        ensures
            range.start == self.section().cursor.base,
            range.end == self.section().cursor.base + self.section().cursor.bytes.len(),
    ;

    /// Checks that all bytes have been read.
    fn ensure_end(&self) -> (result: Result<()>)
        requires
            self.section().cursor.wf(),
        ensures
            result == self.section().end(),
    {
        if self.eof() {
            return Ok(());
        }
        Err(
            BinaryReaderError::new(
                "section size mismatch: unexpected data at the end of the section",
                self.original_position(),
            ),
        )
    }
}

/// A reader of a section that says how many items it has.
pub trait SectionWithLimitedItems: SectionReader {
    /// How many items the section says it has.
    fn get_count(&self) -> (count: u32)
        ensures
            count == self.section().count,
    ;
}

/// What [`SectionReader`]s of sections that say how many items they have know
/// at the start of a section.
pub open spec fn parse_section(data: Seq<u8>, offset: int) -> Result<SectionView> {
    match Cursor::start(data, offset).var_u32() {
        (c, Ok(count)) => Ok(SectionView { cursor: c, count, forbid_bulk_memory: false }),
        (c, Err(e)) => Err(e),
    }
}

/// A reader of a section whose items are all read in the same way.
pub struct SectionLimited<'a, T> {
    reader: BinaryReader<'a>,
    count: u32,
    items: PhantomData<T>,
}

impl<'a, T> Clone for SectionLimited<'a, T> {
    fn clone(&self) -> (copy: Self)
        ensures
            copy == *self,
    {
        SectionLimited { reader: self.reader, count: self.count, items: self.items }
    }
}

impl<'a, T> Copy for SectionLimited<'a, T> {

}

impl<'a, T> View for SectionLimited<'a, T> {
    type V = SectionView;

    closed spec fn view(&self) -> SectionView {
        SectionView { cursor: self.reader@, count: self.count, forbid_bulk_memory: false }
    }
}

impl<'a, T: FromReader<'a>> SectionLimited<'a, T> {
    /// Constructs a reader of the section that `data` holds, which starts at
    /// `offset` in the whole binary.
    pub fn new(data: &'a [u8], offset: usize) -> (result: Result<Self>)
        requires
            offset + data@.len() <= usize::MAX,
        ensures
            viewed(result) == parse_section(data@, offset as int),
            result matches Ok(section) ==> section@.cursor.wf(),
    {
        let mut reader = BinaryReader::new_with_offset(data, offset);
        let count = reader.read_var_u32()?;
        Ok(SectionLimited { reader, count, items: PhantomData })
    }
}

impl<'a, T: FromReader<'a>> SectionReader for SectionLimited<'a, T> {
    type Item = T;

    open spec fn section(&self) -> SectionView {
        self@
    }

    open spec fn parse_item(forbid_bulk_memory: bool, c: Cursor) -> (Cursor, Result<T::V>) {
        T::parse(c)
    }

    open spec fn valid_item(item: T::V) -> bool {
        T::valid(item)
    }

    fn read(&mut self) -> (result: Result<T>) {
        T::from_reader(&mut self.reader)
    }

    fn eof(&self) -> (done: bool) {
        self.reader.eof()
    }

    fn original_position(&self) -> (offset: usize) {
        self.reader.original_position()
    }

    fn range(&self) -> (range: Range) {
        self.reader.range()
    }
}

impl<'a, T: FromReader<'a>> SectionWithLimitedItems for SectionLimited<'a, T> {
    fn get_count(&self) -> (count: u32) {
        self.count
    }
}

/// A reader of the type section of a module.
pub type TypeSectionReader<'a> = SectionLimited<'a, TypeDef>;

/// A reader of the import section of a module.
pub type ImportSectionReader<'a> = SectionLimited<'a, Import<'a>>;

/// A reader of the function section of a module.
pub type FunctionSectionReader<'a> = SectionLimited<'a, u32>;

/// A reader of the table section of a module.
pub type TableSectionReader<'a> = SectionLimited<'a, TableType>;

/// A reader of the memory section of a module.
pub type MemorySectionReader<'a> = SectionLimited<'a, MemoryType>;

/// A reader of the tag section of a module.
pub type TagSectionReader<'a> = SectionLimited<'a, TagType>;

/// A reader of the global section of a module.
pub type GlobalSectionReader<'a> = SectionLimited<'a, Global<'a>>;

/// A reader of the export section of a module.
pub type ExportSectionReader<'a> = SectionLimited<'a, Export<'a>>;

/// A reader of the element section of a module.
pub type ElementSectionReader<'a> = SectionLimited<'a, Element<'a>>;

/// A reader of the type section of a component.
pub type ComponentTypeSectionReader<'a> = SectionLimited<'a, ComponentTypeDef<'a>>;

/// A reader of the import section of a component.
pub type ComponentImportSectionReader<'a> = SectionLimited<'a, ComponentImport<'a>>;

/// A reader of the function section of a component.
pub type ComponentFunctionSectionReader<'a> = SectionLimited<'a, ComponentFunction>;

/// A reader of the instance section of a component.
pub type InstanceSectionReader<'a> = SectionLimited<'a, Instance<'a>>;

/// A reader of the alias section of a component.
pub type AliasSectionReader<'a> = SectionLimited<'a, Alias<'a>>;

/// Goes through the items of a section, and then checks that the section ends.
pub struct SectionIteratorLimited<R> {
    reader: R,
    left: u32,
    end: bool,
}

impl<R: SectionWithLimitedItems> SectionIteratorLimited<R> {
    /// What the reader of the section knows.
    pub closed spec fn section(&self) -> SectionView {
        self.reader.section()
    }

    /// How many items are still to come.
    pub closed spec fn left(&self) -> u32 {
        self.left
    }

    /// Nothing more comes, because of an error.
    pub closed spec fn ended(&self) -> bool {
        self.end
    }

    /// Constructs an iterator over all items of a section.
    pub fn new(section: R) -> (iterator: Self)
        ensures
            iterator.section() == section.section(),
            iterator.left() == section.section().count,
            !iterator.ended(),
    {
        let left = section.get_count();
        SectionIteratorLimited { reader: section, left, end: false }
    }

    /// The next item; an error if the item, or the end, is not as it should be.
    /// Nothing comes behind an error.
    pub fn next(&mut self) -> (item: Option<Result<R::Item>>)
        requires
            old(self).section().cursor.wf(),
        ensures
            final(self).section().cursor.wf(),
            final(self).section() == old(self).section().at(final(self).section().cursor),
            old(self).ended() ==> item is None && *final(self) == *old(self),
            !old(self).ended() && old(self).left() == 0 ==> {
                &&& final(self).section() == old(self).section()
                &&& final(self).left() == 0
                &&& match old(self).section().end() {
                    Ok(_) => item is None && !final(self).ended(),
                    Err(e) => item == Some(Err::<R::Item, _>(e)) && final(self).ended(),
                }
            },
            !old(self).ended() && old(self).left() > 0 ==> {
                &&& item is Some
                &&& (final(self).section().cursor, viewed(item->0)) == R::parse_item(
                    old(self).section().forbid_bulk_memory,
                    old(self).section().cursor,
                )
                &&& final(self).ended() == item->0 is Err
                &&& final(self).left() == old(self).left() - 1
            },
    {
        if self.end {
            return None;
        }
        if self.left == 0 {
            return match self.reader.ensure_end() {
                Ok(()) => None,
                Err(err) => {
                    self.end = true;
                    Some(Err(err))
                },
            };
        }
        let result = self.reader.read();
        self.end = result.is_err();
        self.left = self.left - 1;
        Some(result)
    }
}

/// A global.
#[derive(Debug, Clone, Copy)]
pub struct Global<'a> {
    /// The type.
    pub ty: GlobalType,
    /// The first value.
    pub init_expr: ConstExpr<'a>,
}

/// What a [`Global`] holds.
pub struct GlobalView {
    /// The type.
    pub ty: GlobalType,
    /// The first value.
    pub init_expr: Cursor,
}

impl<'a> View for Global<'a> {
    type V = GlobalView;

    open spec fn view(&self) -> GlobalView {
        GlobalView { ty: self.ty, init_expr: self.init_expr@ }
    }
}

impl<'a> FromReader<'a> for Global<'a> {
    open spec fn parse(c: Cursor) -> (Cursor, Result<GlobalView>) {
        match <GlobalType as FromReader>::parse(c) {
            (c, Err(e)) => (c, Err(e)),
            (c, Ok(ty)) => match <ConstExpr as FromReader>::parse(c) {
                (c, Err(e)) => (c, Err(e)),
                (c, Ok(init_expr)) => (c, Ok(GlobalView { ty, init_expr })),
            },
        }
    }

    open spec fn valid(value: GlobalView) -> bool {
        value.init_expr.wf()
    }

    fn from_reader(reader: &mut BinaryReader<'a>) -> (result: Result<Global<'a>>) {
        let ty = GlobalType::from_reader(reader)?;
        let init_expr = ConstExpr::from_reader(reader)?;
        Ok(Global { ty, init_expr })
    }
}

/// Something with the offset that it was read at.
#[derive(Debug, Clone, Copy)]
pub struct Placed<T> {
    /// The offset in the whole binary.
    pub offset: usize,
    /// What stands there.
    pub item: T,
}

/// What a [`Placed`] holds.
pub struct PlacedView<V> {
    /// The offset in the whole binary.
    pub offset: int,
    /// What stands there.
    pub item: V,
}

impl<T: View> View for Placed<T> {
    type V = PlacedView<T::V>;

    open spec fn view(&self) -> PlacedView<T::V> {
        PlacedView { offset: self.offset as int, item: self.item@ }
    }
}

impl<'a, T: FromReader<'a>> FromReader<'a> for Placed<T> {
    open spec fn parse(c: Cursor) -> (Cursor, Result<PlacedView<T::V>>) {
        match T::parse(c) {
            (d, Err(e)) => (d, Err(e)),
            (d, Ok(item)) => (d, Ok(PlacedView { offset: c.offset(), item })),
        }
    }

    open spec fn valid(value: PlacedView<T::V>) -> bool {
        0 <= value.offset <= usize::MAX && T::valid(value.item)
    }

    fn from_reader(reader: &mut BinaryReader<'a>) -> (result: Result<Placed<T>>) {
        let offset = reader.original_position();
        let item = T::from_reader(reader)?;
        Ok(Placed { offset, item })
    }
}

/// Where the elements of a segment go.
#[derive(Debug, Clone, Copy)]
pub enum ElementKind<'a> {
    /// To a table, when the program asks for it.
    Passive,
    /// To a table, when the module is made.
    Active {
        /// The index of the table.
        table_index: u32,
        /// The place in the table.
        init_expr: ConstExpr<'a>,
    },
    /// Nowhere; they are only named.
    Declared,
}

/// What an [`ElementKind`] holds.
pub enum ElementKindView {
    /// To a table, when the program asks for it.
    Passive,
    /// To a table, when the module is made.
    Active {
        /// The index of the table.
        table_index: u32,
        /// The place in the table.
        init_expr: Cursor,
    },
    /// Nowhere; they are only named.
    Declared,
}

impl<'a> View for ElementKind<'a> {
    type V = ElementKindView;

    open spec fn view(&self) -> ElementKindView {
        match self {
            ElementKind::Passive => ElementKindView::Passive,
            ElementKind::Active { table_index, init_expr } => ElementKindView::Active {
                table_index: *table_index,
                init_expr: init_expr@,
            },
            ElementKind::Declared => ElementKindView::Declared,
        }
    }
}

/// The elements of a segment.
#[derive(Debug)]
pub enum ElementItems<'a> {
    /// Functions, by index.
    Functions(Vec<Placed<u32>>),
    /// Expressions that give references.
    Expressions(Vec<Placed<ConstExpr<'a>>>),
}

/// What [`ElementItems`] hold.
pub enum ElementItemsView {
    /// Functions, by index.
    Functions(Seq<PlacedView<u32>>),
    /// Expressions that give references.
    Expressions(Seq<PlacedView<Cursor>>),
}

impl<'a> View for ElementItems<'a> {
    type V = ElementItemsView;

    open spec fn view(&self) -> ElementItemsView {
        match self {
            ElementItems::Functions(list) => ElementItemsView::Functions(views(list@)),
            ElementItems::Expressions(list) => ElementItemsView::Expressions(views(list@)),
        }
    }
}

/// An element segment.
#[derive(Debug)]
pub struct Element<'a> {
    /// Where the elements go.
    pub kind: ElementKind<'a>,
    /// The elements.
    pub items: ElementItems<'a>,
    /// The type of the elements.
    pub ty: Type,
}

/// What an [`Element`] holds.
pub struct ElementView {
    /// Where the elements go.
    pub kind: ElementKindView,
    /// The elements.
    pub items: ElementItemsView,
    /// The type of the elements.
    pub ty: Type,
}

impl<'a> View for Element<'a> {
    type V = ElementView;

    open spec fn view(&self) -> ElementView {
        ElementView { kind: self.kind@, items: self.items@, ty: self.ty }
    }
}

/// Where the elements go; `flags` is the number in front of a segment.
pub open spec fn parse_element_kind(c: Cursor, flags: u32) -> (Cursor, Result<ElementKindView>) {
    if flags % 2 == 1 {
        if (flags / 2) % 2 == 1 {
            (c, Ok(ElementKindView::Declared))
        } else {
            (c, Ok(ElementKindView::Passive))
        }
    } else {
        match (if (flags / 2) % 2 == 1 {
            c.var_u32()
        } else {
            (c, Ok(0))
        }) {
            (c, Err(e)) => (c, Err(e)),
            (c, Ok(table_index)) => match <ConstExpr as FromReader>::parse(c) {
                (c, Err(e)) => (c, Err(e)),
                (c, Ok(init_expr)) => (c, Ok(ElementKindView::Active { table_index, init_expr })),
            },
        }
    }
}

fn read_element_kind<'a>(reader: &mut BinaryReader<'a>, flags: u32) -> (result: Result<
    ElementKind<'a>,
>)
    requires
        old(reader).wf(),
    ensures
        final(reader).wf(),
        final(reader)@.follows(old(reader)@),
        (final(reader)@, viewed(result)) == parse_element_kind(old(reader)@, flags),
        result matches Ok(ElementKind::Active { init_expr, .. }) ==> init_expr@.wf(),
{
    if flags % 2 == 1 {
        if (flags / 2) % 2 == 1 {
            Ok(ElementKind::Declared)
        } else {
            Ok(ElementKind::Passive)
        }
    } else {
        let table_index = if (flags / 2) % 2 == 1 {
            reader.read_var_u32()?
        } else {
            0
        };
        let init_expr = ConstExpr::from_reader(reader)?;
        Ok(ElementKind::Active { table_index, init_expr })
    }
}

/// The type of the elements; `flags` is the number in front of a segment.
pub open spec fn parse_element_type(c: Cursor, flags: u32) -> (Cursor, Result<Type>) {
    if flags % 4 == 0 {
        (c, Ok(Type::FuncRef))
    } else if flags >= 4 {
        <Type as FromReader>::parse(c)
    } else {
        match <ExternalKind as FromReader>::parse(c) {
            (d, Err(e)) => (d, Err(e)),
            (d, Ok(kind)) => if kind == ExternalKind::Func {
                (d, Ok(Type::FuncRef))
            } else {
                (
                    d,
                    Err(
                        error_at(
                            "only the function external type is supported in elem segment",
                            c.offset(),
                        ),
                    ),
                )
            },
        }
    }
}

fn read_element_type<'a>(reader: &mut BinaryReader<'a>, flags: u32) -> (result: Result<Type>)
    requires
        old(reader).wf(),
    ensures
        final(reader).wf(),
        final(reader)@.follows(old(reader)@),
        (final(reader)@, result) == parse_element_type(old(reader)@, flags),
{
    if flags % 4 == 0 {
        Ok(Type::FuncRef)
    } else if flags >= 4 {
        Type::from_reader(reader)
    } else {
        let offset = reader.original_position();
        let kind = ExternalKind::from_reader(reader)?;
        if kind == ExternalKind::Func {
            Ok(Type::FuncRef)
        } else {
            Err(
                BinaryReaderError::new(
                    "only the function external type is supported in elem segment",
                    offset,
                ),
            )
        }
    }
}

/// The elements; `flags` is the number in front of a segment.
pub open spec fn parse_element_items(c: Cursor, flags: u32) -> (Cursor, Result<ElementItemsView>) {
    match c.var_u32() {
        (c, Err(e)) => (c, Err(e)),
        (c, Ok(n)) => if flags >= 4 {
            match parse_list::<Placed<ConstExpr>>(c, n as nat, Seq::empty()) {
                (c, Err(e)) => (c, Err(e)),
                (c, Ok(list)) => (c, Ok(ElementItemsView::Expressions(list))),
            }
        } else {
            match parse_list::<Placed<u32>>(c, n as nat, Seq::empty()) {
                (c, Err(e)) => (c, Err(e)),
                (c, Ok(list)) => (c, Ok(ElementItemsView::Functions(list))),
            }
        },
    }
}

impl<'a> FromReader<'a> for Element<'a> {
    open spec fn parse(c: Cursor) -> (Cursor, Result<ElementView>) {
        match c.var_u32() {
            (d, Err(e)) => (d, Err(e)),
            (d, Ok(flags)) => if flags >= 8 {
                (d, Err(error_at("invalid flags byte in element segment", c.offset())))
            } else {
                match parse_element_kind(d, flags) {
                    (d, Err(e)) => (d, Err(e)),
                    (d, Ok(kind)) => match parse_element_type(d, flags) {
                        (d, Err(e)) => (d, Err(e)),
                        (d, Ok(ty)) => match parse_element_items(d, flags) {
                            (d, Err(e)) => (d, Err(e)),
                            (d, Ok(items)) => (d, Ok(ElementView { kind, items, ty })),
                        },
                    },
                }
            },
        }
    }

    open spec fn valid(value: ElementView) -> bool {
        &&& value.kind matches ElementKindView::Active { init_expr, .. } ==> init_expr.wf()
        &&& value.items matches ElementItemsView::Expressions(list) ==> forall|i: int|
            0 <= i < list.len() ==> (#[trigger] list[i]).item.wf()
    }

    fn from_reader(reader: &mut BinaryReader<'a>) -> (result: Result<Element<'a>>) {
        let offset = reader.original_position();
        let flags = reader.read_var_u32()?;
        if flags >= 8 {
            return Err(BinaryReaderError::new("invalid flags byte in element segment", offset));
        }
        let kind = read_element_kind(reader, flags)?;
        let ty = read_element_type(reader, flags)?;
        let n = reader.read_var_u32()?;
        let items = if flags >= 4 {
            ElementItems::Expressions(read_list::<Placed<ConstExpr>>(reader, n as usize)?)
        } else {
            ElementItems::Functions(read_list::<Placed<u32>>(reader, n as usize)?)
        };
        Ok(Element { kind, items, ty })
    }
}

/// Where the bytes of a data segment go.
#[derive(Debug, Clone, Copy)]
pub enum DataKind<'a> {
    /// To a memory, when the program asks for it.
    Passive,
    /// To a memory, when the module is made.
    Active {
        /// The index of the memory.
        memory_index: u32,
        /// The place in the memory.
        init_expr: ConstExpr<'a>,
    },
}

/// What a [`DataKind`] holds.
pub enum DataKindView {
    /// To a memory, when the program asks for it.
    Passive,
    /// To a memory, when the module is made.
    Active {
        /// The index of the memory.
        memory_index: u32,
        /// The place in the memory.
        init_expr: Cursor,
    },
}

impl<'a> View for DataKind<'a> {
    type V = DataKindView;

    open spec fn view(&self) -> DataKindView {
        match self {
            DataKind::Passive => DataKindView::Passive,
            DataKind::Active { memory_index, init_expr } => DataKindView::Active {
                memory_index: *memory_index,
                init_expr: init_expr@,
            },
        }
    }
}

/// A data segment.
#[derive(Debug, Clone, Copy)]
pub struct Data<'a> {
    /// Where the bytes go.
    pub kind: DataKind<'a>,
    /// The bytes.
    pub data: &'a [u8],
}

/// What a [`Data`] holds.
pub struct DataView {
    /// Where the bytes go.
    pub kind: DataKindView,
    /// The bytes.
    pub data: Seq<u8>,
}

impl<'a> View for Data<'a> {
    type V = DataView;

    open spec fn view(&self) -> DataView {
        DataView { kind: self.kind@, data: self.data@ }
    }
}

/// Where the bytes of a data segment go. Only the form that has always been
/// there is accepted if `forbid_bulk_memory` is set.
pub open spec fn parse_data_kind(c: Cursor, forbid_bulk_memory: bool) -> (
    Cursor,
    Result<DataKindView>,
) {
    match c.var_u32() {
        (d, Err(e)) => (d, Err(e)),
        (d, Ok(flags)) => if flags > 2 || (forbid_bulk_memory && flags != 0) {
            (d, Err(error_at("invalid flags byte in data segment", c.offset())))
        } else if flags == 1 {
            (d, Ok(DataKindView::Passive))
        } else {
            match (if flags == 2 {
                d.var_u32()
            } else {
                (d, Ok(0))
            }) {
                (d, Err(e)) => (d, Err(e)),
                (d, Ok(memory_index)) => match <ConstExpr as FromReader>::parse(d) {
                    (d, Err(e)) => (d, Err(e)),
                    (d, Ok(init_expr)) => (
                        d,
                        Ok(DataKindView::Active { memory_index, init_expr }),
                    ),
                },
            }
        },
    }
}

fn read_data_kind<'a>(reader: &mut BinaryReader<'a>, forbid_bulk_memory: bool) -> (result: Result<
    DataKind<'a>,
>)
    requires
        old(reader).wf(),
    ensures
        final(reader).wf(),
        final(reader)@.follows(old(reader)@),
        (final(reader)@, viewed(result)) == parse_data_kind(old(reader)@, forbid_bulk_memory),
        result matches Ok(DataKind::Active { init_expr, .. }) ==> init_expr@.wf(),
{
    let offset = reader.original_position();
    let flags = reader.read_var_u32()?;
    if flags > 2 || (forbid_bulk_memory && flags != 0) {
        return Err(BinaryReaderError::new("invalid flags byte in data segment", offset));
    }
    if flags == 1 {
        return Ok(DataKind::Passive);
    }
    let memory_index = if flags == 2 {
        reader.read_var_u32()?
    } else {
        0
    };
    let init_expr = ConstExpr::from_reader(reader)?;
    Ok(DataKind::Active { memory_index, init_expr })
}

/// A data segment: where its bytes go, how many there are, and the bytes.
pub open spec fn parse_data(c: Cursor, forbid_bulk_memory: bool) -> (Cursor, Result<DataView>) {
    match parse_data_kind(c, forbid_bulk_memory) {
        (c, Err(e)) => (c, Err(e)),
        (c, Ok(kind)) => match c.var_u32() {
            (c, Err(e)) => (c, Err(e)),
            (c, Ok(n)) => match c.take(n as int) {
                (c, Err(e)) => (c, Err(e)),
                (c, Ok(data)) => (c, Ok(DataView { kind, data })),
            },
        },
    }
}

/// A reader of the data section.
#[derive(Clone, Copy)]
pub struct DataSectionReader<'a> {
    reader: BinaryReader<'a>,
    count: u32,
    forbid_bulk_memory: bool,
}

impl<'a> View for DataSectionReader<'a> {
    type V = SectionView;

    closed spec fn view(&self) -> SectionView {
        SectionView {
            cursor: self.reader@,
            count: self.count,
            forbid_bulk_memory: self.forbid_bulk_memory,
        }
    }
}

impl<'a> DataSectionReader<'a> {
    /// Constructs a reader of the section that `data` holds, which starts at
    /// `offset` in the whole binary.
    pub fn new(data: &'a [u8], offset: usize) -> (result: Result<Self>)
        requires
            offset + data@.len() <= usize::MAX,
        ensures
            viewed(result) == parse_section(data@, offset as int),
            result matches Ok(section) ==> section@.cursor.wf(),
    {
        let mut reader = BinaryReader::new_with_offset(data, offset);
        let count = reader.read_var_u32()?;
        Ok(DataSectionReader { reader, count, forbid_bulk_memory: false })
    }

    /// Sets whether the forms that the bulk memory proposal adds are refused.
    pub fn forbid_bulk_memory(&mut self, forbid: bool)
        ensures
            final(self)@ == (SectionView { forbid_bulk_memory: forbid, ..old(self)@ }),
    {
        self.forbid_bulk_memory = forbid;
    }
}

impl<'a> SectionReader for DataSectionReader<'a> {
    type Item = Data<'a>;

    open spec fn section(&self) -> SectionView {
        self@
    }

    open spec fn parse_item(forbid_bulk_memory: bool, c: Cursor) -> (Cursor, Result<DataView>) {
        parse_data(c, forbid_bulk_memory)
    }

    open spec fn valid_item(item: DataView) -> bool {
        item.kind matches DataKindView::Active { init_expr, .. } ==> init_expr.wf()
    }

    fn read(&mut self) -> (result: Result<Data<'a>>) {
        let kind = read_data_kind(&mut self.reader, self.forbid_bulk_memory)?;
        let n = self.reader.read_var_u32()?;
        let data = self.reader.read_bytes(n as usize)?;
        Ok(Data { kind, data })
    }

    fn eof(&self) -> (done: bool) {
        self.reader.eof()
    }

    fn original_position(&self) -> (offset: usize) {
        self.reader.original_position()
    }

    fn range(&self) -> (range: Range) {
        self.reader.range()
    }
}

impl<'a> SectionWithLimitedItems for DataSectionReader<'a> {
    fn get_count(&self) -> (count: u32) {
        self.count
    }
}

/// The body of a function: its locals and its operators.
#[derive(Debug, Clone, Copy)]
pub struct FunctionBody<'a> {
    reader: BinaryReader<'a>,
}

impl<'a> View for FunctionBody<'a> {
    type V = Cursor;

    closed spec fn view(&self) -> Cursor {
        self.reader@
    }
}

impl<'a> FunctionBody<'a> {
    /// Constructs the body that `data` holds, which starts at `offset` in the
    /// whole binary.
    pub fn new(offset: usize, data: &'a [u8]) -> (body: Self)
        requires
            offset + data@.len() <= usize::MAX,
        ensures
            body@ == Cursor::start(data@, offset as int),
            body@.wf(),
    {
        FunctionBody { reader: BinaryReader::new_with_offset(data, offset) }
    }

    /// The reader of the body.
    pub fn get_binary_reader(&self) -> (reader: BinaryReader<'a>)
        ensures
            reader@ == self@,
    {
        self.reader
    }

    /// The offsets of the body in the whole binary.
    pub fn range(&self) -> (range: Range)
        requires
            self@.wf(),
        ensures
            range.start == self@.base,
            range.end == self@.base + self@.bytes.len(),
    {
        self.reader.range()
    }
}

} // verus!
