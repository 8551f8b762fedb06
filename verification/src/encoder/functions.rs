//! The function section of a module.

use super::{leb, write_section, write_u32, Section, SectionId, Written};
use vstd::prelude::*;

verus! {

/// An encoder for the function section of WebAssembly modules.
#[derive(Clone, Debug)]
pub struct FunctionSection {
    bytes: Vec<u8>,
    num_added: u32,
}

impl View for FunctionSection {
    type V = Written;

    closed spec fn view(&self) -> Written {
        Written { bytes: self.bytes@, count: self.num_added }
    }
}

impl Default for FunctionSection {
    fn default() -> (section: Self)
        ensures
            section@ == Written::empty(),
    {
        FunctionSection { bytes: Vec::new(), num_added: 0 }
    }
}

impl Written {
    /// The section with one more function, of the type with an index.
    pub open spec fn with_function(self, type_index: u32) -> Written {
        self.and(leb(type_index as nat))
    }
}

impl FunctionSection {
    /// Construct a new module function section encoder.
    pub fn new() -> (section: Self)
        ensures
            section@ == Written::empty(),
    {
        Self::default()
    }

    /// The number of functions in the section.
    pub fn len(&self) -> (len: u32)
        ensures
            len == self@.len(),
    {
        self.num_added
    }

    /// Determines if the section is empty.
    pub fn is_empty(&self) -> (empty: bool)
        ensures
            empty == self@.is_empty(),
    {
        self.num_added == 0
    }

    /// Define a function in a module's function section.
    pub fn function(&mut self, type_index: u32) -> (section: &mut Self)
        requires
            old(self)@.count < u32::MAX,
        ensures
            section@ == old(self)@.with_function(type_index),
            *final(section) == *final(self),
    {
        write_u32(&mut self.bytes, type_index);
        self.num_added = self.num_added + 1;
        self
    }
}

impl Section for FunctionSection {
    open spec fn written(&self) -> Written {
        self@
    }

    open spec fn section_id(&self) -> SectionId {
        SectionId::Function
    }

    fn id(&self) -> (id: u8) {
        SectionId::Function.to_byte()
    }

    fn encode(&self, sink: &mut Vec<u8>) {
        write_section(&self.bytes, self.num_added, sink);
    }
}

} // verus!
