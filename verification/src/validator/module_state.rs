//! What changes while the sections of a module are validated.

use super::module::{Module, ModuleView, Order};
use super::types::{starts_with, DefinedTypeView};
use crate::error::{error_at, BinaryReaderError, Result};
use std::sync::Arc;
use vstd::prelude::*;

verus! {

/// A module that can be changed until it is shared.
pub enum MaybeOwned {
    /// A module that can be changed.
    Owned(Module),
    /// A module that others see too.
    Shared(Arc<Module>),
}

impl MaybeOwned {
    /// What is known of the module.
    pub open spec fn module(self) -> ModuleView {
        match self {
            MaybeOwned::Owned(module) => module@,
            MaybeOwned::Shared(module) => module@,
        }
    }

    /// The module.
    pub fn get(&self) -> (module: &Module)
        ensures
            module@ == self.module(),
    {
        match self {
            MaybeOwned::Owned(module) => module,
            MaybeOwned::Shared(module) => &**module,
        }
    }

    /// The module, to be changed.
    pub fn assert_mut(&mut self) -> (module: &mut Module)
        requires
            *old(self) is Owned,
        ensures
            module@ == old(self).module(),
            *final(self) is Owned,
            final(self).module() == final(module)@,
    {
        match self {
            MaybeOwned::Owned(module) => module,
            MaybeOwned::Shared(_) => {
                assert(false);
                vstd::pervasive::unreached()
            },
        }
    }

    /// Shares the module.
    pub fn arc(&mut self) -> (shared: Arc<Module>)
        ensures
            shared@ == old(self).module(),
            *final(self) is Shared,
            final(self).module() == old(self).module(),
    {
        let mut taken = MaybeOwned::Owned(Module::new());
        std::mem::swap(self, &mut taken);
        let shared = match taken {
            MaybeOwned::Owned(module) => Arc::new(module),
            MaybeOwned::Shared(module) => module,
        };
        *self = MaybeOwned::Shared(Arc::clone(&shared));
        shared
    }
}

/// The state of a module that is being validated.
pub struct ModuleState {
    /// The module so far.
    pub module: MaybeOwned,
    /// The last section.
    pub order: Order,
    /// How many data segments there are.
    pub data_segment_count: u32,
    /// How many function bodies have to come, once the function section has
    /// come and until the code section comes.
    pub expected_code_bodies: Option<u32>,
    /// The function that the next body is for, once there has been one.
    pub code_section_index: Option<usize>,
}

/// What a [`ModuleState`] holds.
pub struct ModuleStateView {
    /// The module so far.
    pub module: ModuleView,
    /// Whether others see the module, so that it can not be changed.
    pub shared: bool,
    /// The last section.
    pub order: Order,
    /// How many data segments there are.
    pub data_segment_count: u32,
    /// How many function bodies have to come.
    pub expected_code_bodies: Option<u32>,
    /// The function that the next body is for.
    pub code_section_index: Option<usize>,
}

impl View for ModuleState {
    type V = ModuleStateView;

    open spec fn view(&self) -> ModuleStateView {
        ModuleStateView {
            module: self.module.module(),
            shared: self.module is Shared,
            order: self.order,
            data_segment_count: self.data_segment_count,
            expected_code_bodies: self.expected_code_bodies,
            code_section_index: self.code_section_index,
        }
    }
}

impl ModuleStateView {
    /// The state behind the header of a module.
    pub open spec fn initial() -> ModuleStateView {
        ModuleStateView {
            module: ModuleView::empty(),
            shared: false,
            order: Order::Initial,
            data_segment_count: 0,
            expected_code_bodies: None,
            code_section_index: None,
        }
    }

    /// The invariant of the state: what the module says of types is true, now
    /// and as it was when the code section started, and nobody shares the module
    /// before.
    pub open spec fn wf(self, types: Seq<DefinedTypeView>) -> bool {
        &&& self.module.wf(types)
        &&& self.module.snapshot matches Some(snapshot) ==> {
            &&& starts_with(types, snapshot)
            &&& self.module.wf(snapshot)
            &&& self.order.place() >= Order::Code.place()
        }
        &&& self.shared ==> self.order.place() >= Order::Code.place()
    }

    /// The state with another module.
    pub open spec fn with(self, module: ModuleView) -> ModuleStateView {
        ModuleStateView { module, ..self }
    }

    /// Goes to the next section, which has to stand behind the last one.
    pub open spec fn update_order(self, order: Order, offset: int) -> (ModuleStateView, Result<()>) {
        if self.order.place() >= order.place() {
            (self, Err(error_at("section out of order", offset)))
        } else {
            (ModuleStateView { order, ..self }, Ok(()))
        }
    }

    /// What has to hold at the end of a module.
    pub open spec fn validate_end(self, offset: int) -> Result<()> {
        if self.module.data_count is Some && self.module.data_count->0 != self.data_segment_count {
            Err(error_at("data count and data section have inconsistent lengths", offset))
        } else if self.expected_code_bodies is Some && self.expected_code_bodies->0 > 0 {
            Err(error_at("function and code section have inconsistent lengths", offset))
        } else {
            Ok(())
        }
    }

    /// The function that the next body is for.
    pub open spec fn next_code(self) -> int {
        match self.code_section_index {
            Some(i) => i as int,
            None => self.module.num_imported_functions,
        }
    }

    /// The index of the type of the function that the next body is for.
    pub open spec fn next_code_entry_type(self, offset: int) -> (ModuleStateView, Result<u32>) {
        let i = self.next_code();
        if i >= self.module.functions.len() {
            (
                ModuleStateView { code_section_index: Some(i as usize), ..self },
                Err(error_at("code section entry exceeds number of functions", offset)),
            )
        } else {
            (
                ModuleStateView { code_section_index: Some((i + 1) as usize), ..self },
                Ok(self.module.functions[i]),
            )
        }
    }
}

impl ModuleState {
    /// The state behind the header of a module.
    pub fn new() -> (state: ModuleState)
        ensures
            state@ == ModuleStateView::initial(),
    {
        ModuleState {
            module: MaybeOwned::Owned(Module::new()),
            order: Order::Initial,
            data_segment_count: 0,
            expected_code_bodies: None,
            code_section_index: None,
        }
    }

    /// Goes to the next section.
    pub fn update_order(&mut self, order: Order, offset: usize) -> (result: Result<()>)
        ensures
            (final(self)@, result) == old(self)@.update_order(order, offset as int),
    {
        if self.order.rank() >= order.rank() {
            return Err(BinaryReaderError::new("section out of order", offset));
        }
        self.order = order;
        Ok(())
    }

    /// Checks what has to hold at the end of a module.
    pub fn validate_end(&self, offset: usize) -> (result: Result<()>)
        ensures
            result == self@.validate_end(offset as int),
    {
        // Ensure that the data count section, if any, was correct.
        if let Some(data_count) = self.module.get().data_count {
            if data_count != self.data_segment_count {
                return Err(
                    BinaryReaderError::new(
                        "data count and data section have inconsistent lengths",
                        offset,
                    ),
                );
            }
        }
        // Ensure that the function section, if nonzero, was paired with a code
        // section with the appropriate length.
        if let Some(n) = self.expected_code_bodies {
            if n > 0 {
                return Err(
                    BinaryReaderError::new(
                        "function and code section have inconsistent lengths",
                        offset,
                    ),
                );
            }
        }
        Ok(())
    }

    /// The index of the type of the function that the next body is for.
    pub fn next_code_entry_type(&mut self, offset: usize) -> (result: Result<u32>)
        ensures
            (final(self)@, result) == old(self)@.next_code_entry_type(offset as int),
    {
        let index = match self.code_section_index {
            Some(index) => index,
            None => self.module.get().num_imported_functions,
        };
        if index >= self.module.get().functions.len() {
            self.code_section_index = Some(index);
            return Err(
                BinaryReaderError::new("code section entry exceeds number of functions", offset),
            );
        }
        let ty = self.module.get().functions[index];
        self.code_section_index = Some(index + 1);
        Ok(ty)
    }
}

} // verus!
