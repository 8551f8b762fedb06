//! The functions of a component: those that are lifted and lowered, and the one
//! that is called at the start.

use super::component::{ComponentState, ComponentView};
use super::lowering::{lift_type, lifted_type, lower_type, lowered_type};
use super::names::{lemma_lookup, lookup, NameMap};
use super::subtypes::{is_sub_use, same_func_type, sub_use};
use super::types::{
    exports_ok, lemma_types_ok_push, types_ok, DefinedType, DefinedTypeView, EntityType,
    ParamDefView, TypeList, TypeUse,
};
use crate::error::{error_at, number_error_at, BinaryReaderError, Result};
use crate::reader::component::items::CanonicalOption;
use crate::reader::component::types::PrimitiveInterfaceType;
use crate::reader::types::{FuncType, FuncTypeView, Type};
use vstd::prelude::*;

verus! {

/// What an instance of a module exports under a name is a function of a type.
pub open spec fn exports_func(
    types: Seq<DefinedTypeView>,
    exports: Seq<(Seq<char>, EntityType)>,
    name: Seq<char>,
    ty: FuncTypeView,
) -> bool {
    &&& lookup(exports, name) matches Some(EntityType::Func(place))
    &&& types[place as int]->Func_0 == ty
}

/// The type of the function that gives memory.
pub open spec fn realloc_type() -> FuncTypeView {
    FuncTypeView {
        params: seq![Type::I32, Type::I32, Type::I32, Type::I32],
        returns: seq![Type::I32],
    }
}

/// The type of the function that takes memory back.
pub open spec fn free_type() -> FuncTypeView {
    FuncTypeView { params: seq![Type::I32, Type::I32, Type::I32], returns: Seq::empty() }
}

/// Why an instance with these exports can not provide memory, if it can not.
pub open spec fn provides_memory(
    types: Seq<DefinedTypeView>,
    exports: Seq<(Seq<char>, EntityType)>,
    offset: int,
) -> Result<()> {
    if !(lookup(exports, "memory"@) matches Some(EntityType::Memory(_))) {
        Err(error_at("instance does not export a memory named `memory`", offset))
    } else if !exports_func(types, exports, "canonical_abi_realloc"@, realloc_type()) {
        Err(
            error_at(
                "instance does not export a function named `canonical_abi_realloc` of the right type",
                offset,
            ),
        )
    } else if !exports_func(types, exports, "canonical_abi_free"@, free_type()) {
        Err(
            error_at(
                "instance does not export a function named `canonical_abi_free` of the right type",
                offset,
            ),
        )
    } else {
        Ok(())
    }
}

impl ComponentView {
    /// Why options, from the `i`th on, are refused, if they are. At most one says
    /// how strings are encoded, and at most one which instance provides memory;
    /// `encoded` and `provided` say whether one has come already.
    pub open spec fn check_options(
        self,
        types: Seq<DefinedTypeView>,
        options: Seq<CanonicalOption>,
        i: int,
        encoded: bool,
        provided: bool,
        offset: int,
    ) -> Result<()>
        decreases options.len() - i,
    {
        if i < 0 || i >= options.len() {
            Ok(())
        } else {
            match options[i] {
                CanonicalOption::Into(instance) => if provided {
                    Err(error_at("canonical option `into` is specified more than once", offset))
                } else {
                    match self.module_instance_at(types, instance, offset) {
                        Err(e) => Err(e),
                        Ok(place) => match provides_memory(
                            types,
                            types[place as int]->ModuleInstance_0,
                            offset,
                        ) {
                            Err(e) => Err(e),
                            Ok(_) => self.check_options(
                                types,
                                options,
                                i + 1,
                                encoded,
                                true,
                                offset,
                            ),
                        },
                    }
                },
                _ => if encoded {
                    Err(error_at("canonical encoding option conflicts with another one", offset))
                } else {
                    self.check_options(types, options, i + 1, true, provided, offset)
                },
            }
        }
    }

    /// Adds a component function made from a core function.
    pub open spec fn lift_function(
        self,
        types: Seq<DefinedTypeView>,
        type_index: u32,
        func_index: u32,
        options: Seq<CanonicalOption>,
        offset: int,
    ) -> (ComponentView, Result<()>) {
        match self.type_at(type_index, offset) {
            Err(e) => (self, Err(e)),
            Ok(place) => if !(types[place as int] is ComponentFunc) {
                (
                    self,
                    Err(
                        number_error_at(
                            "type index ",
                            type_index as int,
                            " is not a function type",
                            offset,
                        ),
                    ),
                )
            } else {
                match self.core_function_at(types, func_index, offset) {
                    Err(e) => (self, Err(e)),
                    Ok(core) => match self.check_options(types, options, 0, false, false, offset) {
                        Err(e) => (self, Err(e)),
                        Ok(_) => if types[core as int]->Func_0 != lifted_type(
                            types,
                            types[place as int]->ComponentFunc_0,
                        ) {
                            (
                                self,
                                Err(
                                    error_at(
                                        "lowered function type does not match the type of the core function",
                                        offset,
                                    ),
                                ),
                            )
                        } else {
                            (
                                ComponentView { functions: self.functions.push(place), ..self },
                                Ok(()),
                            )
                        },
                    },
                }
            },
        }
    }

    /// Adds a core function made from a component function.
    pub open spec fn lower_function(
        self,
        types: Seq<DefinedTypeView>,
        func_index: u32,
        options: Seq<CanonicalOption>,
        offset: int,
    ) -> (ComponentView, Seq<DefinedTypeView>, Result<()>) {
        match self.component_function_at(types, func_index, offset) {
            Err(e) => (self, types, Err(e)),
            Ok(place) => match self.check_options(types, options, 0, false, false, offset) {
                Err(e) => (self, types, Err(e)),
                Ok(_) => (
                    ComponentView {
                        functions: self.functions.push(types.len() as usize),
                        ..self
                    },
                    types.push(
                        DefinedTypeView::Func(
                            lowered_type(types, types[place as int]->ComponentFunc_0),
                        ),
                    ),
                    Ok(()),
                ),
            },
        }
    }

    /// Gives the arguments from the `i`th on to the start function.
    pub open spec fn start_arguments(
        self,
        types: Seq<DefinedTypeView>,
        params: Seq<ParamDefView>,
        args: Seq<u32>,
        i: int,
        offset: int,
    ) -> (ComponentView, Result<()>)
        decreases args.len() - i,
    {
        if i < 0 || i >= args.len() {
            (self, Ok(()))
        } else {
            match self.value_at(args[i], offset) {
                (c, Err(e)) => (c, Err(e)),
                (c, Ok(ty)) => if !sub_use(types, ty, params[i].ty) {
                    (
                        c,
                        Err(
                            number_error_at(
                                "value type mismatch for component start function argument ",
                                i,
                                "",
                                offset,
                            ),
                        ),
                    )
                } else {
                    c.start_arguments(types, params, args, i + 1, offset)
                },
            }
        }
    }

    /// Adds the start function, which is given values, and gives a value.
    pub open spec fn add_start(
        self,
        types: Seq<DefinedTypeView>,
        func_index: u32,
        args: Seq<u32>,
        offset: int,
    ) -> (ComponentView, Result<()>) {
        if self.has_start {
            (
                self,
                Err(error_at("component cannot have more than one start function", offset)),
            )
        } else {
            match self.component_function_at(types, func_index, offset) {
                Err(e) => (self, Err(e)),
                Ok(place) => {
                    let func = types[place as int]->ComponentFunc_0;
                    if func.params.len() != args.len() {
                        (
                            self,
                            Err(
                                number_error_at(
                                    "component start function requires ",
                                    func.params.len() as int,
                                    " arguments",
                                    offset,
                                ),
                            ),
                        )
                    } else {
                        match self.start_arguments(types, func.params, args, 0, offset) {
                            (c, Err(e)) => (c, Err(e)),
                            (c, Ok(_)) => (
                                ComponentView {
                                    values: if func.result == TypeUse::Primitive(
                                        PrimitiveInterfaceType::Unit,
                                    ) {
                                        c.values
                                    } else {
                                        c.values.push((func.result, false))
                                    },
                                    has_start: true,
                                    ..c
                                },
                                Ok(()),
                            ),
                        }
                    }
                },
            }
        }
    }
}

fn has_func(types: &TypeList, exports: &NameMap<EntityType>, name: &str, ty: &FuncType) -> (yes:
    bool)
    requires
        exports_ok(exports@, types@),
    ensures
        yes == exports_func(types@, exports@, name@, ty@),
{
    match exports.get(name) {
        Some(EntityType::Func(place)) => {
            proof {
                lemma_lookup(exports@, name@);
            }
            same_func_type(types.func(*place), ty)
        },
        _ => false,
    }
}

fn check_provides_memory(types: &TypeList, exports: &NameMap<EntityType>, offset: usize) -> (result:
    Result<()>)
    requires
        exports_ok(exports@, types@),
    ensures
        result == provides_memory(types@, exports@, offset as int),
{
    if !matches!(exports.get("memory"), Some(EntityType::Memory(_))) {
        return Err(
            BinaryReaderError::new("instance does not export a memory named `memory`", offset),
        );
    }
    let realloc = FuncType {
        params: vec![Type::I32, Type::I32, Type::I32, Type::I32],
        returns: vec![Type::I32],
    };
    assert(realloc@ =~= realloc_type());
    if !has_func(types, exports, "canonical_abi_realloc", &realloc) {
        return Err(
            BinaryReaderError::new(
                "instance does not export a function named `canonical_abi_realloc` of the right type",
                offset,
            ),
        );
    }
    let free = FuncType {
        params: vec![Type::I32, Type::I32, Type::I32],
        returns: Vec::new(),
    };
    assert(free@ =~= free_type());
    if !has_func(types, exports, "canonical_abi_free", &free) {
        return Err(
            BinaryReaderError::new(
                "instance does not export a function named `canonical_abi_free` of the right type",
                offset,
            ),
        );
    }
    Ok(())
}

impl ComponentState {
    /// Checks the options of a function.
    pub fn check_options(&self, options: &Vec<CanonicalOption>, types: &TypeList, offset: usize) -> (
    result: Result<()>)
        requires
            types_ok(types@),
            self@.wf(types@),
        ensures
            result == self@.check_options(types@, options@, 0, false, false, offset as int),
    {
        let mut encoded = false;
        let mut provided = false;
        let mut i: usize = 0;
        while i < options.len()
            invariant
                i <= options@.len(),
                types_ok(types@),
                self@.wf(types@),
                self@.check_options(types@, options@, 0, false, false, offset as int)
                    == self@.check_options(
                    types@,
                    options@,
                    i as int,
                    encoded,
                    provided,
                    offset as int,
                ),
            decreases options@.len() - i,
        {
            match options[i] {
                CanonicalOption::Into(instance) => {
                    if provided {
                        return Err(
                            BinaryReaderError::new(
                                "canonical option `into` is specified more than once",
                                offset,
                            ),
                        );
                    }
                    let place = self.module_instance_at(instance, types, offset)?;
                    assert(types@[place as int].ok(types@.take(place as int)));
                    match types.get(place) {
                        DefinedType::ModuleInstance(exports) => check_provides_memory(
                            types,
                            exports,
                            offset,
                        )?,
                        _ => {},
                    }
                    provided = true;
                },
                _ => {
                    if encoded {
                        return Err(
                            BinaryReaderError::new(
                                "canonical encoding option conflicts with another one",
                                offset,
                            ),
                        );
                    }
                    encoded = true;
                },
            }
            i = i + 1;
        }
        Ok(())
    }

    /// Adds a component function made from a core function.
    pub fn lift_function(
        &mut self,
        type_index: u32,
        func_index: u32,
        options: &Vec<CanonicalOption>,
        types: &TypeList,
        offset: usize,
    ) -> (result: Result<()>)
        requires
            types_ok(types@),
            old(self)@.wf(types@),
        ensures
            final(self)@.wf(types@),
            (final(self)@, result) == old(self)@.lift_function(
                types@,
                type_index,
                func_index,
                options@,
                offset as int,
            ),
    {
        let place = self.type_at(type_index, offset)?;
        assert(place < types@.len());
        assert(types@[place as int].ok(types@.take(place as int)));
        let func = match types.get(place) {
            DefinedType::ComponentFunc(func) => func,
            _ => {
                return Err(
                    BinaryReaderError::with_number(
                        "type index ",
                        type_index as u64,
                        " is not a function type",
                        offset,
                    ),
                );
            },
        };
        let core = self.core_function_at(func_index, types, offset)?;
        self.check_options(options, types, offset)?;
        let expected = lift_type(types, func);
        if !same_func_type(types.func(core), &expected) {
            return Err(
                BinaryReaderError::new(
                    "lowered function type does not match the type of the core function",
                    offset,
                ),
            );
        }
        self.functions.push(place);
        assert(self@ == (ComponentView {
            functions: old(self)@.functions.push(place),
            ..old(self)@
        }));
        Ok(())
    }

    /// Adds a core function made from a component function.
    pub fn lower_function(
        &mut self,
        func_index: u32,
        options: &Vec<CanonicalOption>,
        types: &mut TypeList,
        offset: usize,
    ) -> (result: Result<()>)
        requires
            types_ok(old(types)@),
            old(self)@.wf(old(types)@),
        ensures
            types_ok(final(types)@),
            final(self)@.wf(final(types)@),
            (final(self)@, final(types)@, result) == old(self)@.lower_function(
                old(types)@,
                func_index,
                options@,
                offset as int,
            ),
    {
        let place = self.component_function_at(func_index, types, offset)?;
        self.check_options(options, types, offset)?;
        assert(types@[place as int].ok(types@.take(place as int)));
        let ty = lower_type(types, types.component_func(place));
        proof {
            lemma_types_ok_push(types@, DefinedTypeView::Func(ty@));
        }
        let core = types.push(DefinedType::Func(ty));
        self.functions.push(core);
        assert(self@ == (ComponentView {
            functions: old(self)@.functions.push(core),
            ..old(self)@
        }));
        Ok(())
    }

    /// Adds the start function.
    pub fn add_start(
        &mut self,
        func_index: u32,
        args: &Vec<u32>,
        types: &TypeList,
        offset: usize,
    ) -> (result: Result<()>)
        requires
            types_ok(types@),
            old(self)@.wf(types@),
        ensures
            final(self)@.wf(types@),
            (final(self)@, result) == old(self)@.add_start(
                types@,
                func_index,
                args@,
                offset as int,
            ),
    {
        if self.has_start {
            return Err(
                BinaryReaderError::new(
                    "component cannot have more than one start function",
                    offset,
                ),
            );
        }
        let place = self.component_function_at(func_index, types, offset)?;
        assert(types@[place as int].ok(types@.take(place as int)));
        let func = types.component_func(place);
        if func.params.len() != args.len() {
            return Err(
                BinaryReaderError::with_number(
                    "component start function requires ",
                    func.params.len() as u64,
                    " arguments",
                    offset,
                ),
            );
        }
        let mut i: usize = 0;
        while i < args.len()
            invariant
                i <= args@.len(),
                args@.len() == func.params@.len(),
                types_ok(types@),
                DefinedTypeView::ComponentFunc(func@).ok(types@),
                self@.wf(types@),
                self@.has_start == old(self)@.has_start,
                old(self)@.start_arguments(types@, func@.params, args@, 0, offset as int)
                    == self@.start_arguments(
                    types@,
                    func@.params,
                    args@,
                    i as int,
                    offset as int,
                ),
                !old(self)@.has_start,
                old(self)@.component_function_at(types@, func_index, offset as int) == Ok::<
                    usize,
                    BinaryReaderError,
                >(place),
                func@ == types@[place as int]->ComponentFunc_0,
            decreases args@.len() - i,
        {
            assert(func@.params[i as int] == func.params@[i as int]@);
            let ghost before = self@;
            let ty = self.value_at(args[i], offset)?;
            assert(before.values[args@[i as int] as int].0.ok(types@));
            if !is_sub_use(types, ty, func.params[i].ty) {
                return Err(
                    BinaryReaderError::with_number(
                        "value type mismatch for component start function argument ",
                        i as u64,
                        "",
                        offset,
                    ),
                );
            }
            i = i + 1;
        }
        match func.result {
            TypeUse::Primitive(PrimitiveInterfaceType::Unit) => {},
            ty => self.values.push((ty, false)),
        }
        self.has_start = true;
        Ok(())
    }
}

} // verus!
