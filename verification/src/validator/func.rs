//! Validation of function bodies.

use super::features::WasmFeatures;
use super::module::{Module, ModuleView};
use super::operators::{Env, EnvView, Frame, FrameKind, OperatorValidator, OpsView};
use super::types::DefinedTypeView;
use crate::error::{error_at, viewed, BinaryReaderError, Result};
use crate::limits::MAX_WASM_FUNCTION_LOCALS;
use crate::reader::binary_reader::{BinaryReader, Cursor};
use crate::reader::operators::{parse_operator, read_operator, BlockType, Operator, OperatorView};
use crate::reader::sections::FunctionBody;
use crate::reader::types::{copy_types, FromReader, Type};
use std::sync::Arc;
use vstd::prelude::*;

verus! {

/// What a function body is validated against: the module it is in.
pub struct ValidatorResources(pub Arc<Module>);

impl View for ValidatorResources {
    type V = ModuleView;

    open spec fn view(&self) -> ModuleView {
        self.0@
    }
}

/// Validates a function body.
///
/// It holds all it needs of the validator that made it, and can be used
/// while that one goes on.
pub struct FuncValidator<T> {
    validator: OperatorValidator,
    resources: T,
    features: WasmFeatures,
}

/// What a [`FuncValidator`] holds.
pub struct FuncView {
    /// The locals, the stack and the open blocks.
    pub ops: OpsView,
    /// The module.
    pub module: ModuleView,
    /// The features that are enabled.
    pub features: WasmFeatures,
}

impl View for FuncValidator<ValidatorResources> {
    type V = FuncView;

    closed spec fn view(&self) -> FuncView {
        FuncView { ops: self.validator@, module: self.resources@, features: self.features }
    }
}

impl FuncView {
    /// The types that the module had when its code section started.
    pub open spec fn types(self) -> Seq<DefinedTypeView> {
        self.module.snapshot->0
    }

    /// The code section of the module has started, and what the module says of
    /// types is true.
    pub open spec fn wf(self) -> bool {
        self.module.snapshot is Some && self.module.wf(self.types())
    }

    /// What operators are validated against.
    pub open spec fn env(self) -> EnvView {
        EnvView { module: self.module, types: self.types(), features: self.features }
    }

    /// The state in front of a function body: the parameters are the first
    /// locals, and one block, the function, is open.
    pub open spec fn start(
        ty: u32,
        offset: int,
        module: ModuleView,
        features: WasmFeatures,
    ) -> Result<FuncView> {
        match module.func_type_at(module.snapshot->0, ty, offset) {
            Err(e) => Err(e),
            Ok(func) => Ok(
                FuncView {
                    ops: OpsView {
                        locals: func.params,
                        operands: Seq::empty(),
                        control: seq![
                            Frame {
                                kind: FrameKind::Block,
                                block_type: BlockType::FuncType(ty),
                                height: 0,
                                unreachable: false,
                            },
                        ],
                    },
                    module,
                    features,
                },
            ),
        }
    }

    /// The state with more locals.
    pub open spec fn define_locals(self, offset: int, count: u32, ty: Type) -> (
        FuncView,
        Result<()>,
    ) {
        match self.features.value_type_at(ty, offset) {
            Err(e) => (self, Err(e)),
            Ok(_) => if self.ops.locals.len() + count > MAX_WASM_FUNCTION_LOCALS {
                (self, Err(error_at("too many locals: locals exceed maximum", offset)))
            } else {
                (
                    FuncView {
                        ops: OpsView {
                            locals: self.ops.locals + Seq::new(count as nat, |i: int| ty),
                            ..self.ops
                        },
                        ..self
                    },
                    Ok(()),
                )
            },
        }
    }

    /// Reads `n` declarations of locals.
    pub open spec fn declarations(self, c: Cursor, n: nat) -> (FuncView, Cursor, Result<()>)
        decreases n,
    {
        if n == 0 {
            (self, c, Ok(()))
        } else {
            match c.var_u32() {
                (d, Err(e)) => (self, d, Err(e)),
                (d, Ok(count)) => match <Type as FromReader>::parse(d) {
                    (d, Err(e)) => (self, d, Err(e)),
                    (d, Ok(ty)) => match self.define_locals(c.offset(), count, ty) {
                        (s, Err(e)) => (s, d, Err(e)),
                        (s, Ok(_)) => s.declarations(d, (n - 1) as nat),
                    },
                },
            }
        }
    }

    /// Reads the declarations of locals at the start of a body.
    pub open spec fn read_locals(self, c: Cursor) -> (FuncView, Cursor, Result<()>) {
        match c.var_u32() {
            (d, Err(e)) => (self, d, Err(e)),
            (d, Ok(n)) => self.declarations(d, n as nat),
        }
    }

    /// Validates an operator.
    pub open spec fn op(self, offset: int, op: OperatorView) -> (FuncView, Result<()>) {
        let (ops, result) = self.ops.op(self.env(), op, offset);
        (FuncView { ops, ..self }, result)
    }

    /// Validates that the function has ended.
    pub open spec fn finish(self, offset: int) -> Result<()> {
        if self.ops.control.len() > 0 {
            Err(
                error_at(
                    "control frames remain at end of function: END opcode expected",
                    offset,
                ),
            )
        } else {
            Ok(())
        }
    }

    /// Reads and validates all operators up to the end of a body.
    pub open spec fn operators(self, c: Cursor) -> (FuncView, Result<()>)
        decreases c.left(),
        when c.wf()
    {
        if c.left() == 0 {
            (self, self.finish(c.offset()))
        } else {
            match parse_operator(c, self.features.memory64) {
                (d, Err(e)) => (self, Err(e)),
                (d, Ok(op)) => match self.op(c.offset(), op) {
                    (s, Err(e)) => (s, Err(e)),
                    (s, Ok(_)) => if d.follows(c) && d.pos > c.pos && d.wf() {
                        s.operators(d)
                    } else {
                        (s, Err(d.end_of_file()))
                    },
                },
            }
        }
    }

    /// Validates a body.
    pub open spec fn validate(self, c: Cursor) -> (FuncView, Result<()>) {
        match self.read_locals(c) {
            (s, d, Err(e)) => (s, Err(e)),
            (s, d, Ok(_)) => s.operators(d),
        }
    }
}

impl FuncValidator<ValidatorResources> {
    /// Creates a validator of a body of a function with the type with index `ty`.
    pub fn new(ty: u32, offset: usize, resources: ValidatorResources, features: &WasmFeatures) -> (
        result: Result<Self>)
        requires
            resources@.snapshot matches Some(types) && resources@.wf(types),
        ensures
            viewed(result) == FuncView::start(ty, offset as int, resources@, *features),
            result matches Ok(validator) ==> validator@.wf(),
    {
        let locals = match &resources.0.snapshot {
            Some(types) => {
                let func = resources.0.func_type_at(ty, types, offset)?;
                copy_types(&func.params)
            },
            None => Vec::new(),
        };
        let mut control: Vec<Frame> = Vec::new();
        control.push(
            Frame {
                kind: FrameKind::Block,
                block_type: BlockType::FuncType(ty),
                height: 0,
                unreachable: false,
            },
        );
        let validator = FuncValidator {
            validator: OperatorValidator { locals, operands: Vec::new(), control },
            resources,
            features: *features,
        };
        assert(validator@.ops =~= FuncView::start(
            ty,
            offset as int,
            resources@,
            *features,
        )->Ok_0.ops);
        Ok(validator)
    }

    /// Adds `count` locals of a type.
    pub fn define_locals(&mut self, offset: usize, count: u32, ty: Type) -> (result: Result<()>)
        ensures
            (final(self)@, result) == old(self)@.define_locals(offset as int, count, ty),
    {
        self.features.check_value_type_at(ty, offset)?;
        let len = self.validator.locals.len();
        if len > MAX_WASM_FUNCTION_LOCALS || count as usize > MAX_WASM_FUNCTION_LOCALS - len {
            return Err(BinaryReaderError::new("too many locals: locals exceed maximum", offset));
        }
        let mut i: u32 = 0;
        while i < count
            invariant
                i <= count,
                self.features == old(self).features,
                self.resources == old(self).resources,
                self.validator@ == (OpsView {
                    locals: old(self).validator@.locals + Seq::new(i as nat, |i: int| ty),
                    ..old(self).validator@
                }),
            decreases count - i,
        {
            self.validator.locals.push(ty);
            i = i + 1;
            assert(self.validator@.locals =~= old(self).validator@.locals + Seq::new(
                i as nat,
                |i: int| ty,
            ));
        }
        Ok(())
    }

    /// Reads the declarations of locals at the start of a body.
    pub fn read_locals(&mut self, reader: &mut BinaryReader<'_>) -> (result: Result<()>)
        requires
            old(reader)@.wf(),
        ensures
            (final(self)@, final(reader)@, result) == old(self)@.read_locals(old(reader)@),
            final(reader)@.wf(),
            final(reader)@.follows(old(reader)@),
            final(self)@.module == old(self)@.module,
            final(self)@.features == old(self)@.features,
    {
        let mut left = reader.read_var_u32()?;
        let ghost whole = self@.declarations(reader@, left as nat);
        while left > 0
            invariant
                reader@.wf(),
                reader@.follows(old(reader)@),
                whole == self@.declarations(reader@, left as nat),
                old(self)@.read_locals(old(reader)@) == whole,
                self@.module == old(self)@.module,
                self@.features == old(self)@.features,
            decreases left,
        {
            let offset = reader.original_position();
            let count = reader.read_var_u32()?;
            let ty = Type::from_reader(reader)?;
            self.define_locals(offset, count, ty)?;
            left = left - 1;
        }
        Ok(())
    }

    /// Validates an operator.
    pub fn op(&mut self, offset: usize, operator: &Operator) -> (result: Result<()>)
        requires
            old(self)@.wf(),
        ensures
            (final(self)@, result) == old(self)@.op(offset as int, operator@),
    {
        match &self.resources.0.snapshot {
            Some(types) => {
                let env = Env { module: &*self.resources.0, types, features: self.features };
                self.validator.process_operator(&env, operator, offset)
            },
            None => Ok(()),
        }
    }

    /// Validates that the function has ended.
    pub fn finish(&self, offset: usize) -> (result: Result<()>)
        ensures
            result == self@.finish(offset as int),
    {
        if self.validator.control.len() > 0 {
            return Err(
                BinaryReaderError::new(
                    "control frames remain at end of function: END opcode expected",
                    offset,
                ),
            );
        }
        Ok(())
    }

    /// Validates a body: its declarations of locals, and then its operators.
    pub fn validate(&mut self, body: &FunctionBody<'_>) -> (result: Result<()>)
        requires
            old(self)@.wf(),
            body@.wf(),
        ensures
            (final(self)@, result) == old(self)@.validate(body@),
    {
        let mut reader = body.get_binary_reader();
        self.read_locals(&mut reader)?;
        while !reader.eof()
            invariant
                reader@.wf(),
                self@.wf(),
                old(self)@.validate(body@) == self@.operators(reader@),
            decreases reader@.left(),
        {
            let offset = reader.original_position();
            let operator = read_operator(&mut reader, self.features.memory64)?;
            self.op(offset, &operator)?;
        }
        self.finish(reader.original_position())
    }
}

} // verus!
