//! Validation of the operators of a function body.

use super::features::{check_enabled, enabled, WasmFeatures};
use super::module::{check_floats, floats_at, mismatch, missing, type_to_str, Module, ModuleView};
use super::types::{is_func_type, DefinedTypeView, TypeList};
use crate::error::{error_at, number_error_at, viewed, BinaryReaderError, Result};
use crate::reader::operators::{
    Access, BlockType, MemArg, Op, Operator, OperatorView, Params, Simple,
};
use crate::reader::types::{copy_types, FuncType, FuncTypeView, MemoryType, Type};
use vstd::prelude::*;

verus! {

/// What opened a block.
#[derive(Debug, Copy, Clone, PartialEq, Eq, Structural)]
pub enum FrameKind {
    /// A `block`, or the body of the function.
    Block,
    /// An `if`.
    If,
    /// An `else`.
    Else,
    /// A `loop`.
    Loop,
    /// A `try`.
    Try,
    /// A `catch`.
    Catch,
    /// A `catch_all`.
    CatchAll,
}

/// A block that is open.
#[derive(Debug, Copy, Clone, PartialEq, Eq, Structural)]
pub struct Frame {
    /// What opened it.
    pub kind: FrameKind,
    /// What it takes and gives.
    pub block_type: BlockType,
    /// How many values were on the stack below it.
    pub height: usize,
    /// Whether the code that follows is never reached.
    pub unreachable: bool,
}

/// What operators are validated against.
#[derive(Clone, Copy)]
pub struct Env<'e> {
    /// The module.
    pub module: &'e Module,
    /// The list of all types.
    pub types: &'e TypeList,
    /// The features that are enabled.
    pub features: WasmFeatures,
}

/// What an [`Env`] holds.
pub struct EnvView {
    /// The module.
    pub module: ModuleView,
    /// The list of all types.
    pub types: Seq<DefinedTypeView>,
    /// The features that are enabled.
    pub features: WasmFeatures,
}

impl<'e> View for Env<'e> {
    type V = EnvView;

    open spec fn view(&self) -> EnvView {
        EnvView { module: self.module@, types: self.types@, features: self.features }
    }
}

impl EnvView {
    /// What the module says of types is true.
    pub open spec fn wf(self) -> bool {
        self.module.wf(self.types)
    }

    /// The values that a block takes.
    pub open spec fn params(self, ty: BlockType) -> Seq<Type> {
        match ty {
            BlockType::FuncType(index) => match self.module.func_type_at(self.types, index, 0) {
                Ok(func) => func.params,
                Err(_) => Seq::empty(),
            },
            _ => Seq::empty(),
        }
    }

    /// The values that a block gives.
    pub open spec fn results(self, ty: BlockType) -> Seq<Type> {
        match ty {
            BlockType::Empty => Seq::empty(),
            BlockType::Type(ty) => seq![ty],
            BlockType::FuncType(index) => match self.module.func_type_at(self.types, index, 0) {
                Ok(func) => func.returns,
                Err(_) => Seq::empty(),
            },
        }
    }

    /// The values that a branch to a block takes along.
    pub open spec fn label(self, frame: Frame) -> Seq<Type> {
        if frame.kind == FrameKind::Loop {
            self.params(frame.block_type)
        } else {
            self.results(frame.block_type)
        }
    }

    /// Why the type of a block is refused, if it is.
    pub open spec fn block_type(self, ty: BlockType, offset: int) -> Result<()> {
        match ty {
            BlockType::Empty => Ok(()),
            BlockType::Type(ty) => self.features.value_type_at(ty, offset),
            BlockType::FuncType(index) => if !self.features.multi_value {
                Err(
                    error_at(
                        "blocks, loops, and ifs may only produce a resulttype when multi-value is not enabled",
                        offset,
                    ),
                )
            } else {
                match self.module.func_type_at(self.types, index, offset) {
                    Ok(_) => Ok(()),
                    Err(e) => Err(e),
                }
            },
        }
    }

    /// The values that an exception carries.
    pub open spec fn tag(self, index: u32, offset: int) -> Result<Seq<Type>> {
        if index < self.module.tags.len() {
            Ok(self.types[self.module.tags[index as int] as int]->Func_0.params)
        } else {
            Err(
                number_error_at("unknown tag ", index as int, ": tag index out of bounds", offset),
            )
        }
    }

    /// The memory with an index.
    pub open spec fn memory(self, index: u32, offset: int) -> Result<MemoryType> {
        if index > 0 && !self.features.multi_memory {
            Err(error_at("multi-memory support is not enabled", offset))
        } else {
            self.module.memory_at(index, offset)
        }
    }

    /// The memory that an operator accesses, if it accesses it as it should.
    pub open spec fn accessed(self, access: Access, memarg: MemArg, offset: int) -> Result<
        MemoryType,
    > {
        match self.memory(memarg.memory, offset) {
            Err(e) => Err(e),
            Ok(memory) => if access.atomic && memarg.align != access.natural {
                Err(
                    error_at("atomic instructions must always specify maximum alignment", offset),
                )
            } else if memarg.align > access.natural {
                Err(error_at("alignment must not be larger than natural", offset))
            } else if memarg.offset > u32::MAX && !memory.memory64 {
                Err(error_at("offset out of range: must be <= 2**32", offset))
            } else {
                Ok(memory)
            },
        }
    }

    /// The type of the elements of an element segment.
    pub open spec fn element(self, index: u32, offset: int) -> Result<Type> {
        if index < self.module.element_types.len() {
            Ok(self.module.element_types[index as int])
        } else {
            Err(
                number_error_at(
                    "unknown elem segment ",
                    index as int,
                    ": segment index out of bounds",
                    offset,
                ),
            )
        }
    }

    /// Checks the index of a data segment.
    pub open spec fn data(self, index: u32, offset: int) -> Result<()> {
        match self.module.data_count {
            None => Err(error_at("data count section required", offset)),
            Some(count) => if index < count {
                Ok(())
            } else {
                Err(
                    number_error_at(
                        "unknown data segment ",
                        index as int,
                        ": segment index out of bounds",
                        offset,
                    ),
                )
            },
        }
    }

    /// The type of what an indirect call calls, which has to go through a table
    /// of functions.
    pub open spec fn indirect(self, ty: u32, table: u32, offset: int) -> Result<FuncTypeView> {
        match self.module.table_at(table, offset) {
            Err(e) => Err(e),
            Ok(table) => if table.element_type != Type::FuncRef {
                Err(error_at("indirect calls must go through a table of funcref", offset))
            } else {
                self.module.func_type_at(self.types, ty, offset)
            },
        }
    }
}

impl<'e> Env<'e> {
    fn block_params(&self, ty: BlockType) -> (params: Vec<Type>)
        requires
            self@.wf(),
        ensures
            params@ == self@.params(ty),
    {
        match ty {
            BlockType::FuncType(index) => match self.module.func_type_at(index, self.types, 0) {
                Ok(func) => copy_types(&func.params),
                Err(_) => Vec::new(),
            },
            _ => Vec::new(),
        }
    }

    fn block_results(&self, ty: BlockType) -> (results: Vec<Type>)
        requires
            self@.wf(),
        ensures
            results@ == self@.results(ty),
    {
        match ty {
            BlockType::Empty => Vec::new(),
            BlockType::Type(ty) => {
                let mut results = Vec::new();
                results.push(ty);
                assert(results@ =~= seq![ty]);
                results
            },
            BlockType::FuncType(index) => match self.module.func_type_at(index, self.types, 0) {
                Ok(func) => copy_types(&func.returns),
                Err(_) => Vec::new(),
            },
        }
    }

    fn label_types(&self, frame: Frame) -> (types: Vec<Type>)
        requires
            self@.wf(),
        ensures
            types@ == self@.label(frame),
    {
        if frame.kind == FrameKind::Loop {
            self.block_params(frame.block_type)
        } else {
            self.block_results(frame.block_type)
        }
    }

    fn check_block_type(&self, ty: BlockType, offset: usize) -> (result: Result<()>)
        requires
            self@.wf(),
        ensures
            result == self@.block_type(ty, offset as int),
    {
        match ty {
            BlockType::Empty => Ok(()),
            BlockType::Type(ty) => self.features.check_value_type_at(ty, offset),
            BlockType::FuncType(index) => {
                if !self.features.multi_value {
                    return Err(
                        BinaryReaderError::new(
                            "blocks, loops, and ifs may only produce a resulttype when multi-value is not enabled",
                            offset,
                        ),
                    );
                }
                self.module.func_type_at(index, self.types, offset)?;
                Ok(())
            },
        }
    }

    fn tag_at(&self, index: u32, offset: usize) -> (result: Result<Vec<Type>>)
        requires
            self@.wf(),
        ensures
            viewed(result) == self@.tag(index, offset as int),
    {
        if index as usize >= self.module.tags.len() {
            return Err(
                BinaryReaderError::with_number(
                    "unknown tag ",
                    index as u64,
                    ": tag index out of bounds",
                    offset,
                ),
            );
        }
        let place = self.module.tags[index as usize];
        assert(is_func_type(self.types@, place));
        Ok(copy_types(&self.types.func(place).params))
    }

    fn memory_at(&self, index: u32, offset: usize) -> (result: Result<MemoryType>)
        ensures
            result == self@.memory(index, offset as int),
    {
        if index > 0 && !self.features.multi_memory {
            return Err(BinaryReaderError::new("multi-memory support is not enabled", offset));
        }
        self.module.memory_at(index, offset)
    }

    fn check_memarg(&self, access: &Access, memarg: &MemArg, offset: usize) -> (result: Result<
        MemoryType,
    >)
        ensures
            result == self@.accessed(*access, *memarg, offset as int),
    {
        let memory = self.memory_at(memarg.memory, offset)?;
        if access.atomic && memarg.align != access.natural {
            return Err(
                BinaryReaderError::new(
                    "atomic instructions must always specify maximum alignment",
                    offset,
                ),
            );
        }
        if memarg.align > access.natural {
            return Err(BinaryReaderError::new("alignment must not be larger than natural", offset));
        }
        if memarg.offset > u32::MAX as u64 && !memory.memory64 {
            return Err(BinaryReaderError::new("offset out of range: must be <= 2**32", offset));
        }
        Ok(memory)
    }

    fn element_type_at(&self, index: u32, offset: usize) -> (result: Result<Type>)
        ensures
            result == self@.element(index, offset as int),
    {
        if (index as usize) < self.module.element_types.len() {
            Ok(self.module.element_types[index as usize])
        } else {
            Err(
                BinaryReaderError::with_number(
                    "unknown elem segment ",
                    index as u64,
                    ": segment index out of bounds",
                    offset,
                ),
            )
        }
    }

    fn check_data_segment(&self, index: u32, offset: usize) -> (result: Result<()>)
        ensures
            result == self@.data(index, offset as int),
    {
        match self.module.data_count {
            None => Err(BinaryReaderError::new("data count section required", offset)),
            Some(count) => if index < count {
                Ok(())
            } else {
                Err(
                    BinaryReaderError::with_number(
                        "unknown data segment ",
                        index as u64,
                        ": segment index out of bounds",
                        offset,
                    ),
                )
            },
        }
    }

    fn indirect_type(&self, ty: u32, table: u32, offset: usize) -> (result: Result<&'e FuncType>)
        requires
            self@.wf(),
        ensures
            viewed(result) == self@.indirect(ty, table, offset as int),
    {
        let table = self.module.table_at(table, offset)?;
        if table.element_type != Type::FuncRef {
            return Err(
                BinaryReaderError::new("indirect calls must go through a table of funcref", offset),
            );
        }
        self.module.func_type_at(ty, self.types, offset)
    }
}

/// The state of the validation of operators.
pub struct OperatorValidator {
    /// The locals, the parameters among them.
    pub locals: Vec<Type>,
    /// The stack. A value without a type stands for one of any type.
    pub operands: Vec<Option<Type>>,
    /// The open blocks.
    pub control: Vec<Frame>,
}

/// What an [`OperatorValidator`] holds.
#[verifier::ext_equal]
pub struct OpsView {
    /// The locals.
    pub locals: Seq<Type>,
    /// The stack.
    pub operands: Seq<Option<Type>>,
    /// The open blocks.
    pub control: Seq<Frame>,
}

impl View for OperatorValidator {
    type V = OpsView;

    open spec fn view(&self) -> OpsView {
        OpsView { locals: self.locals@, operands: self.operands@, control: self.control@ }
    }
}

/// Each type of a list, as it stands on the stack.
pub open spec fn known(types: Seq<Type>) -> Seq<Option<Type>> {
    types.map_values(|ty: Type| Some(ty))
}

/// The error for a value that is missing.
pub open spec fn nothing_on_stack(expected: Option<Type>, offset: int) -> BinaryReaderError {
    match expected {
        Some(ty) => missing(ty, offset),
        None => error_at("type mismatch: expected a type but nothing on stack", offset),
    }
}

impl OpsView {
    /// The state with one more value.
    pub open spec fn push(self, ty: Option<Type>) -> OpsView {
        OpsView { operands: self.operands.push(ty), ..self }
    }

    /// The state with more values.
    pub open spec fn push_list(self, types: Seq<Type>) -> OpsView {
        OpsView { operands: self.operands + known(types), ..self }
    }

    /// The value on top of the stack, which has to be of the expected type, if
    /// one is expected. In code that is never reached there are values of any
    /// type.
    pub open spec fn pop(self, expected: Option<Type>, offset: int) -> (
        OpsView,
        Result<Option<Type>>,
    ) {
        if self.control.len() == 0 {
            (self, Err(error_at("operators remaining after end of function", offset)))
        } else if self.operands.len() <= self.control.last().height {
            if self.control.last().unreachable {
                (self, Ok(None))
            } else {
                (self, Err(nothing_on_stack(expected, offset)))
            }
        } else {
            let actual = self.operands.last();
            let below = OpsView { operands: self.operands.drop_last(), ..self };
            if actual is Some && expected is Some && actual != expected {
                (below, Err(mismatch(expected->0, offset)))
            } else {
                (below, Ok(actual))
            }
        }
    }

    /// Takes a value of a type.
    pub open spec fn pop1(self, ty: Type, offset: int) -> (OpsView, Result<()>) {
        match self.pop(Some(ty), offset) {
            (s, Err(e)) => (s, Err(e)),
            (s, Ok(_)) => (s, Ok(())),
        }
    }

    /// Takes a value of one type, and then one of another.
    pub open spec fn pop2(self, first: Type, second: Type, offset: int) -> (OpsView, Result<()>) {
        match self.pop1(first, offset) {
            (s, Err(e)) => (s, Err(e)),
            (s, Ok(_)) => s.pop1(second, offset),
        }
    }

    /// Takes three values, one behind the other.
    pub open spec fn pop3(self, first: Type, second: Type, third: Type, offset: int) -> (
        OpsView,
        Result<()>,
    ) {
        match self.pop2(first, second, offset) {
            (s, Err(e)) => (s, Err(e)),
            (s, Ok(_)) => s.pop1(third, offset),
        }
    }

    /// Takes values, the last one first.
    pub open spec fn pop_list(self, types: Seq<Type>, offset: int) -> (OpsView, Result<()>)
        decreases types.len(),
    {
        if types.len() == 0 {
            (self, Ok(()))
        } else {
            match self.pop1(types.last(), offset) {
                (s, Err(e)) => (s, Err(e)),
                (s, Ok(_)) => s.pop_list(types.drop_last(), offset),
            }
        }
    }

    /// Taking values leaves the open blocks as they are.
    pub proof fn pop_list_keeps(self, types: Seq<Type>, offset: int)
        ensures
            self.pop_list(types, offset).0.control == self.control,
            self.pop_list(types, offset).0.locals == self.locals,
        decreases types.len(),
    {
        if types.len() > 0 {
            self.pop1(types.last(), offset).0.pop_list_keeps(types.drop_last(), offset);
        }
    }

    /// Takes values, the last one first, and puts them back; `popped` have been
    /// taken already.
    pub open spec fn check_list(
        self,
        types: Seq<Type>,
        popped: Seq<Option<Type>>,
        offset: int,
    ) -> (OpsView, Result<()>)
        decreases types.len(),
    {
        if types.len() == 0 {
            (OpsView { operands: self.operands + popped.reverse(), ..self }, Ok(()))
        } else {
            match self.pop(Some(types.last()), offset) {
                (s, Err(e)) => (s, Err(e)),
                (s, Ok(ty)) => s.check_list(types.drop_last(), popped.push(ty), offset),
            }
        }
    }

    /// Opens a block, whose parameters are already on the stack, or are put there.
    pub open spec fn push_ctrl(self, env: EnvView, kind: FrameKind, block_type: BlockType) -> OpsView {
        OpsView {
            control: self.control.push(
                Frame {
                    kind,
                    block_type,
                    height: self.operands.len() as usize,
                    unreachable: false,
                },
            ),
            ..self
        }.push_list(env.params(block_type))
    }

    /// Closes a block, whose results have to be all that is on the stack.
    pub open spec fn pop_ctrl(self, env: EnvView, offset: int) -> (OpsView, Result<Frame>) {
        if self.control.len() == 0 {
            (self, Err(error_at("operators remaining after end of function", offset)))
        } else {
            let frame = self.control.last();
            match self.pop_list(env.results(frame.block_type), offset) {
                (s, Err(e)) => (s, Err(e)),
                (s, Ok(_)) => if s.operands.len() != frame.height {
                    (
                        s,
                        Err(
                            error_at(
                                "type mismatch: values remaining on stack at end of block",
                                offset,
                            ),
                        ),
                    )
                } else {
                    (OpsView { control: s.control.drop_last(), ..s }, Ok(frame))
                },
            }
        }
    }

    /// Notes that the code that follows is never reached.
    pub open spec fn set_unreachable(self) -> OpsView {
        if self.control.len() == 0 {
            self
        } else {
            let frame = self.control.last();
            OpsView {
                operands: if frame.height <= self.operands.len() {
                    self.operands.take(frame.height as int)
                } else {
                    self.operands
                },
                control: self.control.drop_last().push(Frame { unreachable: true, ..frame }),
                ..self
            }
        }
    }

    /// The block that a branch goes to.
    pub open spec fn jump(self, depth: u32, offset: int) -> Result<Frame> {
        if depth < self.control.len() {
            Ok(self.control[self.control.len() - 1 - depth])
        } else {
            Err(error_at("unknown label: branch depth too large", offset))
        }
    }

    /// The type of a local.
    pub open spec fn local(self, index: u32, offset: int) -> Result<Type> {
        if index < self.locals.len() {
            Ok(self.locals[index as int])
        } else {
            Err(
                number_error_at(
                    "unknown local ",
                    index as int,
                    ": local index out of bounds",
                    offset,
                ),
            )
        }
    }

    /// Opens a block in code.
    pub open spec fn open(self, env: EnvView, kind: FrameKind, ty: BlockType, offset: int) -> (
        OpsView,
        Result<()>,
    ) {
        match env.block_type(ty, offset) {
            Err(e) => (self, Err(e)),
            Ok(_) => match self.pop_list(env.params(ty), offset) {
                (s, Err(e)) => (s, Err(e)),
                (s, Ok(_)) => (s.push_ctrl(env, kind, ty), Ok(())),
            },
        }
    }

    /// Takes what a function takes, and gives what it gives.
    pub open spec fn call(self, ty: FuncTypeView, offset: int) -> (OpsView, Result<()>) {
        match self.pop_list(ty.params, offset) {
            (s, Err(e)) => (s, Err(e)),
            (s, Ok(_)) => (s.push_list(ty.returns), Ok(())),
        }
    }

    /// Leaves the function.
    pub open spec fn leave(self, env: EnvView, offset: int) -> (OpsView, Result<()>) {
        if self.control.len() == 0 {
            (self, Err(error_at("operators remaining after end of function", offset)))
        } else {
            match self.pop_list(env.results(self.control[0].block_type), offset) {
                (s, Err(e)) => (s, Err(e)),
                (s, Ok(_)) => (s.set_unreachable(), Ok(())),
            }
        }
    }

    /// Calls a function in place of the rest of this one.
    pub open spec fn tail_call(self, env: EnvView, ty: FuncTypeView, offset: int) -> (
        OpsView,
        Result<()>,
    ) {
        match self.call(ty, offset) {
            (s, Err(e)) => (s, Err(e)),
            (s, Ok(_)) => s.leave(env, offset),
        }
    }

    /// What the operators that open, close and leave blocks do.
    pub open spec fn control_op(self, env: EnvView, op: Op, offset: int) -> (OpsView, Result<()>) {
        match op {
            Op::Unreachable => (self.set_unreachable(), Ok(())),
            Op::Block(ty) => self.open(env, FrameKind::Block, ty, offset),
            Op::Loop(ty) => self.open(env, FrameKind::Loop, ty, offset),
            Op::If(ty) => match env.block_type(ty, offset) {
                Err(e) => (self, Err(e)),
                Ok(_) => match self.pop1(Type::I32, offset) {
                    (s, Err(e)) => (s, Err(e)),
                    (s, Ok(_)) => s.open(env, FrameKind::If, ty, offset),
                },
            },
            Op::Else => match self.pop_ctrl(env, offset) {
                (s, Err(e)) => (s, Err(e)),
                (s, Ok(frame)) => if frame.kind != FrameKind::If {
                    (s, Err(error_at("else found outside of an `if` block", offset)))
                } else {
                    (s.push_ctrl(env, FrameKind::Else, frame.block_type), Ok(()))
                },
            },
            Op::End => match self.pop_ctrl(env, offset) {
                (s, Err(e)) => (s, Err(e)),
                (s, Ok(frame)) => if frame.kind == FrameKind::If {
                    match s.push_ctrl(env, FrameKind::Else, frame.block_type).pop_ctrl(env, offset) {
                        (s, Err(e)) => (s, Err(e)),
                        (s, Ok(frame)) => (s.push_list(env.results(frame.block_type)), Ok(())),
                    }
                } else {
                    (s.push_list(env.results(frame.block_type)), Ok(()))
                },
            },
            Op::Br(depth) => match self.jump(depth, offset) {
                Err(e) => (self, Err(e)),
                Ok(frame) => match self.pop_list(env.label(frame), offset) {
                    (s, Err(e)) => (s, Err(e)),
                    (s, Ok(_)) => (s.set_unreachable(), Ok(())),
                },
            },
            Op::BrIf(depth) => match self.pop1(Type::I32, offset) {
                (s, Err(e)) => (s, Err(e)),
                (s, Ok(_)) => match s.jump(depth, offset) {
                    Err(e) => (s, Err(e)),
                    Ok(frame) => match s.pop_list(env.label(frame), offset) {
                        (s, Err(e)) => (s, Err(e)),
                        (s, Ok(_)) => (s.push_list(env.label(frame)), Ok(())),
                    },
                },
            },
            Op::Return => self.leave(env, offset),
            Op::Call(func) => match env.module.get_func_type(env.types, func, offset) {
                Err(e) => (self, Err(e)),
                Ok(ty) => self.call(ty, offset),
            },
            Op::CallIndirect { ty, table, table_byte } => if table_byte != 0
                && !env.features.reference_types {
                (
                    self,
                    Err(error_at("reference-types not enabled: zero byte expected", offset)),
                )
            } else {
                match env.indirect(ty, table, offset) {
                    Err(e) => (self, Err(e)),
                    Ok(ty) => match self.pop1(Type::I32, offset) {
                        (s, Err(e)) => (s, Err(e)),
                        (s, Ok(_)) => s.call(ty, offset),
                    },
                }
            },
            Op::ReturnCall(func) => match enabled(env.features.tail_call, "tail calls", offset) {
                Err(e) => (self, Err(e)),
                Ok(_) => match env.module.get_func_type(env.types, func, offset) {
                    Err(e) => (self, Err(e)),
                    Ok(ty) => self.tail_call(env, ty, offset),
                },
            },
            Op::ReturnCallIndirect { ty, table } => match enabled(
                env.features.tail_call,
                "tail calls",
                offset,
            ) {
                Err(e) => (self, Err(e)),
                Ok(_) => match env.indirect(ty, table, offset) {
                    Err(e) => (self, Err(e)),
                    Ok(ty) => match self.pop1(Type::I32, offset) {
                        (s, Err(e)) => (s, Err(e)),
                        (s, Ok(_)) => s.tail_call(env, ty, offset),
                    },
                },
            },
            _ => (self, Ok(())),
        }
    }

    /// What the operators of the exception handling proposal do.
    pub open spec fn exception_op(self, env: EnvView, op: Op, offset: int) -> (OpsView, Result<()>) {
        match enabled(env.features.exceptions, "exceptions", offset) {
            Err(e) => (self, Err(e)),
            Ok(_) => match op {
                Op::Try(ty) => self.open(env, FrameKind::Try, ty, offset),
                Op::Catch(tag) => match self.pop_ctrl(env, offset) {
                    (s, Err(e)) => (s, Err(e)),
                    (s, Ok(frame)) => if frame.kind != FrameKind::Try && frame.kind
                        != FrameKind::Catch {
                        (s, Err(error_at("catch found outside of an `try` block", offset)))
                    } else {
                        match env.tag(tag, offset) {
                            Err(e) => (s, Err(e)),
                            Ok(params) => (
                                s.catch(FrameKind::Catch, frame.block_type).push_list(params),
                                Ok(()),
                            ),
                        }
                    },
                },
                Op::CatchAll => match self.pop_ctrl(env, offset) {
                    (s, Err(e)) => (s, Err(e)),
                    (s, Ok(frame)) => if frame.kind == FrameKind::CatchAll {
                        (
                            s,
                            Err(error_at("only one catch_all allowed per `try` block", offset)),
                        )
                    } else if frame.kind != FrameKind::Try && frame.kind != FrameKind::Catch {
                        (
                            s,
                            Err(error_at("catch_all found outside of a `try` block", offset)),
                        )
                    } else {
                        (s.catch(FrameKind::CatchAll, frame.block_type), Ok(()))
                    },
                },
                Op::Throw(tag) => match env.tag(tag, offset) {
                    Err(e) => (self, Err(e)),
                    Ok(params) => match self.pop_list(params, offset) {
                        (s, Err(e)) => (s, Err(e)),
                        (s, Ok(_)) => (s.set_unreachable(), Ok(())),
                    },
                },
                Op::Rethrow(depth) => match self.jump(depth, offset) {
                    Err(e) => (self, Err(e)),
                    Ok(frame) => if frame.kind != FrameKind::Catch && frame.kind
                        != FrameKind::CatchAll {
                        (
                            self,
                            Err(
                                error_at(
                                    "invalid rethrow label: target was not a `catch` block",
                                    offset,
                                ),
                            ),
                        )
                    } else {
                        (self.set_unreachable(), Ok(()))
                    },
                },
                Op::Delegate(depth) => match self.pop_ctrl(env, offset) {
                    (s, Err(e)) => (s, Err(e)),
                    (s, Ok(frame)) => if frame.kind != FrameKind::Try {
                        (s, Err(error_at("delegate found outside of an `try` block", offset)))
                    } else {
                        match s.jump(depth, offset) {
                            Err(e) => (s, Err(e)),
                            Ok(_) => (s.push_list(env.results(frame.block_type)), Ok(())),
                        }
                    },
                },
                _ => (self, Ok(())),
            },
        }
    }

    /// Opens the part of a `try` that handles exceptions.
    pub open spec fn catch(self, kind: FrameKind, block_type: BlockType) -> OpsView {
        OpsView {
            control: self.control.push(
                Frame {
                    kind,
                    block_type,
                    height: self.operands.len() as usize,
                    unreachable: false,
                },
            ),
            ..self
        }
    }

    /// The type that two values have in common.
    pub open spec fn select_type(
        first: Option<Type>,
        second: Option<Type>,
        offset: int,
    ) -> Result<Option<Type>> {
        if first is Some && second is Some && first != second {
            Err(error_at("type mismatch: select operands have different types", offset))
        } else {
            let ty = if first is Some {
                first
            } else {
                second
            };
            if ty is Some && ty->0.reference() {
                Err(error_at("type mismatch: select only takes integral types", offset))
            } else {
                Ok(ty)
            }
        }
    }

    /// What the operators on values, locals and globals do.
    pub open spec fn variable_op(self, env: EnvView, op: Op, offset: int) -> (OpsView, Result<()>) {
        match op {
            Op::Drop => match self.pop(None, offset) {
                (s, Err(e)) => (s, Err(e)),
                (s, Ok(_)) => (s, Ok(())),
            },
            Op::Select => match self.pop1(Type::I32, offset) {
                (s, Err(e)) => (s, Err(e)),
                (s, Ok(_)) => match s.pop(None, offset) {
                    (s, Err(e)) => (s, Err(e)),
                    (s, Ok(first)) => match s.pop(None, offset) {
                        (s, Err(e)) => (s, Err(e)),
                        (s, Ok(second)) => match Self::select_type(first, second, offset) {
                            Err(e) => (s, Err(e)),
                            Ok(ty) => (s.push(ty), Ok(())),
                        },
                    },
                },
            },
            Op::TypedSelect(ty) => match env.features.value_type_at(ty, offset) {
                Err(e) => (self, Err(e)),
                Ok(_) => match self.pop3(Type::I32, ty, ty, offset) {
                    (s, Err(e)) => (s, Err(e)),
                    (s, Ok(_)) => (s.push(Some(ty)), Ok(())),
                },
            },
            Op::LocalGet(index) => match self.local(index, offset) {
                Err(e) => (self, Err(e)),
                Ok(ty) => (self.push(Some(ty)), Ok(())),
            },
            Op::LocalSet(index) => match self.local(index, offset) {
                Err(e) => (self, Err(e)),
                Ok(ty) => self.pop1(ty, offset),
            },
            Op::LocalTee(index) => match self.local(index, offset) {
                Err(e) => (self, Err(e)),
                Ok(ty) => match self.pop1(ty, offset) {
                    (s, Err(e)) => (s, Err(e)),
                    (s, Ok(_)) => (s.push(Some(ty)), Ok(())),
                },
            },
            Op::GlobalGet(index) => match env.module.global_at(index, offset) {
                Err(e) => (self, Err(e)),
                Ok(global) => (self.push(Some(global.content_type)), Ok(())),
            },
            Op::GlobalSet(index) => match env.module.global_at(index, offset) {
                Err(e) => (self, Err(e)),
                Ok(global) => if !global.mutable {
                    (
                        self,
                        Err(
                            error_at(
                                "global is immutable: cannot modify it with `global.set`",
                                offset,
                            ),
                        ),
                    )
                } else {
                    self.pop1(global.content_type, offset)
                },
            },
            Op::I32Const(_) => (self.push(Some(Type::I32)), Ok(())),
            Op::I64Const(_) => (self.push(Some(Type::I64)), Ok(())),
            Op::F32Const => match floats_at(env.features, offset) {
                Err(e) => (self, Err(e)),
                Ok(_) => (self.push(Some(Type::F32)), Ok(())),
            },
            Op::F64Const => match floats_at(env.features, offset) {
                Err(e) => (self, Err(e)),
                Ok(_) => (self.push(Some(Type::F64)), Ok(())),
            },
            Op::V128Const => match env.features.value_type_at(Type::V128, offset) {
                Err(e) => (self, Err(e)),
                Ok(_) => (self.push(Some(Type::V128)), Ok(())),
            },
            _ => (self, Ok(())),
        }
    }

    /// What an operator that only takes values and gives one does.
    pub open spec fn simple_op(self, env: EnvView, op: Simple, offset: int) -> (OpsView, Result<()>) {
        match env.features.feature_at(op.feature, offset) {
            Err(e) => (self, Err(e)),
            Ok(_) => if op.floats && floats_at(env.features, offset) is Err {
                (self, floats_at(env.features, offset))
            } else {
                match (match op.params {
                    Params::One(a) => self.pop1(a, offset),
                    Params::Two(a, b) => self.pop2(b, a, offset),
                    Params::Three(a, b, c) => self.pop3(c, b, a, offset),
                }) {
                    (s, Err(e)) => (s, Err(e)),
                    (s, Ok(_)) => (s.push(Some(op.result)), Ok(())),
                }
            },
        }
    }

    /// Takes a value, if one is to be taken.
    pub open spec fn pop_some(self, ty: Option<Type>, offset: int) -> (OpsView, Result<()>) {
        match ty {
            Some(ty) => self.pop1(ty, offset),
            None => (self, Ok(())),
        }
    }

    /// What an operator that accesses memory does.
    pub open spec fn access_op(self, env: EnvView, access: Access, memarg: MemArg, offset: int) -> (
        OpsView,
        Result<()>,
    ) {
        match env.features.feature_at(access.feature, offset) {
            Err(e) => (self, Err(e)),
            Ok(_) => if access.computes_floats() && floats_at(env.features, offset) is Err {
                (self, floats_at(env.features, offset))
            } else {
                match env.accessed(access, memarg, offset) {
                    Err(e) => (self, Err(e)),
                    Ok(memory) => match self.pop_some(access.second, offset) {
                        (s, Err(e)) => (s, Err(e)),
                        (s, Ok(_)) => match s.pop_some(access.first, offset) {
                            (s, Err(e)) => (s, Err(e)),
                            (s, Ok(_)) => match s.pop1(memory.address_type(), offset) {
                                (s, Err(e)) => (s, Err(e)),
                                (s, Ok(_)) => match access.result {
                                    Some(ty) => (s.push(Some(ty)), Ok(())),
                                    None => (s, Ok(())),
                                },
                            },
                        },
                    },
                }
            },
        }
    }

    /// What the operators on whole memories do.
    pub open spec fn memory_op(self, env: EnvView, op: Op, offset: int) -> (OpsView, Result<()>) {
        match op {
            Op::MemorySize { memory, memory_byte } => if memory_byte != 0
                && !env.features.multi_memory {
                (self, Err(error_at("multi-memory not enabled: zero byte expected", offset)))
            } else {
                match env.module.memory_at(memory, offset) {
                    Err(e) => (self, Err(e)),
                    Ok(memory) => (self.push(Some(memory.address_type())), Ok(())),
                }
            },
            Op::MemoryGrow { memory, memory_byte } => if memory_byte != 0
                && !env.features.multi_memory {
                (self, Err(error_at("multi-memory not enabled: zero byte expected", offset)))
            } else {
                match env.module.memory_at(memory, offset) {
                    Err(e) => (self, Err(e)),
                    Ok(memory) => match self.pop1(memory.address_type(), offset) {
                        (s, Err(e)) => (s, Err(e)),
                        (s, Ok(_)) => (s.push(Some(memory.address_type())), Ok(())),
                    },
                }
            },
            Op::AtomicFence => match enabled(env.features.threads, "threads", offset) {
                Err(e) => (self, Err(e)),
                Ok(_) => (self, Ok(())),
            },
            _ => match enabled(env.features.bulk_memory, "bulk memory", offset) {
                Err(e) => (self, Err(e)),
                Ok(_) => match op {
                    Op::MemoryInit { segment, memory } => match env.memory(memory, offset) {
                        Err(e) => (self, Err(e)),
                        Ok(memory) => match env.data(segment, offset) {
                            Err(e) => (self, Err(e)),
                            Ok(_) => self.pop3(
                                Type::I32,
                                Type::I32,
                                memory.address_type(),
                                offset,
                            ),
                        },
                    },
                    Op::DataDrop(segment) => match env.data(segment, offset) {
                        Err(e) => (self, Err(e)),
                        Ok(_) => (self, Ok(())),
                    },
                    Op::MemoryCopy { target, source } => match env.memory(target, offset) {
                        Err(e) => (self, Err(e)),
                        Ok(target) => match env.memory(source, offset) {
                            Err(e) => (self, Err(e)),
                            Ok(source) => self.pop3(
                                if target.memory64 && source.memory64 {
                                    Type::I64
                                } else {
                                    Type::I32
                                },
                                source.address_type(),
                                target.address_type(),
                                offset,
                            ),
                        },
                    },
                    Op::MemoryFill(memory) => match env.memory(memory, offset) {
                        Err(e) => (self, Err(e)),
                        Ok(memory) => self.pop3(
                            memory.address_type(),
                            Type::I32,
                            memory.address_type(),
                            offset,
                        ),
                    },
                    _ => (self, Ok(())),
                },
            },
        }
    }

    /// What the operators of the bulk memory proposal on tables do.
    pub open spec fn bulk_table_op(self, env: EnvView, op: Op, offset: int) -> (OpsView, Result<()>) {
        match enabled(env.features.bulk_memory, "bulk memory", offset) {
            Err(e) => (self, Err(e)),
            Ok(_) => match op {
                Op::TableInit { segment, table } => if table > 0 && !env.features.reference_types {
                    (self, Err(error_at("reference types support is not enabled", offset)))
                } else {
                    match env.module.table_at(table, offset) {
                        Err(e) => (self, Err(e)),
                        Ok(table) => match env.element(segment, offset) {
                            Err(e) => (self, Err(e)),
                            Ok(ty) => if ty != table.element_type {
                                (self, Err(error_at("type mismatch", offset)))
                            } else {
                                self.pop3(Type::I32, Type::I32, Type::I32, offset)
                            },
                        },
                    }
                },
                Op::ElemDrop(segment) => match env.element(segment, offset) {
                    Err(e) => (self, Err(e)),
                    Ok(_) => (self, Ok(())),
                },
                Op::TableCopy { target, source } => if (target > 0 || source > 0)
                    && !env.features.reference_types {
                    (self, Err(error_at("reference types support is not enabled", offset)))
                } else {
                    match env.module.table_at(source, offset) {
                        Err(e) => (self, Err(e)),
                        Ok(source) => match env.module.table_at(target, offset) {
                            Err(e) => (self, Err(e)),
                            Ok(target) => if source.element_type != target.element_type {
                                (self, Err(error_at("type mismatch", offset)))
                            } else {
                                self.pop3(Type::I32, Type::I32, Type::I32, offset)
                            },
                        },
                    }
                },
                _ => (self, Ok(())),
            },
        }
    }

    /// What the operators of the reference types proposal do.
    pub open spec fn reference_op(self, env: EnvView, op: Op, offset: int) -> (OpsView, Result<()>) {
        match enabled(env.features.reference_types, "reference types", offset) {
            Err(e) => (self, Err(e)),
            Ok(_) => match op {
                Op::TableGet(table) => match env.module.table_at(table, offset) {
                    Err(e) => (self, Err(e)),
                    Ok(table) => match self.pop1(Type::I32, offset) {
                        (s, Err(e)) => (s, Err(e)),
                        (s, Ok(_)) => (s.push(Some(table.element_type)), Ok(())),
                    },
                },
                Op::TableSet(table) => match env.module.table_at(table, offset) {
                    Err(e) => (self, Err(e)),
                    Ok(table) => self.pop2(table.element_type, Type::I32, offset),
                },
                Op::TableGrow(table) => match env.module.table_at(table, offset) {
                    Err(e) => (self, Err(e)),
                    Ok(table) => match self.pop2(Type::I32, table.element_type, offset) {
                        (s, Err(e)) => (s, Err(e)),
                        (s, Ok(_)) => (s.push(Some(Type::I32)), Ok(())),
                    },
                },
                Op::TableSize(table) => match env.module.table_at(table, offset) {
                    Err(e) => (self, Err(e)),
                    Ok(_) => (self.push(Some(Type::I32)), Ok(())),
                },
                Op::TableFill(table) => match env.module.table_at(table, offset) {
                    Err(e) => (self, Err(e)),
                    Ok(table) => self.pop3(Type::I32, table.element_type, Type::I32, offset),
                },
                Op::RefNull(ty) => if !ty.reference() {
                    (self, Err(error_at("invalid non-reference type in ref.null", offset)))
                } else {
                    (self.push(Some(ty)), Ok(()))
                },
                Op::RefIsNull => match self.pop(None, offset) {
                    (s, Err(e)) => (s, Err(e)),
                    (s, Ok(ty)) => if ty is Some && !ty->0.reference() {
                        (
                            s,
                            Err(
                                error_at(
                                    "type mismatch: invalid reference type in ref.is_null",
                                    offset,
                                ),
                            ),
                        )
                    } else {
                        (s.push(Some(Type::I32)), Ok(()))
                    },
                },
                Op::RefFunc(func) => match env.module.get_func_type(env.types, func, offset) {
                    Err(e) => (self, Err(e)),
                    Ok(_) => if !env.module.function_references.contains(func) {
                        (self, Err(error_at("undeclared function reference", offset)))
                    } else {
                        (self.push(Some(Type::FuncRef)), Ok(()))
                    },
                },
                _ => (self, Ok(())),
            },
        }
    }

    /// Checks the targets of a branch table, from the `i`th on. All take along as
    /// many values.
    pub open spec fn targets(
        self,
        env: EnvView,
        targets: Seq<u32>,
        i: int,
        arity: int,
        offset: int,
    ) -> (OpsView, Result<()>)
        decreases targets.len() - i,
    {
        if i < 0 || i >= targets.len() {
            (self, Ok(()))
        } else {
            match self.jump(targets[i], offset) {
                Err(e) => (self, Err(e)),
                Ok(frame) => if env.label(frame).len() != arity {
                    (
                        self,
                        Err(
                            error_at(
                                "type mismatch: br_table target labels have different number of types",
                                offset,
                            ),
                        ),
                    )
                } else {
                    match self.check_list(env.label(frame), Seq::empty(), offset) {
                        (s, Err(e)) => (s, Err(e)),
                        (s, Ok(_)) => s.targets(env, targets, i + 1, arity, offset),
                    }
                },
            }
        }
    }

    /// Branches to one of many targets.
    pub open spec fn br_table(self, env: EnvView, targets: Seq<u32>, default: u32, offset: int) -> (
        OpsView,
        Result<()>,
    ) {
        match self.pop1(Type::I32, offset) {
            (s, Err(e)) => (s, Err(e)),
            (s, Ok(_)) => match s.jump(default, offset) {
                Err(e) => (s, Err(e)),
                Ok(frame) => match s.targets(
                    env,
                    targets,
                    0,
                    env.label(frame).len() as int,
                    offset,
                ) {
                    (s, Err(e)) => (s, Err(e)),
                    (s, Ok(_)) => match s.pop_list(env.label(frame), offset) {
                        (s, Err(e)) => (s, Err(e)),
                        (s, Ok(_)) => (s.set_unreachable(), Ok(())),
                    },
                },
            },
        }
    }

    /// What an operator does.
    pub open spec fn op(self, env: EnvView, op: OperatorView, offset: int) -> (OpsView, Result<()>) {
        if self.control.len() == 0 {
            (self, Err(error_at("operators remaining after end of function", offset)))
        } else {
            match op {
                OperatorView::BrTable { targets, default } => self.br_table(
                    env,
                    targets,
                    default,
                    offset,
                ),
                OperatorView::Op(op) => match op {
                    Op::Nop => (self, Ok(())),
                    Op::Unreachable | Op::Block(_) | Op::Loop(_) | Op::If(_) | Op::Else | Op::End
                    | Op::Br(_) | Op::BrIf(_) | Op::Return | Op::Call(_) | Op::CallIndirect { .. }
                    | Op::ReturnCall(_) | Op::ReturnCallIndirect { .. } => self.control_op(
                        env,
                        op,
                        offset,
                    ),
                    Op::Try(_) | Op::Catch(_) | Op::Throw(_) | Op::Rethrow(_) | Op::Delegate(_)
                    | Op::CatchAll => self.exception_op(env, op, offset),
                    Op::Drop | Op::Select | Op::TypedSelect(_) | Op::LocalGet(_) | Op::LocalSet(_)
                    | Op::LocalTee(_) | Op::GlobalGet(_) | Op::GlobalSet(_) | Op::I32Const(_)
                    | Op::I64Const(_) | Op::F32Const | Op::F64Const | Op::V128Const =>
                    self.variable_op(env, op, offset),
                    Op::TableGet(_) | Op::TableSet(_) | Op::TableGrow(_) | Op::TableSize(_)
                    | Op::TableFill(_) | Op::RefNull(_) | Op::RefIsNull | Op::RefFunc(_) =>
                    self.reference_op(env, op, offset),
                    Op::Memory(access, memarg) => self.access_op(env, access, memarg, offset),
                    Op::MemorySize { .. } | Op::MemoryGrow { .. } | Op::MemoryInit { .. }
                    | Op::DataDrop(_) | Op::MemoryCopy { .. } | Op::MemoryFill(_)
                    | Op::AtomicFence => self.memory_op(env, op, offset),
                    Op::TableInit { .. } | Op::ElemDrop(_) | Op::TableCopy { .. } =>
                    self.bulk_table_op(env, op, offset),
                    Op::Simple(simple) => self.simple_op(env, simple, offset),
                },
            }
        }
    }
}

impl Access {
    /// The access is to floats.
    pub open spec fn computes_floats(self) -> bool {
        ||| self.first == Some(Type::F32)
        ||| self.first == Some(Type::F64)
        ||| self.result == Some(Type::F32)
        ||| self.result == Some(Type::F64)
    }

    fn has_floats(&self) -> (yes: bool)
        ensures
            yes == self.computes_floats(),
    {
        matches!(self.first, Some(Type::F32) | Some(Type::F64)) || matches!(
            self.result,
            Some(Type::F32) | Some(Type::F64)
        )
    }
}

impl OperatorValidator {
    fn push_operand(&mut self, ty: Option<Type>)
        ensures
            final(self)@ == old(self)@.push(ty),
    {
        self.operands.push(ty);
    }

    fn push_type(&mut self, ty: Type) -> (result: Result<()>)
        ensures
            (final(self)@, result) == (old(self)@.push(Some(ty)), Ok::<(), BinaryReaderError>(())),
    {
        self.operands.push(Some(ty));
        Ok(())
    }

    fn push_operands(&mut self, types: &Vec<Type>)
        ensures
            final(self)@ == old(self)@.push_list(types@),
    {
        let mut i: usize = 0;
        while i < types.len()
            invariant
                i <= types@.len(),
                self@ == old(self)@.push_list(types@.take(i as int)),
            decreases types@.len() - i,
        {
            self.operands.push(Some(types[i]));
            i = i + 1;
            assert(self@.operands =~= old(self)@.push_list(types@.take(i as int)).operands);
        }
        assert(types@.take(types@.len() as int) =~= types@);
    }

    fn pop_operand(&mut self, expected: Option<Type>, offset: usize) -> (result: Result<
        Option<Type>,
    >)
        ensures
            (final(self)@, result) == old(self)@.pop(expected, offset as int),
    {
        if self.control.len() == 0 {
            return Err(
                BinaryReaderError::new("operators remaining after end of function", offset),
            );
        }
        let frame = self.control[self.control.len() - 1];
        if self.operands.len() <= frame.height {
            if frame.unreachable {
                return Ok(None);
            }
            return match expected {
                Some(ty) => Err(
                    BinaryReaderError::with_word(
                        "type mismatch: expected ",
                        type_to_str(ty),
                        " but nothing on stack",
                        offset,
                    ),
                ),
                None => Err(
                    BinaryReaderError::new(
                        "type mismatch: expected a type but nothing on stack",
                        offset,
                    ),
                ),
            };
        }
        let actual = self.operands.pop().unwrap();
        match (actual, expected) {
            (Some(actual), Some(expected)) => if actual != expected {
                return Err(
                    BinaryReaderError::with_word(
                        "type mismatch: expected ",
                        type_to_str(expected),
                        "",
                        offset,
                    ),
                );
            },
            _ => {},
        }
        Ok(actual)
    }

    fn pop_type(&mut self, ty: Type, offset: usize) -> (result: Result<()>)
        ensures
            (final(self)@, result) == old(self)@.pop1(ty, offset as int),
    {
        self.pop_operand(Some(ty), offset)?;
        Ok(())
    }

    fn pop_two(&mut self, first: Type, second: Type, offset: usize) -> (result: Result<()>)
        ensures
            (final(self)@, result) == old(self)@.pop2(first, second, offset as int),
    {
        self.pop_type(first, offset)?;
        self.pop_type(second, offset)
    }

    fn pop_three(&mut self, first: Type, second: Type, third: Type, offset: usize) -> (result:
        Result<()>)
        ensures
            (final(self)@, result) == old(self)@.pop3(first, second, third, offset as int),
    {
        self.pop_two(first, second, offset)?;
        self.pop_type(third, offset)
    }

    fn pop_operands(&mut self, types: &Vec<Type>, offset: usize) -> (result: Result<()>)
        ensures
            (final(self)@, result) == old(self)@.pop_list(types@, offset as int),
    {
        let mut i: usize = types.len();
        assert(types@.take(i as int) =~= types@);
        while i > 0
            invariant
                i <= types@.len(),
                old(self)@.pop_list(types@, offset as int) == self@.pop_list(
                    types@.take(i as int),
                    offset as int,
                ),
            decreases i,
        {
            assert(types@.take(i as int).drop_last() =~= types@.take(i - 1));
            i = i - 1;
            self.pop_type(types[i], offset)?;
        }
        Ok(())
    }

    fn check_operands(&mut self, types: &Vec<Type>, offset: usize) -> (result: Result<()>)
        ensures
            (final(self)@, result) == old(self)@.check_list(types@, Seq::empty(), offset as int),
    {
        let mut popped: Vec<Option<Type>> = Vec::new();
        let mut i: usize = types.len();
        assert(types@.take(i as int) =~= types@);
        while i > 0
            invariant
                i <= types@.len(),
                old(self)@.check_list(types@, Seq::empty(), offset as int) == self@.check_list(
                    types@.take(i as int),
                    popped@,
                    offset as int,
                ),
            decreases i,
        {
            assert(types@.take(i as int).drop_last() =~= types@.take(i - 1));
            i = i - 1;
            let ty = self.pop_operand(Some(types[i]), offset)?;
            popped.push(ty);
        }
        let ghost below = self@;
        let ghost all = popped@;
        while popped.len() > 0
            invariant
                popped@.len() <= all.len(),
                popped@ == all.take(popped@.len() as int),
                self@ == (OpsView {
                    operands: below.operands + all.skip(popped@.len() as int).reverse(),
                    ..below
                }),
            decreases popped@.len(),
        {
            let ghost n = popped@.len() as int;
            let ty = popped.pop().unwrap();
            self.operands.push(ty);
            assert(all.skip(n - 1).reverse() =~= all.skip(n).reverse().push(ty));
            assert(self@.operands =~= below.operands + all.skip(n - 1).reverse());
        }
        assert(all.skip(0) =~= all);
        Ok(())
    }

    fn open_frame(&mut self, kind: FrameKind, block_type: BlockType)
        ensures
            final(self)@ == old(self)@.catch(kind, block_type),
    {
        let height = self.operands.len();
        self.control.push(Frame { kind, block_type, height, unreachable: false });
    }

    fn push_ctrl(&mut self, env: &Env<'_>, kind: FrameKind, block_type: BlockType)
        requires
            env@.wf(),
        ensures
            final(self)@ == old(self)@.push_ctrl(env@, kind, block_type),
    {
        self.open_frame(kind, block_type);
        let params = env.block_params(block_type);
        self.push_operands(&params);
    }

    fn pop_ctrl(&mut self, env: &Env<'_>, offset: usize) -> (result: Result<Frame>)
        requires
            env@.wf(),
        ensures
            (final(self)@, result) == old(self)@.pop_ctrl(env@, offset as int),
    {
        if self.control.len() == 0 {
            return Err(
                BinaryReaderError::new("operators remaining after end of function", offset),
            );
        }
        let frame = self.control[self.control.len() - 1];
        let results = env.block_results(frame.block_type);
        proof {
            self@.pop_list_keeps(results@, offset as int);
        }
        self.pop_operands(&results, offset)?;
        if self.operands.len() != frame.height {
            return Err(
                BinaryReaderError::new(
                    "type mismatch: values remaining on stack at end of block",
                    offset,
                ),
            );
        }
        self.control.pop();
        Ok(frame)
    }

    fn make_unreachable(&mut self)
        ensures
            final(self)@ == old(self)@.set_unreachable(),
    {
        if self.control.len() == 0 {
            return;
        }
        let last = self.control.len() - 1;
        let mut frame = self.control[last];
        if frame.height <= self.operands.len() {
            self.operands.truncate(frame.height);
        }
        frame.unreachable = true;
        self.control.set(last, frame);
        assert(self@ =~= old(self)@.set_unreachable());
    }

    fn jump_to(&self, depth: u32, offset: usize) -> (result: Result<Frame>)
        ensures
            result == self@.jump(depth, offset as int),
    {
        if (depth as usize) < self.control.len() {
            Ok(self.control[self.control.len() - 1 - depth as usize])
        } else {
            Err(BinaryReaderError::new("unknown label: branch depth too large", offset))
        }
    }

    fn local_at(&self, index: u32, offset: usize) -> (result: Result<Type>)
        ensures
            result == self@.local(index, offset as int),
    {
        if (index as usize) < self.locals.len() {
            Ok(self.locals[index as usize])
        } else {
            Err(
                BinaryReaderError::with_number(
                    "unknown local ",
                    index as u64,
                    ": local index out of bounds",
                    offset,
                ),
            )
        }
    }

    fn open_block(&mut self, env: &Env<'_>, kind: FrameKind, ty: BlockType, offset: usize) -> (result:
        Result<()>)
        requires
            env@.wf(),
        ensures
            (final(self)@, result) == old(self)@.open(env@, kind, ty, offset as int),
    {
        env.check_block_type(ty, offset)?;
        let params = env.block_params(ty);
        self.pop_operands(&params, offset)?;
        self.push_ctrl(env, kind, ty);
        Ok(())
    }

    fn call_type(&mut self, ty: &FuncType, offset: usize) -> (result: Result<()>)
        ensures
            (final(self)@, result) == old(self)@.call(ty@, offset as int),
    {
        self.pop_operands(&ty.params, offset)?;
        self.push_operands(&ty.returns);
        Ok(())
    }

    fn leave(&mut self, env: &Env<'_>, offset: usize) -> (result: Result<()>)
        requires
            env@.wf(),
        ensures
            (final(self)@, result) == old(self)@.leave(env@, offset as int),
    {
        if self.control.len() == 0 {
            return Err(
                BinaryReaderError::new("operators remaining after end of function", offset),
            );
        }
        let results = env.block_results(self.control[0].block_type);
        self.pop_operands(&results, offset)?;
        self.make_unreachable();
        Ok(())
    }

    fn tail_call(&mut self, env: &Env<'_>, ty: &FuncType, offset: usize) -> (result: Result<()>)
        requires
            env@.wf(),
        ensures
            (final(self)@, result) == old(self)@.tail_call(env@, ty@, offset as int),
    {
        self.call_type(ty, offset)?;
        self.leave(env, offset)
    }

    fn process_control(&mut self, env: &Env<'_>, op: Op, offset: usize) -> (result: Result<()>)
        requires
            env@.wf(),
        ensures
            (final(self)@, result) == old(self)@.control_op(env@, op, offset as int),
    {
        match op {
            Op::Unreachable => {
                self.make_unreachable();
                Ok(())
            },
            Op::Block(ty) => self.open_block(env, FrameKind::Block, ty, offset),
            Op::Loop(ty) => self.open_block(env, FrameKind::Loop, ty, offset),
            Op::If(ty) => {
                env.check_block_type(ty, offset)?;
                self.pop_type(Type::I32, offset)?;
                self.open_block(env, FrameKind::If, ty, offset)
            },
            Op::Else => {
                let frame = self.pop_ctrl(env, offset)?;
                if frame.kind != FrameKind::If {
                    return Err(
                        BinaryReaderError::new("else found outside of an `if` block", offset),
                    );
                }
                self.push_ctrl(env, FrameKind::Else, frame.block_type);
                Ok(())
            },
            Op::End => {
                let mut frame = self.pop_ctrl(env, offset)?;
                if frame.kind == FrameKind::If {
                    self.push_ctrl(env, FrameKind::Else, frame.block_type);
                    frame = self.pop_ctrl(env, offset)?;
                }
                let results = env.block_results(frame.block_type);
                self.push_operands(&results);
                Ok(())
            },
            Op::Br(depth) => {
                let frame = self.jump_to(depth, offset)?;
                let types = env.label_types(frame);
                self.pop_operands(&types, offset)?;
                self.make_unreachable();
                Ok(())
            },
            Op::BrIf(depth) => {
                self.pop_type(Type::I32, offset)?;
                let frame = self.jump_to(depth, offset)?;
                let types = env.label_types(frame);
                self.pop_operands(&types, offset)?;
                self.push_operands(&types);
                Ok(())
            },
            Op::Return => self.leave(env, offset),
            Op::Call(func) => {
                let ty = env.module.get_func_type(func, env.types, offset)?;
                self.call_type(ty, offset)
            },
            Op::CallIndirect { ty, table, table_byte } => {
                if table_byte != 0 && !env.features.reference_types {
                    return Err(
                        BinaryReaderError::new(
                            "reference-types not enabled: zero byte expected",
                            offset,
                        ),
                    );
                }
                let ty = env.indirect_type(ty, table, offset)?;
                self.pop_type(Type::I32, offset)?;
                self.call_type(ty, offset)
            },
            Op::ReturnCall(func) => {
                check_enabled(env.features.tail_call, "tail calls", offset)?;
                let ty = env.module.get_func_type(func, env.types, offset)?;
                self.tail_call(env, ty, offset)
            },
            Op::ReturnCallIndirect { ty, table } => {
                check_enabled(env.features.tail_call, "tail calls", offset)?;
                let ty = env.indirect_type(ty, table, offset)?;
                self.pop_type(Type::I32, offset)?;
                self.tail_call(env, ty, offset)
            },
            _ => Ok(()),
        }
    }

    fn process_exception(&mut self, env: &Env<'_>, op: Op, offset: usize) -> (result: Result<()>)
        requires
            env@.wf(),
        ensures
            (final(self)@, result) == old(self)@.exception_op(env@, op, offset as int),
    {
        check_enabled(env.features.exceptions, "exceptions", offset)?;
        match op {
            Op::Try(ty) => self.open_block(env, FrameKind::Try, ty, offset),
            Op::Catch(tag) => {
                let frame = self.pop_ctrl(env, offset)?;
                if frame.kind != FrameKind::Try && frame.kind != FrameKind::Catch {
                    return Err(
                        BinaryReaderError::new("catch found outside of an `try` block", offset),
                    );
                }
                let params = env.tag_at(tag, offset)?;
                self.open_frame(FrameKind::Catch, frame.block_type);
                self.push_operands(&params);
                Ok(())
            },
            Op::CatchAll => {
                let frame = self.pop_ctrl(env, offset)?;
                if frame.kind == FrameKind::CatchAll {
                    return Err(
                        BinaryReaderError::new(
                            "only one catch_all allowed per `try` block",
                            offset,
                        ),
                    );
                }
                if frame.kind != FrameKind::Try && frame.kind != FrameKind::Catch {
                    return Err(
                        BinaryReaderError::new("catch_all found outside of a `try` block", offset),
                    );
                }
                self.open_frame(FrameKind::CatchAll, frame.block_type);
                Ok(())
            },
            Op::Throw(tag) => {
                let params = env.tag_at(tag, offset)?;
                self.pop_operands(&params, offset)?;
                self.make_unreachable();
                Ok(())
            },
            Op::Rethrow(depth) => {
                let frame = self.jump_to(depth, offset)?;
                if frame.kind != FrameKind::Catch && frame.kind != FrameKind::CatchAll {
                    return Err(
                        BinaryReaderError::new(
                            "invalid rethrow label: target was not a `catch` block",
                            offset,
                        ),
                    );
                }
                self.make_unreachable();
                Ok(())
            },
            Op::Delegate(depth) => {
                let frame = self.pop_ctrl(env, offset)?;
                if frame.kind != FrameKind::Try {
                    return Err(
                        BinaryReaderError::new("delegate found outside of an `try` block", offset),
                    );
                }
                self.jump_to(depth, offset)?;
                let results = env.block_results(frame.block_type);
                self.push_operands(&results);
                Ok(())
            },
            _ => Ok(()),
        }
    }

    fn select_operands(first: Option<Type>, second: Option<Type>, offset: usize) -> (result: Result<
        Option<Type>,
    >)
        ensures
            result == OpsView::select_type(first, second, offset as int),
    {
        let ty = match (first, second) {
            (Some(first), Some(second)) => {
                if first != second {
                    return Err(
                        BinaryReaderError::new(
                            "type mismatch: select operands have different types",
                            offset,
                        ),
                    );
                }
                Some(first)
            },
            (Some(ty), None) | (None, Some(ty)) => Some(ty),
            (None, None) => None,
        };
        match ty {
            Some(ty) => if ty.is_reference() {
                return Err(
                    BinaryReaderError::new(
                        "type mismatch: select only takes integral types",
                        offset,
                    ),
                );
            },
            None => {},
        }
        Ok(ty)
    }

    fn process_variable(&mut self, env: &Env<'_>, op: Op, offset: usize) -> (result: Result<()>)
        ensures
            (final(self)@, result) == old(self)@.variable_op(env@, op, offset as int),
    {
        match op {
            Op::Drop => {
                self.pop_operand(None, offset)?;
                Ok(())
            },
            Op::Select => {
                self.pop_type(Type::I32, offset)?;
                let first = self.pop_operand(None, offset)?;
                let second = self.pop_operand(None, offset)?;
                let ty = Self::select_operands(first, second, offset)?;
                self.push_operand(ty);
                Ok(())
            },
            Op::TypedSelect(ty) => {
                env.features.check_value_type_at(ty, offset)?;
                self.pop_three(Type::I32, ty, ty, offset)?;
                self.push_type(ty)
            },
            Op::LocalGet(index) => {
                let ty = self.local_at(index, offset)?;
                self.push_type(ty)
            },
            Op::LocalSet(index) => {
                let ty = self.local_at(index, offset)?;
                self.pop_type(ty, offset)
            },
            Op::LocalTee(index) => {
                let ty = self.local_at(index, offset)?;
                self.pop_type(ty, offset)?;
                self.push_type(ty)
            },
            Op::GlobalGet(index) => {
                let global = env.module.global_at(index, offset)?;
                self.push_type(global.content_type)
            },
            Op::GlobalSet(index) => {
                let global = env.module.global_at(index, offset)?;
                if !global.mutable {
                    return Err(
                        BinaryReaderError::new(
                            "global is immutable: cannot modify it with `global.set`",
                            offset,
                        ),
                    );
                }
                self.pop_type(global.content_type, offset)
            },
            Op::I32Const(_) => self.push_type(Type::I32),
            Op::I64Const(_) => self.push_type(Type::I64),
            Op::F32Const => {
                check_floats(&env.features, offset)?;
                self.push_type(Type::F32)
            },
            Op::F64Const => {
                check_floats(&env.features, offset)?;
                self.push_type(Type::F64)
            },
            Op::V128Const => {
                env.features.check_value_type_at(Type::V128, offset)?;
                self.push_type(Type::V128)
            },
            _ => Ok(()),
        }
    }

    fn process_simple(&mut self, env: &Env<'_>, op: Simple, offset: usize) -> (result: Result<()>)
        ensures
            (final(self)@, result) == old(self)@.simple_op(env@, op, offset as int),
    {
        env.features.check_feature(op.feature, offset)?;
        if op.floats {
            check_floats(&env.features, offset)?;
        }
        match op.params {
            Params::One(a) => self.pop_type(a, offset)?,
            Params::Two(a, b) => self.pop_two(b, a, offset)?,
            Params::Three(a, b, c) => self.pop_three(c, b, a, offset)?,
        }
        self.push_type(op.result)
    }

    fn pop_optional(&mut self, ty: Option<Type>, offset: usize) -> (result: Result<()>)
        ensures
            (final(self)@, result) == old(self)@.pop_some(ty, offset as int),
    {
        match ty {
            Some(ty) => self.pop_type(ty, offset),
            None => Ok(()),
        }
    }

    fn process_access(&mut self, env: &Env<'_>, access: Access, memarg: MemArg, offset: usize) -> (
        result: Result<()>)
        ensures
            (final(self)@, result) == old(self)@.access_op(env@, access, memarg, offset as int),
    {
        env.features.check_feature(access.feature, offset)?;
        if access.has_floats() {
            check_floats(&env.features, offset)?;
        }
        let memory = env.check_memarg(&access, &memarg, offset)?;
        self.pop_optional(access.second, offset)?;
        self.pop_optional(access.first, offset)?;
        self.pop_type(memory.index_type(), offset)?;
        match access.result {
            Some(ty) => self.push_type(ty),
            None => Ok(()),
        }
    }

    fn process_memory(&mut self, env: &Env<'_>, op: Op, offset: usize) -> (result: Result<()>)
        ensures
            (final(self)@, result) == old(self)@.memory_op(env@, op, offset as int),
    {
        match op {
            Op::MemorySize { memory, memory_byte } => {
                if memory_byte != 0 && !env.features.multi_memory {
                    return Err(
                        BinaryReaderError::new(
                            "multi-memory not enabled: zero byte expected",
                            offset,
                        ),
                    );
                }
                let memory = env.module.memory_at(memory, offset)?;
                self.push_type(memory.index_type())
            },
            Op::MemoryGrow { memory, memory_byte } => {
                if memory_byte != 0 && !env.features.multi_memory {
                    return Err(
                        BinaryReaderError::new(
                            "multi-memory not enabled: zero byte expected",
                            offset,
                        ),
                    );
                }
                let memory = env.module.memory_at(memory, offset)?;
                self.pop_type(memory.index_type(), offset)?;
                self.push_type(memory.index_type())
            },
            Op::AtomicFence => check_enabled(env.features.threads, "threads", offset),
            _ => {
                check_enabled(env.features.bulk_memory, "bulk memory", offset)?;
                match op {
                    Op::MemoryInit { segment, memory } => {
                        let memory = env.memory_at(memory, offset)?;
                        env.check_data_segment(segment, offset)?;
                        self.pop_three(Type::I32, Type::I32, memory.index_type(), offset)
                    },
                    Op::DataDrop(segment) => env.check_data_segment(segment, offset),
                    Op::MemoryCopy { target, source } => {
                        let target = env.memory_at(target, offset)?;
                        let source = env.memory_at(source, offset)?;
                        let length = if target.memory64 && source.memory64 {
                            Type::I64
                        } else {
                            Type::I32
                        };
                        self.pop_three(length, source.index_type(), target.index_type(), offset)
                    },
                    Op::MemoryFill(memory) => {
                        let memory = env.memory_at(memory, offset)?;
                        self.pop_three(
                            memory.index_type(),
                            Type::I32,
                            memory.index_type(),
                            offset,
                        )
                    },
                    _ => Ok(()),
                }
            },
        }
    }

    fn process_bulk_table(&mut self, env: &Env<'_>, op: Op, offset: usize) -> (result: Result<()>)
        ensures
            (final(self)@, result) == old(self)@.bulk_table_op(env@, op, offset as int),
    {
        check_enabled(env.features.bulk_memory, "bulk memory", offset)?;
        match op {
            Op::TableInit { segment, table } => {
                if table > 0 && !env.features.reference_types {
                    return Err(
                        BinaryReaderError::new("reference types support is not enabled", offset),
                    );
                }
                let table = env.module.table_at(table, offset)?;
                let ty = env.element_type_at(segment, offset)?;
                if ty != table.element_type {
                    return Err(BinaryReaderError::new("type mismatch", offset));
                }
                self.pop_three(Type::I32, Type::I32, Type::I32, offset)
            },
            Op::ElemDrop(segment) => {
                env.element_type_at(segment, offset)?;
                Ok(())
            },
            Op::TableCopy { target, source } => {
                if (target > 0 || source > 0) && !env.features.reference_types {
                    return Err(
                        BinaryReaderError::new("reference types support is not enabled", offset),
                    );
                }
                let source = env.module.table_at(source, offset)?;
                let target = env.module.table_at(target, offset)?;
                if source.element_type != target.element_type {
                    return Err(BinaryReaderError::new("type mismatch", offset));
                }
                self.pop_three(Type::I32, Type::I32, Type::I32, offset)
            },
            _ => Ok(()),
        }
    }

    fn process_reference(&mut self, env: &Env<'_>, op: Op, offset: usize) -> (result: Result<()>)
        requires
            env@.wf(),
        ensures
            (final(self)@, result) == old(self)@.reference_op(env@, op, offset as int),
    {
        check_enabled(env.features.reference_types, "reference types", offset)?;
        match op {
            Op::TableGet(table) => {
                let table = env.module.table_at(table, offset)?;
                self.pop_type(Type::I32, offset)?;
                self.push_type(table.element_type)
            },
            Op::TableSet(table) => {
                let table = env.module.table_at(table, offset)?;
                self.pop_two(table.element_type, Type::I32, offset)
            },
            Op::TableGrow(table) => {
                let table = env.module.table_at(table, offset)?;
                self.pop_two(Type::I32, table.element_type, offset)?;
                self.push_type(Type::I32)
            },
            Op::TableSize(table) => {
                env.module.table_at(table, offset)?;
                self.push_type(Type::I32)
            },
            Op::TableFill(table) => {
                let table = env.module.table_at(table, offset)?;
                self.pop_three(Type::I32, table.element_type, Type::I32, offset)
            },
            Op::RefNull(ty) => {
                if !ty.is_reference() {
                    return Err(
                        BinaryReaderError::new("invalid non-reference type in ref.null", offset),
                    );
                }
                self.push_type(ty)
            },
            Op::RefIsNull => {
                match self.pop_operand(None, offset)? {
                    Some(ty) => if !ty.is_reference() {
                        return Err(
                            BinaryReaderError::new(
                                "type mismatch: invalid reference type in ref.is_null",
                                offset,
                            ),
                        );
                    },
                    None => {},
                }
                self.push_type(Type::I32)
            },
            Op::RefFunc(func) => {
                env.module.get_func_type(func, env.types, offset)?;
                if !env.module.function_references.contains(&func) {
                    return Err(BinaryReaderError::new("undeclared function reference", offset));
                }
                self.push_type(Type::FuncRef)
            },
            _ => Ok(()),
        }
    }

    fn process_br_table(
        &mut self,
        env: &Env<'_>,
        targets: &Vec<u32>,
        default: u32,
        offset: usize,
    ) -> (result: Result<()>)
        requires
            env@.wf(),
        ensures
            (final(self)@, result) == old(self)@.br_table(env@, targets@, default, offset as int),
    {
        self.pop_type(Type::I32, offset)?;
        let frame = self.jump_to(default, offset)?;
        let types = env.label_types(frame);
        let arity = types.len();
        let ghost start = self@;
        let mut i: usize = 0;
        while i < targets.len()
            invariant
                env@.wf(),
                i <= targets@.len(),
                start.targets(env@, targets@, 0, arity as int, offset as int) == self@.targets(
                    env@,
                    targets@,
                    i as int,
                    arity as int,
                    offset as int,
                ),
                old(self)@.pop1(Type::I32, offset as int) == (start, Ok::<(), BinaryReaderError>(())),
                start.jump(default, offset as int) == Ok::<Frame, BinaryReaderError>(frame),
                arity == env@.label(frame).len(),
            decreases targets@.len() - i,
        {
            let target = self.jump_to(targets[i], offset)?;
            let target_types = env.label_types(target);
            if target_types.len() != arity {
                return Err(
                    BinaryReaderError::new(
                        "type mismatch: br_table target labels have different number of types",
                        offset,
                    ),
                );
            }
            self.check_operands(&target_types, offset)?;
            i = i + 1;
        }
        self.pop_operands(&types, offset)?;
        self.make_unreachable();
        Ok(())
    }

    /// Validates an operator.
    pub fn process_operator(&mut self, env: &Env<'_>, operator: &Operator, offset: usize) -> (result:
        Result<()>)
        requires
            env@.wf(),
        ensures
            (final(self)@, result) == old(self)@.op(env@, operator@, offset as int),
    {
        if self.control.len() == 0 {
            return Err(
                BinaryReaderError::new("operators remaining after end of function", offset),
            );
        }
        match operator {
            Operator::BrTable { targets, default } => self.process_br_table(
                env,
                targets,
                *default,
                offset,
            ),
            Operator::Op(op) => match *op {
                Op::Nop => Ok(()),
                Op::Unreachable | Op::Block(_) | Op::Loop(_) | Op::If(_) | Op::Else | Op::End
                | Op::Br(_) | Op::BrIf(_) | Op::Return | Op::Call(_) | Op::CallIndirect { .. }
                | Op::ReturnCall(_) | Op::ReturnCallIndirect { .. } => self.process_control(
                    env,
                    *op,
                    offset,
                ),
                Op::Try(_) | Op::Catch(_) | Op::Throw(_) | Op::Rethrow(_) | Op::Delegate(_)
                | Op::CatchAll => self.process_exception(env, *op, offset),
                Op::Drop | Op::Select | Op::TypedSelect(_) | Op::LocalGet(_) | Op::LocalSet(_)
                | Op::LocalTee(_) | Op::GlobalGet(_) | Op::GlobalSet(_) | Op::I32Const(_)
                | Op::I64Const(_) | Op::F32Const | Op::F64Const | Op::V128Const =>
                self.process_variable(env, *op, offset),
                Op::TableGet(_) | Op::TableSet(_) | Op::TableGrow(_) | Op::TableSize(_)
                | Op::TableFill(_) | Op::RefNull(_) | Op::RefIsNull | Op::RefFunc(_) =>
                self.process_reference(env, *op, offset),
                Op::Memory(access, memarg) => self.process_access(env, access, memarg, offset),
                Op::MemorySize { .. } | Op::MemoryGrow { .. } | Op::MemoryInit { .. }
                | Op::DataDrop(_) | Op::MemoryCopy { .. } | Op::MemoryFill(_)
                | Op::AtomicFence => self.process_memory(env, *op, offset),
                Op::TableInit { .. } | Op::ElemDrop(_) | Op::TableCopy { .. } =>
                self.process_bulk_table(env, *op, offset),
                Op::Simple(simple) => self.process_simple(env, simple, offset),
            },
        }
    }
}

} // verus!
