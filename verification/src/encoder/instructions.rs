//! The instructions of constant expressions.

use super::{joined, leb, signed_leb, write_i64, write_u32, ValType};
use crate::reader::types::Type;
use vstd::prelude::*;

verus! {

/// An instruction.
#[derive(Clone, Copy, Debug)]
pub enum Instruction<'a> {
    /// The end of a block, a function or an expression.
    End,
    /// A branch to one of many labels, or to a label for all other values.
    BrTable(&'a [u32], u32),
    /// The value of a global.
    GlobalGet(u32),
    /// A 32-bit integer.
    I32Const(i32),
    /// A 64-bit integer.
    I64Const(i64),
    /// The sum of two 32-bit integers.
    I32Add,
    /// The difference of two 32-bit integers.
    I32Sub,
    /// The product of two 32-bit integers.
    I32Mul,
    /// The sum of two 64-bit integers.
    I64Add,
    /// The difference of two 64-bit integers.
    I64Sub,
    /// The product of two 64-bit integers.
    I64Mul,
    /// A null reference of a type.
    RefNull(ValType),
    /// A reference to a function.
    RefFunc(u32),
}

/// What an [`Instruction`] holds.
pub enum InstructionView {
    /// The end of a block, a function or an expression.
    End,
    /// A branch to one of many labels.
    BrTable(Seq<u32>, u32),
    /// The value of a global.
    GlobalGet(u32),
    /// A 32-bit integer.
    I32Const(i32),
    /// A 64-bit integer.
    I64Const(i64),
    /// The sum of two 32-bit integers.
    I32Add,
    /// The difference of two 32-bit integers.
    I32Sub,
    /// The product of two 32-bit integers.
    I32Mul,
    /// The sum of two 64-bit integers.
    I64Add,
    /// The difference of two 64-bit integers.
    I64Sub,
    /// The product of two 64-bit integers.
    I64Mul,
    /// A null reference of a type.
    RefNull(Type),
    /// A reference to a function.
    RefFunc(u32),
}

impl<'a> View for Instruction<'a> {
    type V = InstructionView;

    open spec fn view(&self) -> InstructionView {
        match self {
            Instruction::End => InstructionView::End,
            Instruction::BrTable(labels, default) => InstructionView::BrTable(labels@, *default),
            Instruction::GlobalGet(index) => InstructionView::GlobalGet(*index),
            Instruction::I32Const(n) => InstructionView::I32Const(*n),
            Instruction::I64Const(n) => InstructionView::I64Const(*n),
            Instruction::I32Add => InstructionView::I32Add,
            Instruction::I32Sub => InstructionView::I32Sub,
            Instruction::I32Mul => InstructionView::I32Mul,
            Instruction::I64Add => InstructionView::I64Add,
            Instruction::I64Sub => InstructionView::I64Sub,
            Instruction::I64Mul => InstructionView::I64Mul,
            Instruction::RefNull(ty) => InstructionView::RefNull(*ty),
            Instruction::RefFunc(index) => InstructionView::RefFunc(*index),
        }
    }
}

/// The bytes of each of the numbers.
pub open spec fn lebs(list: Seq<u32>) -> Seq<Seq<u8>> {
    Seq::new(list.len(), |i: int| leb(list[i] as nat))
}

/// Writes unsigned numbers one behind the other.
pub fn write_list(bytes: &mut Vec<u8>, list: &[u32])
    ensures
        final(bytes)@ == old(bytes)@ + joined(lebs(list@)),
{
    let ghost parts = lebs(list@);
    let mut i: usize = 0;
    assert(bytes@ =~= old(bytes)@ + joined(parts.take(0)));
    while i < list.len()
        invariant
            i <= list@.len(),
            parts == lebs(list@),
            bytes@ == old(bytes)@ + joined(parts.take(i as int)),
        decreases list@.len() - i,
    {
        write_u32(bytes, list[i]);
        assert(parts.take(i + 1).drop_last() =~= parts.take(i as int));
        i = i + 1;
        assert(bytes@ =~= old(bytes)@ + joined(parts.take(i as int)));
    }
    assert(parts.take(i as int) =~= parts);
}

impl InstructionView {
    /// The instruction as it stands in code.
    pub open spec fn encoded(self) -> Seq<u8> {
        match self {
            InstructionView::End => seq![0x0bu8],
            InstructionView::BrTable(labels, default) => seq![0x0eu8] + leb(
                labels.len() % 0x1_0000_0000,
            ) + joined(lebs(labels)) + leb(default as nat),
            InstructionView::GlobalGet(index) => seq![0x23u8] + leb(index as nat),
            InstructionView::I32Const(n) => seq![0x41u8] + signed_leb(n as int),
            InstructionView::I64Const(n) => seq![0x42u8] + signed_leb(n as int),
            InstructionView::I32Add => seq![0x6au8],
            InstructionView::I32Sub => seq![0x6bu8],
            InstructionView::I32Mul => seq![0x6cu8],
            InstructionView::I64Add => seq![0x7cu8],
            InstructionView::I64Sub => seq![0x7du8],
            InstructionView::I64Mul => seq![0x7eu8],
            InstructionView::RefNull(ty) => seq![0xd0u8, ty.byte()],
            InstructionView::RefFunc(index) => seq![0xd2u8] + leb(index as nat),
        }
    }
}

impl<'a> Instruction<'a> {
    /// Writes the instruction behind what is in `sink`.
    pub fn encode(&self, sink: &mut Vec<u8>)
        ensures
            final(sink)@ == old(sink)@ + self@.encoded(),
    {
        match self {
            Instruction::End => sink.push(0x0b),
            Instruction::BrTable(labels, default) => {
                sink.push(0x0e);
                write_u32(sink, (labels.len() as u64 % 0x1_0000_0000) as u32);
                write_list(sink, labels);
                write_u32(sink, *default);
            },
            Instruction::GlobalGet(index) => {
                sink.push(0x23);
                write_u32(sink, *index);
            },
            Instruction::I32Const(n) => {
                sink.push(0x41);
                write_i64(sink, *n as i64);
            },
            Instruction::I64Const(n) => {
                sink.push(0x42);
                write_i64(sink, *n);
            },
            Instruction::I32Add => sink.push(0x6a),
            Instruction::I32Sub => sink.push(0x6b),
            Instruction::I32Mul => sink.push(0x6c),
            Instruction::I64Add => sink.push(0x7c),
            Instruction::I64Sub => sink.push(0x7d),
            Instruction::I64Mul => sink.push(0x7e),
            Instruction::RefNull(ty) => {
                sink.push(0xd0);
                sink.push(ty.to_byte());
            },
            Instruction::RefFunc(index) => {
                sink.push(0xd2);
                write_u32(sink, *index);
            },
        }
        assert(sink@ =~= old(sink)@ + self@.encoded());
    }
}

} // verus!
