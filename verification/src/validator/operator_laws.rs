//! What the operators of a function body take and give.

use super::operators::{EnvView, Frame, FrameKind, OpsView};
use crate::error::Result;
use crate::reader::operators::{
    Access, BlockType, Feature, MemArg, Op, OperatorView, Params, Simple,
};
use crate::reader::types::{FuncTypeView, Type};
use vstd::prelude::*;

verus! {

/// A body is being validated: a block is open, each starts above those around it, and none above
/// the top of the stack.
pub open spec fn ready(s: OpsView) -> bool {
    &&& s.control.len() > 0
    &&& s.operands.len() <= usize::MAX
    &&& base(s) <= s.operands.len()
    &&& forall|i: int, j: int|
        0 <= i <= j < s.control.len() ==> (#[trigger] s.control[i]).height <= (
        #[trigger] s.control[j]).height
}

/// How many values are below the innermost block.
pub open spec fn base(s: OpsView) -> int {
    s.control[s.control.len() - 1].height as int
}

/// The code that follows is never reached.
pub open spec fn dead(s: OpsView) -> bool {
    s.control[s.control.len() - 1].unreachable
}

/// The values on top of the stack, down to the start of the innermost block, are of these types,
/// the last one on top. A value that is not known can be of any type, and where the code is never
/// reached there is always one more.
pub open spec fn fits(s: OpsView, types: Seq<Type>) -> bool {
    forall|k: int|
        0 <= k < types.len() ==> {
            let place = s.operands.len() - types.len() + k;
            let ty = #[trigger] types[k];
            if place >= base(s) {
                s.operands[place] is None || s.operands[place] == Some(ty)
            } else {
                dead(s)
            }
        }
}

/// What is left of the stack when so many values of the innermost block are taken.
pub open spec fn rest(s: OpsView, n: nat) -> Seq<Option<Type>> {
    if s.operands.len() - n >= base(s) {
        s.operands.take(s.operands.len() - n)
    } else {
        s.operands.take(base(s))
    }
}

/// Values of these types are put on a stack.
pub open spec fn with(stack: Seq<Option<Type>>, types: Seq<Type>) -> Seq<Option<Type>> {
    stack + Seq::new(types.len(), |i: int| Some(types[i]))
}

/// An operator takes values of some types and gives values of others: it is accepted exactly if
/// the first are on top of the stack, it puts the others in their place, and changes nothing else.
pub open spec fn steps(
    s: OpsView,
    out: (OpsView, Result<()>),
    takes: Seq<Type>,
    gives: Seq<Type>,
) -> bool {
    &&& out.1 is Ok <==> fits(s, takes)
    &&& out.1 is Ok ==> out.0 == (OpsView {
        operands: with(rest(s, takes.len()), gives),
        ..s
    })
}

/// An operator takes values of some types, and the code that follows is never reached: all that
/// the innermost block had on the stack is dropped.
pub open spec fn leaves(s: OpsView, out: (OpsView, Result<()>), takes: Seq<Type>) -> bool {
    &&& out.1 is Ok <==> fits(s, takes)
    &&& out.1 is Ok ==> {
        &&& out.0.locals == s.locals
        &&& out.0.operands == s.operands.take(base(s))
        &&& out.0.control.len() == s.control.len()
        &&& forall|i: int|
            0 <= i < s.control.len() - 1 ==> out.0.control[i] == #[trigger] s.control[i]
        &&& out.0.control[s.control.len() - 1] == (Frame {
            unreachable: true,
            ..s.control[s.control.len() - 1]
        })
    }
}

/// What a block takes: that of its function type, or nothing.
pub open spec fn takes_of(env: EnvView, ty: BlockType) -> Seq<Type> {
    match ty {
        BlockType::FuncType(index) => func_of(env, index).params,
        _ => Seq::empty(),
    }
}

/// What a block gives: that of its function type, the one value it names, or nothing.
pub open spec fn gives_of(env: EnvView, ty: BlockType) -> Seq<Type> {
    match ty {
        BlockType::Empty => Seq::empty(),
        BlockType::Type(ty) => seq![ty],
        BlockType::FuncType(index) => func_of(env, index).returns,
    }
}

/// The function type with an index.
pub open spec fn func_of(env: EnvView, index: u32) -> FuncTypeView {
    env.types[env.module.types[index as int] as int]->Func_0
}

/// The type of a block names a function type of the module, if it names one.
pub open spec fn named(env: EnvView, ty: BlockType) -> bool {
    ty matches BlockType::FuncType(index) ==> index < env.module.types.len()
}

/// Values of the type can be had.
pub open spec fn usable(env: EnvView, ty: Type) -> bool {
    &&& ty == Type::V128 ==> env.features.simd
    &&& ty == Type::FuncRef || ty == Type::ExternRef ==> env.features.reference_types
}

proof fn lemma_pop(s: OpsView, ty: Option<Type>, offset: int)
    requires
        ready(s),
    ensures
        ready(s.pop(ty, offset).0),
        s.pop(ty, offset).0.control == s.control,
        s.pop(ty, offset).0.locals == s.locals,
        s.pop(ty, offset).0.operands == rest(s, 1),
        s.pop(ty, offset).1 is Ok <==> {
            if s.operands.len() > base(s) {
                s.operands.last() is None || ty is None || s.operands.last() == ty
            } else {
                dead(s)
            }
        },
        s.pop(ty, offset).1 matches Ok(v) ==> v == (if s.operands.len() > base(s) {
            s.operands.last()
        } else {
            None
        }),
{
    assert(rest(s, 1) =~= if s.operands.len() > base(s) {
        s.operands.drop_last()
    } else {
        s.operands
    });
}

proof fn lemma_pop_list(s: OpsView, types: Seq<Type>, offset: int)
    requires
        ready(s),
    ensures
        s.pop_list(types, offset).1 is Ok <==> fits(s, types),
        s.pop_list(types, offset).1 is Ok ==> s.pop_list(types, offset).0 == (OpsView {
            operands: rest(s, types.len()),
            ..s
        }),
    decreases types.len(),
{
    if types.len() == 0 {
        assert(rest(s, 0) =~= s.operands);
    } else {
        lemma_pop(s, Some(types.last()), offset);
        let t = s.pop(Some(types.last()), offset).0;
        let front = types.drop_last();
        lemma_pop_list(t, front, offset);
        assert(rest(t, front.len()) =~= rest(s, types.len()));
        if fits(s, types) {
            assert(types[types.len() - 1] == types.last());
            assert forall|k: int| 0 <= k < front.len() implies {
                let place = t.operands.len() - front.len() + k;
                let ty = #[trigger] front[k];
                if place >= base(t) {
                    t.operands[place] is None || t.operands[place] == Some(ty)
                } else {
                    dead(t)
                }
            } by {
                assert(types[k] == front[k]);
            }
        }
        if s.pop_list(types, offset).1 is Ok {
            assert forall|k: int| 0 <= k < types.len() implies {
                let place = s.operands.len() - types.len() + k;
                let ty = #[trigger] types[k];
                if place >= base(s) {
                    s.operands[place] is None || s.operands[place] == Some(ty)
                } else {
                    dead(s)
                }
            } by {
                if k < front.len() {
                    assert(types[k] == front[k]);
                }
            }
        }
    }
}

proof fn lemma_pop1(s: OpsView, a: Type, offset: int)
    requires
        ready(s),
    ensures
        s.pop1(a, offset).1 is Ok <==> fits(s, seq![a]),
        s.pop1(a, offset).1 is Ok ==> s.pop1(a, offset).0 == (OpsView {
            operands: rest(s, 1),
            ..s
        }),
        s.pop1(a, offset).1 is Ok ==> ready(s.pop1(a, offset).0),
{
    lemma_pop(s, Some(a), offset);
    lemma_pop_list(s, seq![a], offset);
    assert(seq![a].drop_last() =~= Seq::<Type>::empty());
    reveal_with_fuel(OpsView::pop_list, 2);
}

proof fn lemma_pop2(s: OpsView, a: Type, b: Type, offset: int)
    requires
        ready(s),
    ensures
        s.pop2(b, a, offset).1 is Ok <==> fits(s, seq![a, b]),
        s.pop2(b, a, offset).1 is Ok ==> s.pop2(b, a, offset).0 == (OpsView {
            operands: rest(s, 2),
            ..s
        }),
        s.pop2(b, a, offset).1 is Ok ==> ready(s.pop2(b, a, offset).0),
{
    lemma_pop1(s, b, offset);
    lemma_pop_list(s, seq![a, b], offset);
    assert(seq![a, b].drop_last() =~= seq![a]);
    assert(seq![a].drop_last() =~= Seq::<Type>::empty());
    reveal_with_fuel(OpsView::pop_list, 3);
    if s.pop1(b, offset).1 is Ok {
        lemma_pop1(s.pop1(b, offset).0, a, offset);
    }
}

proof fn lemma_pop3(s: OpsView, a: Type, b: Type, c: Type, offset: int)
    requires
        ready(s),
    ensures
        s.pop3(c, b, a, offset).1 is Ok <==> fits(s, seq![a, b, c]),
        s.pop3(c, b, a, offset).1 is Ok ==> s.pop3(c, b, a, offset).0 == (OpsView {
            operands: rest(s, 3),
            ..s
        }),
{
    lemma_pop2(s, b, c, offset);
    lemma_pop_list(s, seq![a, b, c], offset);
    assert(seq![a, b, c].drop_last() =~= seq![a, b]);
    assert(seq![a, b].drop_last() =~= seq![a]);
    assert(seq![a].drop_last() =~= Seq::<Type>::empty());
    reveal_with_fuel(OpsView::pop_list, 4);
}

proof fn lemma_with(stack: Seq<Option<Type>>, types: Seq<Type>)
    ensures
        stack + super::operators::known(types) == with(stack, types),
        types.len() == 1 ==> stack.push(Some(types[0])) == with(stack, types),
        types.len() == 0 ==> stack == with(stack, types),
{
    assert(super::operators::known(types) =~= Seq::new(types.len(), |i: int| Some(types[i])));
    assert(types.len() == 1 ==> stack.push(Some(types[0])) =~= with(stack, types));
    assert(types.len() == 0 ==> stack =~= with(stack, types));
}

/// What an operator does, by itself.
pub open spec fn does(s: OpsView, env: EnvView, op: Op, offset: int) -> (OpsView, Result<()>) {
    s.op(env, OperatorView::Op(op), offset)
}

/// A constant gives one value of its type.
pub proof fn law_constants(s: OpsView, env: EnvView, n: i32, m: i64, offset: int)
    requires
        ready(s),
    ensures
        steps(s, does(s, env, Op::I32Const(n), offset), seq![], seq![Type::I32]),
        steps(s, does(s, env, Op::I64Const(m), offset), seq![], seq![Type::I64]),
        does(s, env, Op::F32Const, offset).1 is Ok <==> !env.features.deterministic_only,
        does(s, env, Op::F64Const, offset).1 is Ok <==> !env.features.deterministic_only,
        does(s, env, Op::V128Const, offset).1 is Ok <==> env.features.simd,
        !env.features.deterministic_only ==> {
            &&& steps(s, does(s, env, Op::F32Const, offset), seq![], seq![Type::F32])
            &&& steps(s, does(s, env, Op::F64Const, offset), seq![], seq![Type::F64])
        },
        env.features.simd ==> steps(
            s,
            does(s, env, Op::V128Const, offset),
            seq![],
            seq![Type::V128],
        ),
        steps(s, does(s, env, Op::Nop, offset), seq![], seq![]),
{
    assert(rest(s, 0) =~= s.operands);
    lemma_with(s.operands, seq![]);
    lemma_with(s.operands, seq![Type::I32]);
    lemma_with(s.operands, seq![Type::I64]);
    lemma_with(s.operands, seq![Type::F32]);
    lemma_with(s.operands, seq![Type::F64]);
    lemma_with(s.operands, seq![Type::V128]);
}

/// A local is read and written as a value of its type.
pub proof fn law_locals(s: OpsView, env: EnvView, index: u32, offset: int)
    requires
        ready(s),
    ensures
        index < s.locals.len() ==> {
            let ty = s.locals[index as int];
            &&& steps(s, does(s, env, Op::LocalGet(index), offset), seq![], seq![ty])
            &&& steps(s, does(s, env, Op::LocalSet(index), offset), seq![ty], seq![])
            &&& steps(s, does(s, env, Op::LocalTee(index), offset), seq![ty], seq![ty])
        },
        index >= s.locals.len() ==> {
            &&& does(s, env, Op::LocalGet(index), offset).1 is Err
            &&& does(s, env, Op::LocalSet(index), offset).1 is Err
            &&& does(s, env, Op::LocalTee(index), offset).1 is Err
        },
{
    assert(rest(s, 0) =~= s.operands);
    if index < s.locals.len() {
        let ty = s.locals[index as int];
        lemma_pop1(s, ty, offset);
        lemma_with(s.operands, seq![ty]);
        lemma_with(rest(s, 1), seq![ty]);
        lemma_with(rest(s, 1), seq![]);
    }
}

/// A global is read as a value of its type, and written only if it can be changed.
pub proof fn law_globals(s: OpsView, env: EnvView, index: u32, offset: int)
    requires
        ready(s),
    ensures
        index < env.module.globals.len() ==> {
            let global = env.module.globals[index as int];
            let ty = global.content_type;
            &&& steps(s, does(s, env, Op::GlobalGet(index), offset), seq![], seq![ty])
            &&& global.mutable ==> steps(
                s,
                does(s, env, Op::GlobalSet(index), offset),
                seq![ty],
                seq![],
            )
            &&& !global.mutable ==> does(s, env, Op::GlobalSet(index), offset).1 is Err
        },
        index >= env.module.globals.len() ==> {
            &&& does(s, env, Op::GlobalGet(index), offset).1 is Err
            &&& does(s, env, Op::GlobalSet(index), offset).1 is Err
        },
{
    assert(rest(s, 0) =~= s.operands);
    if index < env.module.globals.len() {
        let ty = env.module.globals[index as int].content_type;
        lemma_pop1(s, ty, offset);
        lemma_with(s.operands, seq![ty]);
        lemma_with(rest(s, 1), seq![]);
    }
}

/// The types that an operator takes, as a list.
pub open spec fn listed(params: Params) -> Seq<Type> {
    match params {
        Params::One(a) => seq![a],
        Params::Two(a, b) => seq![a, b],
        Params::Three(a, b, c) => seq![a, b, c],
    }
}

/// The proposal that an operator belongs to is enabled.
pub open spec fn allowed(env: EnvView, feature: Feature) -> bool {
    match feature {
        Feature::Mvp => true,
        Feature::SaturatingFloatToInt => env.features.saturating_float_to_int,
        Feature::SignExtension => env.features.sign_extension,
        Feature::Simd => env.features.simd,
        Feature::RelaxedSimd => env.features.relaxed_simd,
        Feature::Threads => env.features.threads,
    }
}

/// An operator that only computes takes its operands and gives its result, if its proposal is
/// enabled and it does not compute with floats where they are not allowed.
pub proof fn law_computing(s: OpsView, env: EnvView, simple: Simple, offset: int)
    requires
        ready(s),
    ensures
        ({
            let out = does(s, env, Op::Simple(simple), offset);
            if allowed(env, simple.feature) && !(simple.floats && env.features.deterministic_only) {
                steps(s, out, listed(simple.params), seq![simple.result])
            } else {
                out.1 is Err
            }
        }),
{
    match simple.params {
        Params::One(a) => lemma_pop1(s, a, offset),
        Params::Two(a, b) => lemma_pop2(s, a, b, offset),
        Params::Three(a, b, c) => lemma_pop3(s, a, b, c, offset),
    }
    lemma_with(rest(s, listed(simple.params).len()), seq![simple.result]);
}

/// A value is dropped whatever its type is, but there has to be one.
pub proof fn law_drop(s: OpsView, env: EnvView, offset: int)
    requires
        ready(s),
    ensures
        ({
            let out = does(s, env, Op::Drop, offset);
            &&& out.1 is Ok <==> s.operands.len() > base(s) || dead(s)
            &&& out.1 is Ok ==> out.0 == (OpsView { operands: rest(s, 1), ..s })
        }),
{
    lemma_pop(s, None, offset);
}

/// One of two values of a type that is named is chosen by an integer.
pub proof fn law_typed_select(s: OpsView, env: EnvView, ty: Type, offset: int)
    requires
        ready(s),
    ensures
        ({
            let out = does(s, env, Op::TypedSelect(ty), offset);
            if usable(env, ty) {
                steps(s, out, seq![ty, ty, Type::I32], seq![ty])
            } else {
                out.1 is Err
            }
        }),
{
    lemma_pop3(s, ty, ty, Type::I32, offset);
    lemma_with(rest(s, 3), seq![ty]);
}

/// Where the code can be reached and three values are known, one of the first two is chosen by the
/// third: it is an integer of 32 bits, they are of one type, and it is no reference.
pub proof fn law_select(s: OpsView, env: EnvView, offset: int)
    requires
        ready(s),
        !dead(s),
        s.operands.len() - base(s) >= 3,
        forall|i: int|
            s.operands.len() - 3 <= i < s.operands.len() ==> (#[trigger] s.operands[i]) is Some,
    ensures
        ({
            let out = does(s, env, Op::Select, offset);
            let n = s.operands.len() as int;
            let ty = s.operands[n - 3]->0;
            &&& out.1 is Ok <==> {
                &&& s.operands[n - 1] == Some(Type::I32)
                &&& s.operands[n - 2] == s.operands[n - 3]
                &&& ty != Type::FuncRef && ty != Type::ExternRef
            }
            &&& out.1 is Ok ==> out.0 == (OpsView {
                operands: s.operands.take(n - 3).push(Some(ty)),
                ..s
            })
        }),
{
    let n = s.operands.len() as int;
    assert(s.operands[n - 1] is Some && s.operands[n - 2] is Some && s.operands[n - 3] is Some);
    lemma_pop(s, Some(Type::I32), offset);
    let t = s.pop(Some(Type::I32), offset).0;
    lemma_pop(t, None, offset);
    let u = t.pop(None, offset).0;
    lemma_pop(u, None, offset);
    assert(u.pop(None, offset).0.operands =~= s.operands.take(n - 3));
}

/// With fewer than three values in code that can be reached, nothing is chosen.
pub proof fn law_select_needs_three(s: OpsView, env: EnvView, offset: int)
    requires
        ready(s),
        !dead(s),
        s.operands.len() - base(s) < 3,
    ensures
        does(s, env, Op::Select, offset).1 is Err,
{
    lemma_pop(s, Some(Type::I32), offset);
    let t = s.pop(Some(Type::I32), offset).0;
    lemma_pop(t, None, offset);
    lemma_pop(t.pop(None, offset).0, None, offset);
}

/// A call takes what the function takes and gives what it gives.
pub proof fn law_call(s: OpsView, env: EnvView, func: u32, offset: int)
    requires
        ready(s),
        env.wf(),
    ensures
        ({
            let out = does(s, env, Op::Call(func), offset);
            if func < env.module.functions.len() {
                let ty = func_of(env, env.module.functions[func as int]);
                steps(s, out, ty.params, ty.returns)
            } else {
                out.1 is Err
            }
        }),
{
    if func < env.module.functions.len() {
        let ty = func_of(env, env.module.functions[func as int]);
        assert(env.module.functions[func as int] < env.module.types.len());
        lemma_pop_list(s, ty.params, offset);
        lemma_with(rest(s, ty.params.len()), ty.returns);
    }
}

/// An indirect call takes an index into a table of functions on top of what the function takes.
pub proof fn law_call_indirect(
    s: OpsView,
    env: EnvView,
    ty: u32,
    table: u32,
    table_byte: u8,
    offset: int,
)
    requires
        ready(s),
        env.wf(),
    ensures
        ({
            let out = does(s, env, Op::CallIndirect { ty, table, table_byte }, offset);
            if {
                &&& table < env.module.tables.len()
                &&& env.module.tables[table as int].element_type == Type::FuncRef
                &&& ty < env.module.types.len()
                &&& table_byte == 0 || env.features.reference_types
            } {
                let func = func_of(env, ty);
                steps(s, out, func.params.push(Type::I32), func.returns)
            } else {
                out.1 is Err
            }
        }),
{
    if ty < env.module.types.len() {
        let func = func_of(env, ty);
        let takes = func.params.push(Type::I32);
        lemma_pop1(s, Type::I32, offset);
        lemma_pop_list(s, takes, offset);
        assert(takes.drop_last() =~= func.params);
        reveal_with_fuel(OpsView::pop_list, 2);
        lemma_with(rest(s, takes.len()), func.returns);
    }
}

proof fn lemma_leaves(s: OpsView, takes: Seq<Type>, offset: int)
    requires
        ready(s),
    ensures
        leaves(
            s,
            match s.pop_list(takes, offset) {
                (s, Err(e)) => (s, Err(e)),
                (s, Ok(_)) => (s.set_unreachable(), Ok(())),
            },
            takes,
        ),
{
    lemma_pop_list(s, takes, offset);
    if s.pop_list(takes, offset).1 is Ok {
        let t = s.pop_list(takes, offset).0;
        assert(t.operands.take(base(s)) =~= s.operands.take(base(s)));
    }
}

/// A return takes, from the top of the stack, what the function gives: each value has to be there
/// and to be of its type.
pub proof fn law_return(s: OpsView, env: EnvView, offset: int)
    requires
        ready(s),
        named(env, s.control[0].block_type),
    ensures
        leaves(
            s,
            does(s, env, Op::Return, offset),
            gives_of(env, s.control[0].block_type),
        ),
{
    lemma_leaves(s, gives_of(env, s.control[0].block_type), offset);
}

/// In code that can be reached, a return that is accepted finds the results of the function on top
/// of the stack, in order and above the start of the innermost block.
pub proof fn law_return_types(s: OpsView, env: EnvView, ty: u32, i: int, offset: int)
    requires
        ready(s),
        !dead(s),
        s.control[0].block_type == BlockType::FuncType(ty),
        ty < env.module.types.len(),
        0 <= i < env.types[env.module.types[ty as int] as int]->Func_0.returns.len(),
        does(s, env, Op::Return, offset).1 is Ok,
    ensures
        ({
            let results = env.types[env.module.types[ty as int] as int]->Func_0.returns;
            let place = s.operands.len() - results.len() + i;
            &&& place >= base(s)
            &&& s.operands[place] is None || s.operands[place] == Some(results[i])
        }),
{
    law_return(s, env, offset);
    let results = func_of(env, ty).returns;
    assert(gives_of(env, s.control[0].block_type) == results);
    assert(fits(s, results));
    let wanted = results[i];
}

/// A trap takes nothing, and nothing is reached behind it.
pub proof fn law_unreachable(s: OpsView, env: EnvView, offset: int)
    requires
        ready(s),
    ensures
        leaves(s, does(s, env, Op::Unreachable, offset), seq![]),
        does(s, env, Op::Unreachable, offset).1 is Ok,
{
    lemma_leaves(s, seq![], offset);
}

/// What a branch to a block takes along: to the start of a loop what the loop takes, to the end of
/// another block what the block gives.
pub open spec fn carried(env: EnvView, frame: Frame) -> Seq<Type> {
    if frame.kind == FrameKind::Loop {
        takes_of(env, frame.block_type)
    } else {
        gives_of(env, frame.block_type)
    }
}

/// The block so many blocks further out.
pub open spec fn target(s: OpsView, depth: u32) -> Frame {
    s.control[s.control.len() - 1 - depth]
}

/// A branch goes to an open block and takes along what that block expects there; nothing is reached
/// behind it.
pub proof fn law_branch(s: OpsView, env: EnvView, depth: u32, offset: int)
    requires
        ready(s),
        depth < s.control.len() ==> named(env, target(s, depth).block_type),
    ensures
        if depth < s.control.len() {
            leaves(s, does(s, env, Op::Br(depth), offset), carried(env, target(s, depth)))
        } else {
            does(s, env, Op::Br(depth), offset).1 is Err
        },
{
    if depth < s.control.len() {
        lemma_leaves(s, carried(env, target(s, depth)), offset);
    }
}

/// A branch that depends on an integer takes the integer, and leaves on the stack what the branch
/// would take along.
pub proof fn law_branch_if(s: OpsView, env: EnvView, depth: u32, offset: int)
    requires
        ready(s),
        depth < s.control.len() ==> named(env, target(s, depth).block_type),
    ensures
        if depth < s.control.len() {
            let along = carried(env, target(s, depth));
            steps(s, does(s, env, Op::BrIf(depth), offset), along.push(Type::I32), along)
        } else {
            does(s, env, Op::BrIf(depth), offset).1 is Err
        },
{
    lemma_pop1(s, Type::I32, offset);
    if depth < s.control.len() {
        let along = carried(env, target(s, depth));
        let takes = along.push(Type::I32);
        lemma_pop_list(s, takes, offset);
        assert(takes.drop_last() =~= along);
        reveal_with_fuel(OpsView::pop_list, 2);
        lemma_with(rest(s, takes.len()), along);
    }
}

/// The type of a block can be had: it is nothing, one value that can be had, or, with the
/// multi-value proposal, a function type of the module.
pub open spec fn can_open(env: EnvView, ty: BlockType) -> bool {
    match ty {
        BlockType::Empty => true,
        BlockType::Type(ty) => usable(env, ty),
        BlockType::FuncType(index) => env.features.multi_value && index < env.module.types.len(),
    }
}

/// An operator opens a block: it takes some values, among them, on top or below the one that an
/// `if` takes, those that the block takes, and these are all that is on the stack of the block.
pub open spec fn opens(
    s: OpsView,
    env: EnvView,
    out: (OpsView, Result<()>),
    kind: FrameKind,
    ty: BlockType,
    takes: Seq<Type>,
) -> bool {
    &&& out.1 is Ok <==> can_open(env, ty) && fits(s, takes)
    &&& out.1 is Ok ==> out.0 == (OpsView {
        operands: with(rest(s, takes.len()), takes_of(env, ty)),
        control: s.control.push(
            Frame {
                kind,
                block_type: ty,
                height: rest(s, takes.len()).len() as usize,
                unreachable: false,
            },
        ),
        ..s
    })
}

/// A block, a loop and, with the exceptions proposal, a `try` take what their type says.
pub proof fn law_block(s: OpsView, env: EnvView, ty: BlockType, offset: int)
    requires
        ready(s),
    ensures
        ({
            let takes = takes_of(env, ty);
            &&& opens(s, env, does(s, env, Op::Block(ty), offset), FrameKind::Block, ty, takes)
            &&& opens(s, env, does(s, env, Op::Loop(ty), offset), FrameKind::Loop, ty, takes)
            &&& env.features.exceptions ==> opens(
                s,
                env,
                does(s, env, Op::Try(ty), offset),
                FrameKind::Try,
                ty,
                takes,
            )
            &&& !env.features.exceptions ==> does(s, env, Op::Try(ty), offset).1 is Err
        }),
{
    let takes = takes_of(env, ty);
    lemma_pop_list(s, takes, offset);
    lemma_with(rest(s, takes.len()), takes);
}

/// An `if` takes an integer on top of what its type says.
pub proof fn law_if(s: OpsView, env: EnvView, ty: BlockType, offset: int)
    requires
        ready(s),
    ensures
        opens(
            s,
            env,
            does(s, env, Op::If(ty), offset),
            FrameKind::If,
            ty,
            takes_of(env, ty).push(Type::I32),
        ),
{
    let params = takes_of(env, ty);
    let takes = params.push(Type::I32);
    lemma_pop1(s, Type::I32, offset);
    lemma_pop_list(s, takes, offset);
    assert(takes.drop_last() =~= params);
    reveal_with_fuel(OpsView::pop_list, 2);
    lemma_with(rest(s, takes.len()), params);
}

/// The innermost block can be closed: what it gives is on the stack, and nothing else of it.
pub open spec fn can_close(s: OpsView, env: EnvView) -> bool {
    let gives = gives_of(env, s.control[s.control.len() - 1].block_type);
    fits(s, gives) && s.operands.len() - base(s) <= gives.len()
}

proof fn lemma_pop_ctrl(s: OpsView, env: EnvView, offset: int)
    requires
        ready(s),
        named(env, s.control[s.control.len() - 1].block_type),
    ensures
        s.pop_ctrl(env, offset).1 is Ok <==> can_close(s, env),
        s.pop_ctrl(env, offset).1 matches Ok(frame) ==> frame == s.control[s.control.len() - 1]
            && s.pop_ctrl(env, offset).0 == (OpsView {
            operands: s.operands.take(base(s)),
            control: s.control.drop_last(),
            ..s
        }),
{
    let gives = gives_of(env, s.control[s.control.len() - 1].block_type);
    lemma_pop_list(s, gives, offset);
    if s.pop_ctrl(env, offset).1 is Ok {
        assert(rest(s, gives.len()) =~= s.operands.take(base(s)));
    }
}

/// An `else` closes an `if` and opens its other half, with what the `if` takes on the stack.
pub proof fn law_else(s: OpsView, env: EnvView, offset: int)
    requires
        ready(s),
        named(env, s.control[s.control.len() - 1].block_type),
    ensures
        ({
            let out = does(s, env, Op::Else, offset);
            let frame = s.control[s.control.len() - 1];
            &&& out.1 is Ok <==> frame.kind == FrameKind::If && can_close(s, env)
            &&& out.1 is Ok ==> out.0 == (OpsView {
                operands: with(s.operands.take(base(s)), takes_of(env, frame.block_type)),
                control: s.control.drop_last().push(
                    Frame { kind: FrameKind::Else, unreachable: false, ..frame },
                ),
                ..s
            })
        }),
{
    lemma_pop_ctrl(s, env, offset);
    let frame = s.control[s.control.len() - 1];
    lemma_with(s.operands.take(base(s)), takes_of(env, frame.block_type));
}

/// An `end` closes the innermost block and leaves what the block gives. An `if` without an `else`
/// has to give what it takes.
pub proof fn law_end(s: OpsView, env: EnvView, offset: int)
    requires
        ready(s),
        named(env, s.control[s.control.len() - 1].block_type),
    ensures
        ({
            let out = does(s, env, Op::End, offset);
            let frame = s.control[s.control.len() - 1];
            let gives = gives_of(env, frame.block_type);
            &&& out.1 is Ok <==> can_close(s, env) && (frame.kind == FrameKind::If
                ==> takes_of(env, frame.block_type) == gives)
            &&& out.1 is Ok ==> out.0 == (OpsView {
                operands: with(s.operands.take(base(s)), gives),
                control: s.control.drop_last(),
                ..s
            })
        }),
{
    lemma_pop_ctrl(s, env, offset);
    let frame = s.control[s.control.len() - 1];
    let gives = gives_of(env, frame.block_type);
    let takes = takes_of(env, frame.block_type);
    let below = s.operands.take(base(s));
    lemma_with(below, gives);
    lemma_with(below, takes);
    if can_close(s, env) && frame.kind == FrameKind::If {
        let t = OpsView { operands: below, control: s.control.drop_last(), ..s };
        let u = t.push_ctrl(env, FrameKind::Else, frame.block_type);
        assert(u.operands == with(below, takes));
        assert(base(u) == below.len());
        lemma_pop_else(u, env, below, takes, gives, offset);
        assert(u.control.drop_last() =~= t.control);
    }
}

proof fn lemma_pop_else(
    u: OpsView,
    env: EnvView,
    below: Seq<Option<Type>>,
    takes: Seq<Type>,
    gives: Seq<Type>,
    offset: int,
)
    requires
        u.control.len() > 0,
        u.operands == with(below, takes),
        base(u) == below.len(),
        !dead(u),
        named(env, u.control[u.control.len() - 1].block_type),
        gives == gives_of(env, u.control[u.control.len() - 1].block_type),
    ensures
        u.pop_ctrl(env, offset).1 is Ok <==> takes == gives,
        u.pop_ctrl(env, offset).1 matches Ok(frame) ==> frame == u.control[u.control.len() - 1]
            && u.pop_ctrl(env, offset).0 == (OpsView {
            operands: below,
            control: u.control.drop_last(),
            ..u
        }),
{
    lemma_pop_exact(u, below, takes, gives, offset);
}

proof fn lemma_pop_exact(
    u: OpsView,
    below: Seq<Option<Type>>,
    takes: Seq<Type>,
    gives: Seq<Type>,
    offset: int,
)
    requires
        u.control.len() > 0,
        u.operands == with(below, takes),
        base(u) == below.len(),
        !dead(u),
    ensures
        ({
            let out = u.pop_list(gives, offset);
            &&& out.1 is Ok && out.0.operands.len() == below.len() <==> takes == gives
            &&& takes == gives ==> out.0 == (OpsView { operands: below, ..u })
        }),
    decreases gives.len(),
{
    if gives.len() == 0 {
        assert(takes.len() == 0 ==> takes =~= gives);
        assert(takes.len() == 0 ==> u.operands =~= below);
    } else if takes.len() > 0 {
        let front = takes.drop_last();
        assert(u.operands.drop_last() =~= with(below, front));
        let t = OpsView { operands: u.operands.drop_last(), ..u };
        lemma_pop_exact(t, below, front, gives.drop_last(), offset);
        assert(u.operands.last() == Some(takes.last()));
        if takes.last() == gives.last() && front == gives.drop_last() {
            assert(takes =~= front.push(takes.last()));
            assert(gives =~= gives.drop_last().push(gives.last()));
        }
    } else {
        assert(u.operands =~= below);
    }
}

/// The state behind a call of a function of a type.
pub open spec fn called(s: OpsView, ty: FuncTypeView) -> OpsView {
    OpsView { operands: with(rest(s, ty.params.len()), ty.returns), ..s }
}

/// What the called function gives, with what was below it on the stack, ends with what this function
/// gives, value by value.
pub open spec fn gives_the_same(s: OpsView, ty: FuncTypeView, gives: Seq<Type>) -> bool {
    &&& fits(called(s, ty), gives)
    &&& ty.returns.len() >= gives.len() ==> forall|k: int|
        0 <= k < gives.len() ==> ty.returns[ty.returns.len() - gives.len() + k]
            == #[trigger] gives[k]
}

/// A call in place of the rest of the function takes what the called function takes, and that one
/// has to give what this one gives.
pub proof fn law_tail_call(s: OpsView, env: EnvView, func: u32, offset: int)
    requires
        ready(s),
        env.wf(),
        named(env, s.control[0].block_type),
        func < env.module.functions.len() ==> s.operands.len() + func_of(
            env,
            env.module.functions[func as int],
        ).returns.len() <= usize::MAX,
    ensures
        ({
            let out = does(s, env, Op::ReturnCall(func), offset);
            let ty = func_of(env, env.module.functions[func as int]);
            &&& out.1 is Ok <==> {
                &&& env.features.tail_call
                &&& func < env.module.functions.len()
                &&& fits(s, ty.params)
                &&& gives_the_same(s, ty, gives_of(env, s.control[0].block_type))
            }
            &&& out.1 is Ok ==> dead(out.0) && out.0.operands == s.operands.take(base(s))
        }),
{
    if func < env.module.functions.len() {
        assert(env.module.functions[func as int] < env.module.types.len());
        lemma_tail(s, env, func_of(env, env.module.functions[func as int]), offset);
    }
}

proof fn lemma_tail(s: OpsView, env: EnvView, ty: FuncTypeView, offset: int)
    requires
        ready(s),
        named(env, s.control[0].block_type),
        s.operands.len() + ty.returns.len() <= usize::MAX,
    ensures
        ({
            let out = s.tail_call(env, ty, offset);
            let gives = gives_of(env, s.control[0].block_type);
            &&& out.1 is Ok <==> fits(s, ty.params) && gives_the_same(s, ty, gives)
            &&& out.1 is Ok ==> dead(out.0) && out.0.operands == s.operands.take(base(s))
        }),
{
    lemma_pop_list(s, ty.params, offset);
    let below = rest(s, ty.params.len());
    lemma_with(below, ty.returns);
    if fits(s, ty.params) {
        let t = s.call(ty, offset).0;
        let gives = gives_of(env, s.control[0].block_type);
        assert(t == called(s, ty));
        assert(ready(t));
        lemma_leaves(t, gives, offset);
        if fits(t, gives) && ty.returns.len() >= gives.len() {
            assert forall|k: int| 0 <= k < gives.len() implies ty.returns[ty.returns.len()
                - gives.len() + k] == #[trigger] gives[k] by {
                let place = t.operands.len() - gives.len() + k;
                let wanted = gives[k];
                assert(place >= base(t));
                assert(t.operands[place] == Some(ty.returns[ty.returns.len() - gives.len() + k]));
            }
        }
        assert(t.operands.take(base(s)) =~= s.operands.take(base(s)));
    }
}

/// An indirect call in place of the rest of the function takes an index into a table of functions
/// on top of what the called function takes, and that one has to give what this one gives.
pub proof fn law_tail_call_indirect(s: OpsView, env: EnvView, ty: u32, table: u32, offset: int)
    requires
        ready(s),
        env.wf(),
        named(env, s.control[0].block_type),
        ty < env.module.types.len() ==> s.operands.len() + func_of(env, ty).returns.len()
            <= usize::MAX,
    ensures
        ({
            let out = does(s, env, Op::ReturnCallIndirect { ty, table }, offset);
            let func = func_of(env, ty);
            let below = OpsView { operands: rest(s, 1), ..s };
            &&& out.1 is Ok <==> {
                &&& env.features.tail_call
                &&& table < env.module.tables.len()
                &&& env.module.tables[table as int].element_type == Type::FuncRef
                &&& ty < env.module.types.len()
                &&& fits(s, seq![Type::I32])
                &&& fits(below, func.params)
                &&& gives_the_same(below, func, gives_of(env, s.control[0].block_type))
            }
            &&& out.1 is Ok ==> dead(out.0)
        }),
{
    if ty < env.module.types.len() {
        let func = func_of(env, ty);
        lemma_pop1(s, Type::I32, offset);
        if s.pop1(Type::I32, offset).1 is Ok {
            let t = s.pop1(Type::I32, offset).0;
            lemma_tail(t, env, func, offset);
        }
    }
}

/// The topmost values of the innermost block; those that are not there are not known.
pub open spec fn held(s: OpsView, n: nat) -> Seq<Option<Type>> {
    Seq::new(
        n,
        |k: int|
            if s.operands.len() - n + k >= base(s) {
                s.operands[s.operands.len() - n + k]
            } else {
                None
            },
    )
}

proof fn lemma_check_list(s: OpsView, types: Seq<Type>, popped: Seq<Option<Type>>, offset: int)
    requires
        ready(s),
    ensures
        s.check_list(types, popped, offset).1 is Ok <==> fits(s, types),
        s.check_list(types, popped, offset).1 is Ok ==> s.check_list(types, popped, offset).0 == (
        OpsView {
            operands: rest(s, types.len()) + held(s, types.len()) + popped.reverse(),
            ..s
        }),
    decreases types.len(),
{
    if types.len() == 0 {
        assert(rest(s, 0) + held(s, 0) =~= s.operands);
    } else {
        let front = types.drop_last();
        lemma_pop(s, Some(types.last()), offset);
        lemma_pop_list(s, types, offset);
        let t = s.pop(Some(types.last()), offset).0;
        if let Ok(v) = s.pop(Some(types.last()), offset).1 {
            lemma_check_list(t, front, popped.push(v), offset);
            lemma_pop_list(t, front, offset);
            assert(popped.push(v).reverse() =~= seq![v] + popped.reverse());
            assert(held(s, types.len()) =~= held(t, front.len()) + seq![v]);
            assert(rest(t, front.len()) =~= rest(s, types.len()));
            assert(rest(t, front.len()) + held(t, front.len()) + popped.push(v).reverse()
                =~= rest(s, types.len()) + held(s, types.len()) + popped.reverse());
        }
    }
}

proof fn lemma_same_fit(s: OpsView, t: OpsView, n: nat, types: Seq<Type>)
    requires
        ready(s),
        t.control == s.control,
        t.operands == rest(s, n) + held(s, n),
        types.len() == n,
        s.operands.len() - n < base(s) ==> dead(s),
    ensures
        fits(t, types) <==> fits(s, types),
{
    let short = s.operands.len() - n < base(s);
    assert(!short ==> t.operands =~= s.operands);
    assert forall|k: int| 0 <= k < n implies ({
        let p = s.operands.len() - n + k;
        let q = t.operands.len() - n + k;
        &&& q >= base(t)
        &&& p >= base(s) ==> t.operands[q] == s.operands[p]
        &&& p < base(s) ==> t.operands[q] is None && dead(s)
        &&& #[trigger] types[k] == types[k]
    }) by {
        let q = t.operands.len() - n + k;
        assert(t.operands[q] == held(s, n)[k]);
    }
    if fits(s, types) {
        assert forall|k: int| 0 <= k < types.len() implies {
            let place = t.operands.len() - types.len() + k;
            let ty = #[trigger] types[k];
            if place >= base(t) {
                t.operands[place] is None || t.operands[place] == Some(ty)
            } else {
                dead(t)
            }
        } by {
            let ty = types[k];
        }
    }
    if fits(t, types) {
        assert forall|k: int| 0 <= k < types.len() implies {
            let place = s.operands.len() - types.len() + k;
            let ty = #[trigger] types[k];
            if place >= base(s) {
                s.operands[place] is None || s.operands[place] == Some(ty)
            } else {
                dead(s)
            }
        } by {
            let ty = types[k];
        }
    }
}

/// The target of a branch is an open block that expects so many values, and they are there.
pub open spec fn reachable_target(s: OpsView, env: EnvView, depth: u32, arity: nat) -> bool {
    &&& depth < s.control.len()
    &&& carried(env, target(s, depth)).len() == arity
    &&& fits(s, carried(env, target(s, depth)))
}

proof fn lemma_targets(
    s: OpsView,
    env: EnvView,
    targets: Seq<u32>,
    i: int,
    arity: nat,
    offset: int,
)
    requires
        ready(s),
        0 <= i <= targets.len(),
        base(s) + arity <= usize::MAX,
        forall|j: int| 0 <= j < s.control.len() ==> named(env, (#[trigger] s.control[j]).block_type),
    ensures
        ({
            let out = s.targets(env, targets, i, arity as int, offset);
            &&& out.1 is Ok <==> forall|j: int|
                i <= j < targets.len() ==> reachable_target(s, env, #[trigger] targets[j], arity)
            &&& out.1 is Ok ==> {
                &&& out.0.control == s.control
                &&& out.0.locals == s.locals
                &&& out.0.operands == s.operands || (out.0.operands == rest(s, arity) + held(
                    s,
                    arity,
                ) && (s.operands.len() - arity < base(s) ==> dead(s)))
            }
        }),
    decreases targets.len() - i,
{
    if i < targets.len() {
        let depth = targets[i];
        if depth < s.control.len() {
            assert(named(env, target(s, depth).block_type));
            let types = carried(env, target(s, depth));
            if types.len() == arity {
                lemma_check_list(s, types, Seq::empty(), offset);
                let t = s.check_list(types, Seq::empty(), offset).0;
                if fits(s, types) {
                    assert(t.operands =~= rest(s, arity) + held(s, arity));
                    if s.operands.len() - arity < base(s) {
                        let first = types[0];
                        assert(dead(s));
                    }
                    assert(ready(t));
                    lemma_targets(t, env, targets, i + 1, arity, offset);
                    assert(rest(t, arity) + held(t, arity) =~= t.operands);
                    assert forall|j: int| i + 1 <= j < targets.len() implies reachable_target(
                        s,
                        env,
                        #[trigger] targets[j],
                        arity,
                    ) == reachable_target(t, env, targets[j], arity) by {
                        if targets[j] < s.control.len() && carried(
                            env,
                            target(s, targets[j]),
                        ).len() == arity {
                            lemma_same_fit(s, t, arity, carried(env, target(s, targets[j])));
                        }
                    }
                    if s.targets(env, targets, i, arity as int, offset).1 is Ok {
                        assert forall|j: int| i <= j < targets.len() implies reachable_target(
                            s,
                            env,
                            #[trigger] targets[j],
                            arity,
                        ) by {
                            if j > i {
                                assert(reachable_target(t, env, targets[j], arity));
                            }
                        }
                    } else {
                        let j = choose|j: int|
                            i + 1 <= j < targets.len() && !reachable_target(
                                t,
                                env,
                                #[trigger] targets[j],
                                arity,
                            );
                        assert(!reachable_target(s, env, targets[j], arity));
                    }
                }
            }
        }
        if !reachable_target(s, env, targets[i], arity) {
            assert(s.targets(env, targets, i, arity as int, offset).1 is Err);
        }
    }
}

/// A branch table takes an integer; each of its targets, the last one too, is an open block, all of
/// them expect as many values, and each finds them on the stack. Nothing is reached behind it.
pub proof fn law_branch_table(
    s: OpsView,
    env: EnvView,
    targets: Seq<u32>,
    default: u32,
    offset: int,
)
    requires
        ready(s),
        forall|j: int| 0 <= j < s.control.len() ==> named(env, (#[trigger] s.control[j]).block_type),
        forall|j: int|
            0 <= j < s.control.len() ==> base(s) + carried(env, #[trigger] s.control[j]).len()
                <= usize::MAX,
    ensures
        ({
            let out = s.op(env, OperatorView::BrTable { targets, default }, offset);
            let t = OpsView { operands: rest(s, 1), ..s };
            let arity = carried(env, target(s, default)).len();
            &&& out.1 is Ok <==> {
                &&& fits(s, seq![Type::I32])
                &&& reachable_target(t, env, default, arity)
                &&& forall|j: int|
                    0 <= j < targets.len() ==> reachable_target(t, env, #[trigger] targets[j], arity)
            }
            &&& out.1 is Ok ==> {
                &&& out.0.operands == s.operands.take(base(s))
                &&& dead(out.0)
                &&& out.0.control.len() == s.control.len()
                &&& out.0.locals == s.locals
            }
        }),
{
    lemma_pop1(s, Type::I32, offset);
    let t = OpsView { operands: rest(s, 1), ..s };
    if fits(s, seq![Type::I32]) && default < s.control.len() {
        let types = carried(env, target(s, default));
        let arity = types.len();
        assert(named(env, target(s, default).block_type));
        lemma_targets(t, env, targets, 0, arity, offset);
        let (u, result) = t.targets(env, targets, 0, arity as int, offset);
        if result is Ok {
            assert(ready(u)) by {
                assert(rest(t, arity).len() + arity <= usize::MAX || t.operands == u.operands || (
                t.operands.len() - arity >= base(t) && u.operands =~= t.operands));
            }
            if u.operands != t.operands {
                lemma_same_fit(t, u, arity, types);
            } else {
                assert(fits(u, types) == fits(t, types));
            }
            lemma_leaves(u, types, offset);
            assert(u.operands.take(base(s)) =~= s.operands.take(base(s)));
        }
    }
}

/// The type of the addresses of a memory of the module.
pub open spec fn address(env: EnvView, memory: u32) -> Type {
    if env.module.memories[memory as int].memory64 {
        Type::I64
    } else {
        Type::I32
    }
}

/// The memory is there, and is the first one unless there can be many.
pub open spec fn has_memory(env: EnvView, memory: u32) -> bool {
    memory < env.module.memories.len() && (memory == 0 || env.features.multi_memory)
}

/// One type, or none, as a list.
pub open spec fn optional(ty: Option<Type>) -> Seq<Type> {
    match ty {
        Some(ty) => seq![ty],
        None => seq![],
    }
}

/// The type is that of a float.
pub open spec fn float(ty: Option<Type>) -> bool {
    ty == Some(Type::F32) || ty == Some(Type::F64)
}

/// An access to memory names a memory that is there, is aligned to no more than it has to be, and
/// to exactly that if it is atomic, and adds to the address what the memory can hold. It takes an
/// address and what it stores, and gives what it loads.
pub proof fn law_access(s: OpsView, env: EnvView, access: Access, memarg: MemArg, offset: int)
    requires
        ready(s),
    ensures
        ({
            let out = does(s, env, Op::Memory(access, memarg), offset);
            if {
                &&& allowed(env, access.feature)
                &&& !((float(access.first) || float(access.result))
                    && env.features.deterministic_only)
                &&& has_memory(env, memarg.memory)
                &&& memarg.align <= access.natural
                &&& access.atomic ==> memarg.align == access.natural
                &&& memarg.offset <= 0xffff_ffff || address(env, memarg.memory) == Type::I64
            } {
                steps(
                    s,
                    out,
                    seq![address(env, memarg.memory)] + optional(access.first) + optional(
                        access.second,
                    ),
                    optional(access.result),
                )
            } else {
                out.1 is Err
            }
        }),
{
    let at = address(env, memarg.memory);
    let takes = seq![at] + optional(access.first) + optional(access.second);
    match (access.first, access.second) {
        (None, None) => {
            lemma_pop1(s, at, offset);
            assert(takes =~= seq![at]);
        },
        (Some(a), None) => {
            lemma_pop2(s, at, a, offset);
            assert(takes =~= seq![at, a]);
        },
        (None, Some(b)) => {
            lemma_pop2(s, at, b, offset);
            assert(takes =~= seq![at, b]);
        },
        (Some(a), Some(b)) => {
            lemma_pop3(s, at, a, b, offset);
            assert(takes =~= seq![at, a, b]);
        },
    }
    lemma_with(rest(s, takes.len()), optional(access.result));
}

/// The size of a memory is a number of its own type of addresses, and so is what it grows by.
pub proof fn law_memory_size(s: OpsView, env: EnvView, memory: u32, memory_byte: u8, offset: int)
    requires
        ready(s),
    ensures
        ({
            let size = does(s, env, Op::MemorySize { memory, memory_byte }, offset);
            let grow = does(s, env, Op::MemoryGrow { memory, memory_byte }, offset);
            let at = address(env, memory);
            if memory < env.module.memories.len() && (memory_byte == 0
                || env.features.multi_memory) {
                &&& steps(s, size, seq![], seq![at])
                &&& steps(s, grow, seq![at], seq![at])
            } else {
                size.1 is Err && grow.1 is Err
            }
        }),
{
    let at = address(env, memory);
    assert(rest(s, 0) =~= s.operands);
    lemma_pop1(s, at, offset);
    lemma_with(s.operands, seq![at]);
    lemma_with(rest(s, 1), seq![at]);
}

/// The bulk operators on memory name memories and data segments that are there.
pub proof fn law_bulk_memory(s: OpsView, env: EnvView, a: u32, b: u32, offset: int)
    requires
        ready(s),
    ensures
        ({
            let out = does(s, env, Op::MemoryInit { segment: a, memory: b }, offset);
            if env.features.bulk_memory && has_memory(env, b) && env.module.data_count is Some && a
                < env.module.data_count->0 {
                steps(s, out, seq![address(env, b), Type::I32, Type::I32], seq![])
            } else {
                out.1 is Err
            }
        }),
        ({
            let out = does(s, env, Op::DataDrop(a), offset);
            if env.features.bulk_memory && env.module.data_count is Some && a
                < env.module.data_count->0 {
                steps(s, out, seq![], seq![])
            } else {
                out.1 is Err
            }
        }),
        ({
            let out = does(s, env, Op::MemoryCopy { target: a, source: b }, offset);
            if env.features.bulk_memory && has_memory(env, a) && has_memory(env, b) {
                let length = if address(env, a) == Type::I64 {
                    address(env, b)
                } else {
                    Type::I32
                };
                steps(s, out, seq![address(env, a), address(env, b), length], seq![])
            } else {
                out.1 is Err
            }
        }),
        ({
            let out = does(s, env, Op::MemoryFill(a), offset);
            if env.features.bulk_memory && has_memory(env, a) {
                steps(s, out, seq![address(env, a), Type::I32, address(env, a)], seq![])
            } else {
                out.1 is Err
            }
        }),
        ({
            let out = does(s, env, Op::AtomicFence, offset);
            if env.features.threads {
                steps(s, out, seq![], seq![])
            } else {
                out.1 is Err
            }
        }),
{
    assert(rest(s, 0) =~= s.operands);
    lemma_with(s.operands, seq![]);
    lemma_with(rest(s, 3), seq![]);
    lemma_pop3(s, address(env, b), Type::I32, Type::I32, offset);
    let length = if address(env, a) == Type::I64 {
        address(env, b)
    } else {
        Type::I32
    };
    lemma_pop3(s, address(env, a), address(env, b), length, offset);
    lemma_pop3(s, address(env, a), Type::I32, address(env, a), offset);
}

/// The elements of a table are read and written as values of its type, by an integer of 32 bits.
pub proof fn law_tables(s: OpsView, env: EnvView, table: u32, offset: int)
    requires
        ready(s),
    ensures
        ({
            let ty = env.module.tables[table as int].element_type;
            let get = does(s, env, Op::TableGet(table), offset);
            let set = does(s, env, Op::TableSet(table), offset);
            let grow = does(s, env, Op::TableGrow(table), offset);
            let size = does(s, env, Op::TableSize(table), offset);
            let fill = does(s, env, Op::TableFill(table), offset);
            if env.features.reference_types && table < env.module.tables.len() {
                &&& steps(s, get, seq![Type::I32], seq![ty])
                &&& steps(s, set, seq![Type::I32, ty], seq![])
                &&& steps(s, grow, seq![ty, Type::I32], seq![Type::I32])
                &&& steps(s, size, seq![], seq![Type::I32])
                &&& steps(s, fill, seq![Type::I32, ty, Type::I32], seq![])
            } else {
                get.1 is Err && set.1 is Err && grow.1 is Err && size.1 is Err && fill.1 is Err
            }
        }),
{
    let ty = env.module.tables[table as int].element_type;
    assert(rest(s, 0) =~= s.operands);
    lemma_pop1(s, Type::I32, offset);
    lemma_pop2(s, Type::I32, ty, offset);
    lemma_pop2(s, ty, Type::I32, offset);
    lemma_pop3(s, Type::I32, ty, Type::I32, offset);
    lemma_with(s.operands, seq![Type::I32]);
    lemma_with(rest(s, 1), seq![ty]);
    lemma_with(rest(s, 2), seq![]);
    lemma_with(rest(s, 2), seq![Type::I32]);
    lemma_with(rest(s, 3), seq![]);
}

/// The bulk operators on tables name tables and element segments that are there, of one type.
#[verifier::rlimit(40)]
pub proof fn law_bulk_tables(s: OpsView, env: EnvView, a: u32, b: u32, offset: int)
    requires
        ready(s),
    ensures
        ({
            let out = does(s, env, Op::TableInit { segment: a, table: b }, offset);
            if {
                &&& env.features.bulk_memory
                &&& b == 0 || env.features.reference_types
                &&& a < env.module.element_types.len()
                &&& b < env.module.tables.len()
                &&& env.module.element_types[a as int] == env.module.tables[b as int].element_type
            } {
                steps(s, out, seq![Type::I32, Type::I32, Type::I32], seq![])
            } else {
                out.1 is Err
            }
        }),
        ({
            let out = does(s, env, Op::ElemDrop(a), offset);
            if env.features.bulk_memory && a < env.module.element_types.len() {
                steps(s, out, seq![], seq![])
            } else {
                out.1 is Err
            }
        }),
        ({
            let out = does(s, env, Op::TableCopy { target: a, source: b }, offset);
            if {
                &&& env.features.bulk_memory
                &&& a == 0 && b == 0 || env.features.reference_types
                &&& a < env.module.tables.len()
                &&& b < env.module.tables.len()
                &&& env.module.tables[a as int].element_type
                    == env.module.tables[b as int].element_type
            } {
                steps(s, out, seq![Type::I32, Type::I32, Type::I32], seq![])
            } else {
                out.1 is Err
            }
        }),
{
    assert(rest(s, 0) =~= s.operands);
    lemma_with(s.operands, seq![]);
    lemma_with(rest(s, 3), seq![]);
    lemma_pop3(s, Type::I32, Type::I32, Type::I32, offset);
}

/// References are made of types of references and of functions that are declared, and only
/// references are compared with null.
pub proof fn law_references(s: OpsView, env: EnvView, ty: Type, func: u32, offset: int)
    requires
        ready(s),
        env.wf(),
    ensures
        ({
            let out = does(s, env, Op::RefNull(ty), offset);
            if env.features.reference_types && (ty == Type::FuncRef || ty == Type::ExternRef) {
                steps(s, out, seq![], seq![ty])
            } else {
                out.1 is Err
            }
        }),
        ({
            let out = does(s, env, Op::RefFunc(func), offset);
            if env.features.reference_types && func < env.module.functions.len()
                && env.module.function_references.contains(func) {
                steps(s, out, seq![], seq![Type::FuncRef])
            } else {
                out.1 is Err
            }
        }),
        ({
            let out = does(s, env, Op::RefIsNull, offset);
            let top = s.operands[s.operands.len() - 1];
            &&& out.1 is Ok <==> env.features.reference_types && if s.operands.len() > base(s) {
                top is None || top == Some(Type::FuncRef) || top == Some(Type::ExternRef)
            } else {
                dead(s)
            }
            &&& out.1 is Ok ==> out.0 == (OpsView {
                operands: rest(s, 1).push(Some(Type::I32)),
                ..s
            })
        }),
{
    assert(rest(s, 0) =~= s.operands);
    lemma_with(s.operands, seq![ty]);
    lemma_with(s.operands, seq![Type::FuncRef]);
    lemma_pop(s, None, offset);
    if func < env.module.functions.len() {
        assert(env.module.functions[func as int] < env.module.types.len());
    }
}

/// What an exception of a tag carries.
pub open spec fn carries(env: EnvView, tag: u32) -> Seq<Type> {
    env.types[env.module.tags[tag as int] as int]->Func_0.params
}

/// An exception is thrown with what its tag carries; nothing is reached behind it.
pub proof fn law_throw(s: OpsView, env: EnvView, tag: u32, offset: int)
    requires
        ready(s),
    ensures
        ({
            let out = does(s, env, Op::Throw(tag), offset);
            if env.features.exceptions && tag < env.module.tags.len() {
                leaves(s, out, carries(env, tag))
            } else {
                out.1 is Err
            }
        }),
{
    lemma_leaves(s, carries(env, tag), offset);
}

/// An exception is thrown again only in a part of a `try` that has caught one.
pub proof fn law_rethrow(s: OpsView, env: EnvView, depth: u32, offset: int)
    requires
        ready(s),
    ensures
        ({
            let out = does(s, env, Op::Rethrow(depth), offset);
            if env.features.exceptions && depth < s.control.len() && (target(s, depth).kind
                == FrameKind::Catch || target(s, depth).kind == FrameKind::CatchAll) {
                leaves(s, out, seq![]) && out.1 is Ok
            } else {
                out.1 is Err
            }
        }),
{
    lemma_leaves(s, seq![], offset);
}

/// A `catch` closes the part of a `try` before it, which is not a `catch_all`, and starts with what
/// the exception carries; a `catch_all` starts with nothing.
pub proof fn law_catch(s: OpsView, env: EnvView, tag: u32, offset: int)
    requires
        ready(s),
        named(env, s.control[s.control.len() - 1].block_type),
    ensures
        ({
            let frame = s.control[s.control.len() - 1];
            let open = {
                &&& env.features.exceptions
                &&& can_close(s, env)
                &&& frame.kind == FrameKind::Try || frame.kind == FrameKind::Catch
            };
            let one = does(s, env, Op::Catch(tag), offset);
            let all = does(s, env, Op::CatchAll, offset);
            let below = s.operands.take(base(s));
            &&& one.1 is Ok <==> open && tag < env.module.tags.len()
            &&& one.1 is Ok ==> one.0 == (OpsView {
                operands: with(below, carries(env, tag)),
                control: s.control.drop_last().push(
                    Frame { kind: FrameKind::Catch, unreachable: false, ..frame },
                ),
                ..s
            })
            &&& all.1 is Ok <==> open
            &&& all.1 is Ok ==> all.0 == (OpsView {
                operands: below,
                control: s.control.drop_last().push(
                    Frame { kind: FrameKind::CatchAll, unreachable: false, ..frame },
                ),
                ..s
            })
        }),
{
    lemma_pop_ctrl(s, env, offset);
    lemma_with(s.operands.take(base(s)), carries(env, tag));
}

/// A `delegate` closes a `try` that has caught nothing and hands exceptions on to an open block.
pub proof fn law_delegate(s: OpsView, env: EnvView, depth: u32, offset: int)
    requires
        ready(s),
        named(env, s.control[s.control.len() - 1].block_type),
    ensures
        ({
            let frame = s.control[s.control.len() - 1];
            let out = does(s, env, Op::Delegate(depth), offset);
            &&& out.1 is Ok <==> {
                &&& env.features.exceptions
                &&& can_close(s, env)
                &&& frame.kind == FrameKind::Try
                &&& depth < s.control.len() - 1
            }
            &&& out.1 is Ok ==> out.0 == (OpsView {
                operands: with(s.operands.take(base(s)), gives_of(env, frame.block_type)),
                control: s.control.drop_last(),
                ..s
            })
        }),
{
    lemma_pop_ctrl(s, env, offset);
    lemma_with(
        s.operands.take(base(s)),
        gives_of(env, s.control[s.control.len() - 1].block_type),
    );
}

/// Behind the end of the function there is nothing.
pub proof fn law_nothing_behind_the_end(
    s: OpsView,
    env: EnvView,
    op: OperatorView,
    offset: int,
)
    requires
        s.control.len() == 0,
    ensures
        s.op(env, op, offset).0 == s,
        s.op(env, op, offset).1 is Err,
{
}

} // verus!
