//! What it means that a whole function body, or a whole binary, is valid.

use super::features::WasmFeatures;
use super::func::FuncView;
use super::module::ModuleView;
use super::operators::{Frame, FrameKind};
use super::type_info::TypesView;
use super::{check_functions, ValidPayloadView, ValidatorView};
use crate::parser::{ParseView, Parser};
use crate::parser_laws::{accounted, expected, law_no_byte_passed_over, law_progress};
use crate::reader::binary_reader::Cursor;
use crate::reader::operators::{parse_operator, BlockType};
use crate::reader::types::{FromReader, Type};
use vstd::prelude::*;

verus! {

/// A body starts with the parameters of its function as locals, with nothing on the stack, and in
/// one block, which gives what the function gives.
pub proof fn law_body_start(ty: u32, offset: int, module: ModuleView, features: WasmFeatures)
    requires
        module.snapshot is Some,
    ensures
        FuncView::start(ty, offset, module, features) is Ok <==> ty < module.types.len(),
        FuncView::start(ty, offset, module, features) matches Ok(f) ==> {
            let func = module.snapshot->0[module.types[ty as int] as int]->Func_0;
            &&& f.ops.locals == func.params
            &&& f.ops.operands.len() == 0
            &&& f.ops.control == seq![
                Frame {
                    kind: FrameKind::Block,
                    block_type: BlockType::FuncType(ty),
                    height: 0,
                    unreachable: false,
                },
            ]
            &&& f.module == module
            &&& f.features == features
        },
{
}

/// Locals that are declared come behind those that there are, so many of them and of their type;
/// the type has to be enabled, and there are at most 50000 of them.
pub proof fn law_declared_locals(f: FuncView, offset: int, count: u32, ty: Type)
    ensures
        ({
            let (g, result) = f.define_locals(offset, count, ty);
            let before = f.ops.locals;
            &&& result is Ok <==> {
                &&& before.len() + count <= 50000
                &&& ty == Type::V128 ==> f.features.simd
                &&& ty == Type::FuncRef || ty == Type::ExternRef ==> f.features.reference_types
            }
            &&& result is Ok ==> {
                &&& g.ops.locals.len() == before.len() + count
                &&& forall|i: int|
                    0 <= i < g.ops.locals.len() ==> #[trigger] g.ops.locals[i] == (if i
                        < before.len() {
                        before[i]
                    } else {
                        ty
                    })
                &&& g.ops.operands == f.ops.operands && g.ops.control == f.ops.control
                &&& g.module == f.module && g.features == f.features
            }
        }),
{
}

/// The declarations of locals are taken one after the other: each is a number and a type, and each
/// is accepted.
pub proof fn law_each_declaration(f: FuncView, c: Cursor, n: nat)
    requires
        n > 0,
        f.declarations(c, n).2 is Ok,
    ensures
        c.var_u32().1 is Ok,
        <Type as FromReader>::parse(c.var_u32().0).1 is Ok,
        ({
            let count = c.var_u32().1->Ok_0;
            let (d, ty) = <Type as FromReader>::parse(c.var_u32().0);
            let (g, result) = f.define_locals(c.offset(), count, ty->Ok_0);
            &&& result is Ok
            &&& f.declarations(c, n) == g.declarations(d, (n - 1) as nat)
        }),
{
}

/// Where a body that is valid goes on, an operator stands there, it is accepted, and the body goes
/// on behind it and is valid from there.
pub proof fn law_each_operator(f: FuncView, c: Cursor)
    requires
        c.wf(),
        c.left() > 0,
        f.operators(c).1 is Ok,
    ensures
        parse_operator(c, f.features.memory64).1 is Ok,
        ({
            let (d, op) = parse_operator(c, f.features.memory64);
            let (g, result) = f.op(c.offset(), op->Ok_0);
            &&& d.bytes == c.bytes && d.pos > c.pos
            &&& result is Ok
            &&& g.operators(d).1 is Ok
            &&& f.operators(c).0 == g.operators(d).0
        }),
{
}

/// A body that is valid ends with its function: no block is open any more, and not before.
pub proof fn law_body_ends(f: FuncView, c: Cursor)
    requires
        c.wf(),
        f.operators(c).1 is Ok,
    ensures
        f.operators(c).0.ops.control.len() == 0,
        f.ops.control.len() == 0 <==> c.left() == 0,
    decreases c.left(),
{
    if c.left() > 0 {
        law_each_operator(f, c);
        let (d, op) = parse_operator(c, f.features.memory64);
        let g = f.op(c.offset(), op->Ok_0).0;
        law_body_ends(g, d);
    }
}

/// A body is its declarations of locals and then its operators; both have to be valid.
pub proof fn law_body(f: FuncView, c: Cursor)
    ensures
        f.validate(c).1 is Ok <==> {
            &&& f.read_locals(c).2 is Ok
            &&& f.read_locals(c).0.operators(f.read_locals(c).1).1 is Ok
        },
        f.read_locals(c).2 is Ok ==> c.var_u32().1 is Ok && f.read_locals(c) == f.declarations(
            c.var_u32().0,
            c.var_u32().1->Ok_0 as nat,
        ),
{
}

/// Where a validator and the parts of a binary are when the first `n` parts have been passed to
/// the validator, if all of them were accepted.
pub open spec fn after(v: ValidatorView, parts: ParseView, n: nat) -> Option<
    (ValidatorView, ParseView),
>
    decreases n,
{
    if n == 0 {
        Some((v, parts))
    } else {
        match parts.step() {
            (rest, Some(Ok(part))) => match v.payload(part) {
                (w, Ok(_)) => after(w, rest, (n - 1) as nat),
                _ => None,
            },
            _ => None,
        }
    }
}

proof fn lemma_bodies(functions: Seq<(FuncView, Cursor)>, i: int, k: int)
    requires
        0 <= i <= k < functions.len(),
        check_functions(functions, i) is Ok,
    ensures
        functions[k].0.validate(functions[k].1).1 is Ok,
    decreases k - i,
{
    if i < k {
        lemma_bodies(functions, i + 1, k);
    }
}

proof fn lemma_all_bodies(functions: Seq<(FuncView, Cursor)>, i: int)
    requires
        0 <= i,
        forall|k: int|
            i <= k < functions.len() ==> (#[trigger] functions[k]).0.validate(functions[k].1).1 is Ok,
    ensures
        check_functions(functions, i) is Ok,
    decreases functions.len() - i,
{
    if i < functions.len() {
        assert(functions[i].0.validate(functions[i].1).1 is Ok);
        lemma_all_bodies(functions, i + 1);
    }
}

proof fn lemma_waiting(
    v: ValidatorView,
    parts: ParseView,
    functions: Seq<(FuncView, Cursor)>,
    last: Option<TypesView>,
    k: int,
)
    requires
        v.run(parts, functions, last).1 is Ok,
        0 <= k < functions.len(),
    ensures
        functions[k].0.validate(functions[k].1).1 is Ok,
    decreases parts.left(),
{
    match parts.step() {
        (_, None) => {
            lemma_bodies(functions, 0, k);
        },
        (rest, Some(Ok(part))) => {
            if let (w, Ok(valid)) = v.payload(part) {
                let more = match valid {
                    ValidPayloadView::Func(func, body) => functions.push((func, body)),
                    _ => functions,
                };
                let types = match valid {
                    ValidPayloadView::End(types) => Some(types),
                    _ => last,
                };
                lemma_waiting(w, rest, more, types, k);
                assert(more[k] == functions[k]);
            }
        },
        _ => {},
    }
}

proof fn lemma_part(
    v: ValidatorView,
    parts: ParseView,
    functions: Seq<(FuncView, Cursor)>,
    last: Option<TypesView>,
    n: nat,
)
    requires
        v.run(parts, functions, last).1 is Ok,
    ensures
        after(v, parts, n) matches Some((x, p)) ==> {
            p.step().1 matches Some(result) ==> {
                &&& result is Ok
                &&& x.payload(result->Ok_0).1 is Ok
                &&& x.payload(result->Ok_0).1->Ok_0 matches ValidPayloadView::Func(func, body)
                    ==> func.validate(body).1 is Ok
            }
        },
    decreases n,
{
    if let (rest, Some(Ok(part))) = parts.step() {
        if let (w, Ok(valid)) = v.payload(part) {
            let more = match valid {
                ValidPayloadView::Func(func, body) => functions.push((func, body)),
                _ => functions,
            };
            let types = match valid {
                ValidPayloadView::End(types) => Some(types),
                _ => last,
            };
            if n > 0 {
                lemma_part(w, rest, more, types, (n - 1) as nat);
            } else if valid is Func {
                lemma_waiting(w, rest, more, types, functions.len() as int);
                assert(more[functions.len() as int] == (valid->Func_0, valid->Func_1));
            }
        }
    }
}

/// In a binary that is valid every part can be read and is accepted, however many there are, and
/// every function body among the parts is valid for the validator that was handed out for it.
pub proof fn law_every_part_and_body(v: ValidatorView, bytes: Seq<u8>, n: nat)
    requires
        v.validate_all(bytes).1 is Ok,
    ensures
        after(v, ParseView::start(Parser::start(0, u64::MAX), bytes), n) matches Some((x, p)) ==> {
            p.step().1 matches Some(result) ==> {
                &&& result is Ok
                &&& x.payload(result->Ok_0).1 is Ok
                &&& x.payload(result->Ok_0).1->Ok_0 matches ValidPayloadView::Func(func, body)
                    ==> func.validate(body).1 is Ok
            }
        },
{
    lemma_part(
        v,
        ParseView::start(Parser::start(0, u64::MAX), bytes),
        Seq::empty(),
        None,
        n,
    );
}

proof fn lemma_ends(
    v: ValidatorView,
    parts: ParseView,
    functions: Seq<(FuncView, Cursor)>,
    last: Option<TypesView>,
)
    requires
        v.run(parts, functions, last).1 is Ok,
    ensures
        exists|n: nat|
            (#[trigger] after(v, parts, n)) matches Some((x, p)) && p.step().1 is None && x == v.run(
                parts,
                functions,
                last,
            ).0,
    decreases parts.left(),
{
    match parts.step() {
        (_, None) => {
            assert(after(v, parts, 0) is Some);
        },
        (rest, Some(Ok(part))) => {
            if let (w, Ok(valid)) = v.payload(part) {
                let more = match valid {
                    ValidPayloadView::Func(func, body) => functions.push((func, body)),
                    _ => functions,
                };
                let types = match valid {
                    ValidPayloadView::End(types) => Some(types),
                    _ => last,
                };
                lemma_ends(w, rest, more, types);
                let n = choose|n: nat|
                    (#[trigger] after(w, rest, n)) matches Some((x, p)) && p.step().1 is None && x
                        == w.run(rest, more, types).0;
                assert(after(v, parts, n + 1) == after(w, rest, n));
            }
        },
        _ => {},
    }
}

/// A binary that is valid is gone through to its end: after some number of parts nothing more comes,
/// and what the validator then is it stays.
pub proof fn law_valid_to_the_end(v: ValidatorView, bytes: Seq<u8>)
    requires
        v.validate_all(bytes).1 is Ok,
    ensures
        exists|n: nat|
            (#[trigger] after(v, ParseView::start(Parser::start(0, u64::MAX), bytes), n)) matches Some(
                (x, p),
            ) && p.step().1 is None && x == v.validate_all(bytes).0,
{
    lemma_ends(v, ParseView::start(Parser::start(0, u64::MAX), bytes), Seq::empty(), None);
}

/// Every function body among the first `n` parts is valid for the validator that was handed out for
/// it.
pub open spec fn bodies_valid(v: ValidatorView, parts: ParseView, n: nat) -> bool {
    forall|k: nat|
        k < n ==> (#[trigger] after(v, parts, k) matches Some((x, p)) ==> body_valid(x, p))
}

/// If a function body comes next, it is valid for the validator that is handed out for it.
pub open spec fn body_valid(x: ValidatorView, p: ParseView) -> bool {
    p.step().1 matches Some(Ok(part)) ==> (x.payload(part).1 matches Ok(
        ValidPayloadView::Func(func, body),
    ) ==> func.validate(body).1 is Ok)
}

proof fn lemma_accepted(
    v: ValidatorView,
    parts: ParseView,
    functions: Seq<(FuncView, Cursor)>,
    last: Option<TypesView>,
    n: nat,
)
    requires
        parts.wf(),
        after(v, parts, n) matches Some((x, p)) && p.step().1 is None,
        bodies_valid(v, parts, n),
        forall|k: int|
            0 <= k < functions.len() ==> (#[trigger] functions[k]).0.validate(functions[k].1).1 is Ok,
    ensures
        v.run(parts, functions, last).1 is Ok,
    decreases n,
{
    if n == 0 {
        lemma_all_bodies(functions, 0);
    } else {
        let (rest, part) = (parts.step().0, parts.step().1->0->Ok_0);
        let (w, valid) = (v.payload(part).0, v.payload(part).1->Ok_0);
        law_progress(parts);
        let more = match valid {
            ValidPayloadView::Func(func, body) => functions.push((func, body)),
            _ => functions,
        };
        let types = match valid {
            ValidPayloadView::End(types) => Some(types),
            _ => last,
        };
        assert(after(v, parts, 0) == Some((v, parts)));
        assert(body_valid(v, parts));
        assert forall|k: nat| k < (n - 1) as nat implies (#[trigger] after(w, rest, k) matches Some(
            (x, p),
        ) ==> body_valid(x, p)) by {
            assert(after(v, parts, k + 1) == after(w, rest, k));
        }
        assert forall|k: int| 0 <= k < more.len() implies (#[trigger] more[k]).0.validate(
            more[k].1,
        ).1 is Ok by {
            if k < functions.len() {
                assert(more[k] == functions[k]);
            }
        }
        lemma_accepted(w, rest, more, types, (n - 1) as nat);
    }
}

/// A binary is valid if all its parts, up to where nothing more comes, can be read and are accepted,
/// and every function body among them is valid.
pub proof fn law_accepted(v: ValidatorView, bytes: Seq<u8>, n: nat)
    requires
        bytes.len() <= usize::MAX,
        ({
            let parts = ParseView::start(Parser::start(0, u64::MAX), bytes);
            &&& after(v, parts, n) matches Some((x, p)) && p.step().1 is None
            &&& bodies_valid(v, parts, n)
        }),
    ensures
        v.validate_all(bytes).1 is Ok,
{
    let parts = ParseView::start(Parser::start(0, u64::MAX), bytes);
    lemma_accepted(v, parts, Seq::empty(), None, n);
}

proof fn lemma_last_end(
    v: ValidatorView,
    parts: ParseView,
    functions: Seq<(FuncView, Cursor)>,
    last: Option<TypesView>,
)
    requires
        v.run(parts, functions, last).1 is Ok,
        !parts.done,
    ensures
        exists|n: nat| #[trigger]
            ends_after(v, parts, n, v.run(parts, functions, last).1->Ok_0),
    decreases parts.left(),
{
    if let (rest, Some(Ok(part))) = parts.step() {
        if let (w, Ok(valid)) = v.payload(part) {
            let more = match valid {
                ValidPayloadView::Func(func, body) => functions.push((func, body)),
                _ => functions,
            };
            let types = match valid {
                ValidPayloadView::End(types) => Some(types),
                _ => last,
            };
            if rest.done {
                assert(after(v, parts, 0) == Some((v, parts)));
                assert(ends_after(v, parts, 0, v.run(parts, functions, last).1->Ok_0));
            } else {
                lemma_last_end(w, rest, more, types);
                let given = w.run(rest, more, types).1->Ok_0;
                let n = choose|n: nat| #[trigger] ends_after(w, rest, n, given);
                assert(after(v, parts, n + 1) == after(w, rest, n));
                assert(ends_after(v, parts, n + 1, given));
            }
        }
    }
}

/// The last part is the end of the outermost module or component, where `types` are given.
pub open spec fn ends_with(x: ValidatorView, p: ParseView, types: TypesView) -> bool {
    &&& p.step().0.done
    &&& p.step().1 matches Some(Ok(part))
    &&& part is End
    &&& x.payload(part).1 matches Ok(ValidPayloadView::End(given))
    &&& given == types
}

/// The part behind the first `n` is the last.
pub open spec fn ends_after(v: ValidatorView, parts: ParseView, n: nat, types: TypesView) -> bool {
    after(v, parts, n) matches Some((x, p)) && ends_with(x, p, types)
}

/// The types that are given for a binary that is valid are those that the end of the outermost module
/// or component gives.
pub proof fn law_types_given(v: ValidatorView, bytes: Seq<u8>)
    requires
        v.validate_all(bytes).1 is Ok,
    ensures
        ({
            let parts = ParseView::start(Parser::start(0, u64::MAX), bytes);
            exists|n: nat| #[trigger]
                ends_after(v, parts, n, v.validate_all(bytes).1->Ok_0)
        }),
{
    let parts = ParseView::start(Parser::start(0, u64::MAX), bytes);
    lemma_last_end(v, parts, Seq::empty(), None);
}

proof fn lemma_all_read(v: ValidatorView, parts: ParseView, total: int, n: nat)
    requires
        parts.wf(),
        accounted(parts, total),
        total >= parts.bytes.len(),
    ensures
        after(v, parts, n) matches Some((x, p)) ==> {
            &&& p.bytes == parts.bytes
            &&& p.step().1 is None ==> p.pos == p.bytes.len()
        },
    decreases n,
{
    if n == 0 {
        law_progress(parts);
    } else if let (rest, Some(Ok(part))) = parts.step() {
        if let (w, Ok(_)) = v.payload(part) {
            law_progress(parts);
            law_no_byte_passed_over(parts, total);
            lemma_all_read(w, rest, total, (n - 1) as nat);
        }
    }
}

/// Of a binary whose parts have all come every byte has been read.
pub proof fn law_every_byte_is_read(v: ValidatorView, bytes: Seq<u8>, n: nat)
    requires
        bytes.len() <= usize::MAX,
        bytes.len() <= u64::MAX,
    ensures
        after(v, ParseView::start(Parser::start(0, u64::MAX), bytes), n) matches Some((x, p)) ==> {
            &&& p.bytes == bytes
            &&& p.step().1 is None ==> p.pos == bytes.len()
        },
{
    let parts = ParseView::start(Parser::start(0, u64::MAX), bytes);
    let open = parts.stack.push(parts.current);
    assert(open.drop_last() =~= Seq::<Parser>::empty());
    assert(expected(open.drop_last()) == 0);
    assert(expected(open) == u64::MAX);
    lemma_all_read(v, parts, u64::MAX as int, n);
}

} // verus!
