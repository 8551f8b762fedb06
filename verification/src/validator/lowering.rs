//! The core values that stand for values of interface types.

use super::subtypes::use_rank;
use super::types::{
    types_ok, uses_ok, DefinedTypeView, FuncDef, FuncDefView, InterfaceDef, InterfaceDefView,
    TypeList, TypeUse,
};
use crate::reader::component::types::PrimitiveInterfaceType;
use crate::reader::types::{FuncType, FuncTypeView, Type};
use vstd::prelude::*;

verus! {

/// How many core values the parameters of a function can be without going through
/// memory.
pub const MAX_FLAT_FUNC_PARAMS: usize = 16;

/// How many core values the result of a function can be without going through
/// memory.
pub const MAX_FLAT_FUNC_RESULTS: usize = 1;

/// The core values that stand for a value of a primitive type.
pub open spec fn flat_primitive(ty: PrimitiveInterfaceType) -> Seq<Type> {
    match ty {
        PrimitiveInterfaceType::Unit => Seq::empty(),
        PrimitiveInterfaceType::S64 => seq![Type::I64],
        PrimitiveInterfaceType::U64 => seq![Type::I64],
        PrimitiveInterfaceType::Float32 => seq![Type::F32],
        PrimitiveInterfaceType::Float64 => seq![Type::F64],
        PrimitiveInterfaceType::String => seq![Type::I32, Type::I32],
        _ => seq![Type::I32],
    }
}

/// A core type that holds what either of two types holds.
pub open spec fn join(a: Type, b: Type) -> Type {
    if a == b {
        a
    } else if (a == Type::I32 && b == Type::F32) || (a == Type::F32 && b == Type::I32) {
        Type::I32
    } else {
        Type::I64
    }
}

/// Core types that hold what either of two lists holds.
pub open spec fn join_two(a: Seq<Type>, b: Seq<Type>) -> Seq<Type> {
    Seq::new(
        if a.len() < b.len() {
            b.len()
        } else {
            a.len()
        },
        |i: int|
            if i < a.len() && i < b.len() {
                join(a[i], b[i])
            } else if i < a.len() {
                a[i]
            } else {
                b[i]
            },
    )
}

/// The types that an interface type is made of.
pub open spec fn parts(ty: InterfaceDefView) -> Seq<TypeUse> {
    match ty {
        InterfaceDefView::Record(fields) => Seq::new(fields.len(), |i: int| fields[i].1),
        InterfaceDefView::Variant(cases) => Seq::new(cases.len(), |i: int| cases[i].1.ty),
        InterfaceDefView::Tuple(parts) => parts,
        InterfaceDefView::Union(parts) => parts,
        InterfaceDefView::Option(ty) => seq![ty],
        InterfaceDefView::Expected { ok, error } => seq![ok, error],
        _ => Seq::empty(),
    }
}

/// The core values that stand for a value of a type.
pub open spec fn flat(types: Seq<DefinedTypeView>, ty: TypeUse) -> Seq<Type>
    decreases use_rank(ty), 2int, 0nat,
    when types_ok(types) && ty.ok(types)
{
    match ty {
        TypeUse::Primitive(ty) => flat_primitive(ty),
        TypeUse::Type(place) => flat_interface(types, place),
    }
}

/// The core values that stand for a value of the interface type at a place: for
/// one of many cases, which case it is, and then what any case carries.
pub open spec fn flat_interface(types: Seq<DefinedTypeView>, place: usize) -> Seq<Type>
    decreases place + 1, 1int, 0nat,
    when types_ok(types) && TypeUse::Type(place).ok(types)
{
    let ty = types[place as int]->Interface_0;
    match ty {
        InterfaceDefView::Primitive(ty) => flat_primitive(ty),
        InterfaceDefView::Record(_) | InterfaceDefView::Tuple(_) => flat_parts(
            types,
            place,
            parts(ty).len(),
        ),
        InterfaceDefView::Variant(_) | InterfaceDefView::Union(_) | InterfaceDefView::Option(_)
        | InterfaceDefView::Expected { .. } => seq![Type::I32] + join_parts(
            types,
            place,
            parts(ty).len(),
        ),
        InterfaceDefView::List(_) => seq![Type::I32, Type::I32],
        InterfaceDefView::Flags(names) => Seq::new(
            ((names.len() + 31) / 32) as nat,
            |i: int| Type::I32,
        ),
        InterfaceDefView::Enum(_) => seq![Type::I32],
    }
}

/// The core values that stand for values of the first `n` of the types that the
/// interface type at a place is made of, one behind the other.
pub open spec fn flat_parts(types: Seq<DefinedTypeView>, place: usize, n: nat) -> Seq<Type>
    decreases place + 1, 0int, n,
    when types_ok(types) && TypeUse::Type(place).ok(types) && n <= parts(
        types[place as int]->Interface_0,
    ).len()
{
    if n == 0 {
        Seq::empty()
    } else {
        proof {
            lemma_part(types, place, n - 1);
        }
        flat_parts(types, place, (n - 1) as nat) + flat(
            types,
            parts(types[place as int]->Interface_0)[n - 1],
        )
    }
}

/// The core values that stand for a value of any of the first `n` of the types
/// that the interface type at a place is made of.
pub open spec fn join_parts(types: Seq<DefinedTypeView>, place: usize, n: nat) -> Seq<Type>
    decreases place + 1, 0int, n,
    when types_ok(types) && TypeUse::Type(place).ok(types) && n <= parts(
        types[place as int]->Interface_0,
    ).len()
{
    if n == 0 {
        Seq::empty()
    } else {
        proof {
            lemma_part(types, place, n - 1);
        }
        join_two(
            join_parts(types, place, (n - 1) as nat),
            flat(types, parts(types[place as int]->Interface_0)[n - 1]),
        )
    }
}

/// A type that an interface type is made of stands in front of it.
pub proof fn lemma_part(types: Seq<DefinedTypeView>, place: usize, i: int)
    requires
        types_ok(types),
        TypeUse::Type(place).ok(types),
        0 <= i < parts(types[place as int]->Interface_0).len(),
    ensures
        parts(types[place as int]->Interface_0)[i].ok(types),
        use_rank(parts(types[place as int]->Interface_0)[i]) <= place,
{
    let ty = types[place as int]->Interface_0;
    assert(types[place as int].ok(types.take(place as int)));
    assert(ty.ok(types.take(place as int)));
    match ty {
        InterfaceDefView::Record(fields) => {
            assert(fields[i].1.ok(types.take(place as int)));
        },
        InterfaceDefView::Variant(cases) => {
            assert(cases[i].1.ty.ok(types.take(place as int)));
        },
        InterfaceDefView::Tuple(list) => {
            assert(list[i].ok(types.take(place as int)));
        },
        InterfaceDefView::Union(list) => {
            assert(list[i].ok(types.take(place as int)));
        },
        _ => {},
    }
}

/// The core values that stand for values of some types, one behind the other.
pub open spec fn flat_all(types: Seq<DefinedTypeView>, uses: Seq<TypeUse>) -> Seq<Type>
    decreases uses.len(),
{
    if uses.len() == 0 {
        Seq::empty()
    } else {
        flat_all(types, uses.drop_last()) + flat(types, uses.last())
    }
}

/// The core values that stand for a value of any of some types.
pub open spec fn join_any(types: Seq<DefinedTypeView>, uses: Seq<TypeUse>) -> Seq<Type>
    decreases uses.len(),
{
    if uses.len() == 0 {
        Seq::empty()
    } else {
        join_two(join_any(types, uses.drop_last()), flat(types, uses.last()))
    }
}

/// What stands for the first parts of a type is what stands for these types.
pub proof fn lemma_parts(types: Seq<DefinedTypeView>, place: usize, n: nat)
    requires
        types_ok(types),
        TypeUse::Type(place).ok(types),
        n <= parts(types[place as int]->Interface_0).len(),
    ensures
        flat_parts(types, place, n) == flat_all(
            types,
            parts(types[place as int]->Interface_0).take(n as int),
        ),
        join_parts(types, place, n) == join_any(
            types,
            parts(types[place as int]->Interface_0).take(n as int),
        ),
    decreases n,
{
    if n > 0 {
        let list = parts(types[place as int]->Interface_0);
        assert(list.take(n as int).drop_last() =~= list.take(n - 1));
        lemma_parts(types, place, (n - 1) as nat);
    }
}

/// The types of the parameters of a component function.
pub open spec fn param_types(func: FuncDefView) -> Seq<TypeUse> {
    Seq::new(func.params.len(), |i: int| func.params[i].ty)
}

/// The core parameters of a component function: one pointer, if they are too many.
pub open spec fn core_params(types: Seq<DefinedTypeView>, func: FuncDefView) -> Seq<Type> {
    let params = flat_all(types, param_types(func));
    if params.len() <= MAX_FLAT_FUNC_PARAMS {
        params
    } else {
        seq![Type::I32]
    }
}

/// The type of the core function that a component function can be made from: it
/// gives a pointer, if its results are too many.
pub open spec fn lifted_type(types: Seq<DefinedTypeView>, func: FuncDefView) -> FuncTypeView {
    let results = flat(types, func.result);
    FuncTypeView {
        params: core_params(types, func),
        returns: if results.len() <= MAX_FLAT_FUNC_RESULTS {
            results
        } else {
            seq![Type::I32]
        },
    }
}

/// The type of the core function that can be made from a component function: it
/// is given a pointer for its results, if they are too many.
pub open spec fn lowered_type(types: Seq<DefinedTypeView>, func: FuncDefView) -> FuncTypeView {
    let results = flat(types, func.result);
    if results.len() <= MAX_FLAT_FUNC_RESULTS {
        FuncTypeView { params: core_params(types, func), returns: results }
    } else {
        FuncTypeView { params: core_params(types, func).push(Type::I32), returns: Seq::empty() }
    }
}

proof fn lemma_longer(types: Seq<DefinedTypeView>, uses: Seq<TypeUse>, i: int)
    requires
        0 <= i <= uses.len(),
    ensures
        flat_all(types, uses.take(i)).len() <= flat_all(types, uses).len(),
        join_any(types, uses.take(i)).len() <= join_any(types, uses).len(),
    decreases uses.len() - i,
{
    if i == uses.len() {
        assert(uses.take(i) =~= uses);
    } else {
        assert(uses.take(i + 1).drop_last() =~= uses.take(i));
        lemma_longer(types, uses, i + 1);
    }
}

/// The list that `result` is, if it has at most `max` elements.
pub open spec fn at_most(max: usize, result: Option<Vec<Type>>, list: Seq<Type>) -> bool {
    match result {
        Some(types) => types@ == list && list.len() <= max,
        None => list.len() > max,
    }
}

fn lower_primitive(ty: PrimitiveInterfaceType) -> (types: Vec<Type>)
    ensures
        types@ == flat_primitive(ty),
{
    let types = match ty {
        PrimitiveInterfaceType::Unit => Vec::new(),
        PrimitiveInterfaceType::S64 | PrimitiveInterfaceType::U64 => vec![Type::I64],
        PrimitiveInterfaceType::Float32 => vec![Type::F32],
        PrimitiveInterfaceType::Float64 => vec![Type::F64],
        PrimitiveInterfaceType::String => vec![Type::I32, Type::I32],
        _ => vec![Type::I32],
    };
    assert(types@ =~= flat_primitive(ty));
    types
}

fn limited(types: Vec<Type>, max: usize) -> (result: Option<Vec<Type>>)
    ensures
        at_most(max, result, types@),
{
    if types.len() <= max {
        Some(types)
    } else {
        None
    }
}

/// The core values that stand for a value of a type, if they are at most `max`.
pub fn lower_use(types: &TypeList, ty: TypeUse, max: usize) -> (result: Option<Vec<Type>>)
    requires
        types_ok(types@),
        ty.ok(types@),
    ensures
        at_most(max, result, flat(types@, ty)),
    decreases use_rank(ty), 2int,
{
    match ty {
        TypeUse::Primitive(ty) => limited(lower_primitive(ty), max),
        TypeUse::Type(place) => lower_interface(types, place, max),
    }
}

/// The core values that stand for values of all of some types, if they are at
/// most `max`.
fn lower_all(types: &TypeList, uses: &Vec<TypeUse>, max: usize, Ghost(rank): Ghost<nat>) -> (result:
    Option<Vec<Type>>)
    requires
        types_ok(types@),
        uses_ok(uses@, types@),
        forall|i: int| 0 <= i < uses@.len() ==> use_rank(#[trigger] uses@[i]) < rank,
    ensures
        at_most(max, result, flat_all(types@, uses@)),
    decreases rank, 0int,
{
    let mut all: Vec<Type> = Vec::new();
    let mut i: usize = 0;
    assert(flat_all(types@, uses@.take(0)) =~= all@);
    while i < uses.len()
        invariant
            i <= uses@.len(),
            types_ok(types@),
            uses_ok(uses@, types@),
            forall|i: int| 0 <= i < uses@.len() ==> use_rank(#[trigger] uses@[i]) < rank,
            all@ == flat_all(types@, uses@.take(i as int)),
            all@.len() <= max,
        decreases uses@.len() - i,
    {
        assert(use_rank(uses@[i as int]) < rank);
        assert(uses@.take(i + 1).drop_last() =~= uses@.take(i as int));
        proof {
            lemma_longer(types@, uses@, i + 1);
        }
        match lower_use(types, uses[i], max - all.len()) {
            Some(mut list) => all.append(&mut list),
            None => {
                return None;
            },
        }
        i = i + 1;
    }
    assert(uses@.take(i as int) =~= uses@);
    Some(all)
}

fn join_types(a: Type, b: Type) -> (ty: Type)
    ensures
        ty == join(a, b),
{
    if a == b {
        a
    } else if (a == Type::I32 && b == Type::F32) || (a == Type::F32 && b == Type::I32) {
        Type::I32
    } else {
        Type::I64
    }
}

fn join_lists(a: &mut Vec<Type>, b: &Vec<Type>)
    ensures
        final(a)@ == join_two(old(a)@, b@),
{
    let mut i: usize = 0;
    while i < b.len()
        invariant
            i <= b@.len(),
            a@ == join_two(old(a)@, b@.take(i as int)),
        decreases b@.len() - i,
    {
        if i < a.len() {
            let ty = join_types(a[i], b[i]);
            a.set(i, ty);
        } else {
            a.push(b[i]);
        }
        i = i + 1;
        assert(a@ =~= join_two(old(a)@, b@.take(i as int)));
    }
    assert(b@.take(i as int) =~= b@);
}

/// The core values that stand for a value of one of some types, and for which
/// one it is, if they are at most `max`.
fn lower_any(types: &TypeList, uses: &Vec<TypeUse>, max: usize, Ghost(rank): Ghost<nat>) -> (result:
    Option<Vec<Type>>)
    requires
        types_ok(types@),
        uses_ok(uses@, types@),
        forall|i: int| 0 <= i < uses@.len() ==> use_rank(#[trigger] uses@[i]) < rank,
    ensures
        at_most(max, result, seq![Type::I32] + join_any(types@, uses@)),
    decreases rank, 0int,
{
    if max == 0 {
        return None;
    }
    let mut joined: Vec<Type> = Vec::new();
    let mut i: usize = 0;
    assert(join_any(types@, uses@.take(0)) =~= joined@);
    while i < uses.len()
        invariant
            i <= uses@.len(),
            types_ok(types@),
            uses_ok(uses@, types@),
            forall|i: int| 0 <= i < uses@.len() ==> use_rank(#[trigger] uses@[i]) < rank,
            joined@ == join_any(types@, uses@.take(i as int)),
            max > 0,
            joined@.len() <= max - 1,
        decreases uses@.len() - i,
    {
        assert(use_rank(uses@[i as int]) < rank);
        assert(uses@.take(i + 1).drop_last() =~= uses@.take(i as int));
        proof {
            lemma_longer(types@, uses@, i + 1);
        }
        match lower_use(types, uses[i], max - 1) {
            Some(list) => join_lists(&mut joined, &list),
            None => {
                return None;
            },
        }
        i = i + 1;
    }
    assert(uses@.take(i as int) =~= uses@);
    let mut all = vec![Type::I32];
    all.append(&mut joined);
    assert(all@ =~= seq![Type::I32] + join_any(types@, uses@));
    Some(all)
}

fn parts_of(ty: &InterfaceDef) -> (uses: Vec<TypeUse>)
    ensures
        uses@ == parts(ty@),
{
    let mut uses: Vec<TypeUse> = Vec::new();
    let mut i: usize = 0;
    match ty {
        InterfaceDef::Record(fields) => {
            while i < fields.len()
                invariant
                    i <= fields@.len(),
                    uses@ == parts(InterfaceDefView::Record(fields@)).take(i as int),
                decreases fields@.len() - i,
            {
                uses.push(fields.entry(i).value);
                i = i + 1;
            }
        },
        InterfaceDef::Variant(cases) => {
            while i < cases.len()
                invariant
                    i <= cases@.len(),
                    uses@ == parts(InterfaceDefView::Variant(cases@)).take(i as int),
                decreases cases@.len() - i,
            {
                uses.push(cases.entry(i).value.ty);
                i = i + 1;
            }
        },
        InterfaceDef::Tuple(list) | InterfaceDef::Union(list) => {
            while i < list.len()
                invariant
                    i <= list@.len(),
                    uses@ == list@.take(i as int),
                decreases list@.len() - i,
            {
                uses.push(list[i]);
                i = i + 1;
            }
        },
        InterfaceDef::Option(ty) => uses.push(*ty),
        InterfaceDef::Expected { ok, error } => {
            uses.push(*ok);
            uses.push(*error);
        },
        _ => {},
    }
    assert(uses@ =~= parts(ty@));
    uses
}

fn lower_interface(types: &TypeList, place: usize, max: usize) -> (result: Option<Vec<Type>>)
    requires
        types_ok(types@),
        TypeUse::Type(place).ok(types@),
    ensures
        at_most(max, result, flat_interface(types@, place)),
    decreases place + 1, 1int,
{
    let ghost whole = flat_interface(types@, place);
    let ghost rank = (place + 1) as nat;
    let ty = types.interface(place);
    let uses = parts_of(ty);
    assert forall|i: int| 0 <= i < uses@.len() implies use_rank(#[trigger] uses@[i]) < rank
        && uses@[i].ok(types@) by {
        lemma_part(types@, place, i);
    }
    proof {
        lemma_parts(types@, place, uses@.len());
        assert(uses@.take(uses@.len() as int) =~= uses@);
    }
    match ty {
        InterfaceDef::Primitive(ty) => limited(lower_primitive(*ty), max),
        InterfaceDef::Record(_) | InterfaceDef::Tuple(_) => lower_all(
            types,
            &uses,
            max,
            Ghost(rank),
        ),
        InterfaceDef::Variant(_) | InterfaceDef::Union(_) | InterfaceDef::Option(_)
        | InterfaceDef::Expected { .. } => lower_any(types, &uses, max, Ghost(rank)),
        InterfaceDef::List(_) => {
            let list = vec![Type::I32, Type::I32];
            assert(list@ =~= whole);
            limited(list, max)
        },
        InterfaceDef::Flags(names) => {
            let n = names.len() / 32 + if names.len() % 32 == 0 {
                0
            } else {
                1
            };
            if n > max {
                return None;
            }
            let mut list: Vec<Type> = Vec::new();
            while list.len() < n
                invariant
                    list@.len() <= n,
                    forall|i: int| 0 <= i < list@.len() ==> list@[i] == Type::I32,
                decreases n - list@.len(),
            {
                list.push(Type::I32);
            }
            assert(list@ =~= whole);
            Some(list)
        },
        InterfaceDef::Enum(_) => {
            let list = vec![Type::I32];
            assert(list@ =~= whole);
            limited(list, max)
        },
    }
}

fn lower_params(types: &TypeList, func: &FuncDef) -> (params: Vec<Type>)
    requires
        types_ok(types@),
        DefinedTypeView::ComponentFunc(func@).ok(types@),
    ensures
        params@ == core_params(types@, func@),
{
    let mut uses: Vec<TypeUse> = Vec::new();
    let mut i: usize = 0;
    while i < func.params.len()
        invariant
            i <= func.params@.len(),
            DefinedTypeView::ComponentFunc(func@).ok(types@),
            uses@ == param_types(func@).take(i as int),
        decreases func.params@.len() - i,
    {
        assert(func@.params[i as int] == func.params@[i as int]@);
        uses.push(func.params[i].ty);
        i = i + 1;
        assert(uses@ =~= param_types(func@).take(i as int));
    }
    assert(uses@ =~= param_types(func@));
    assert forall|i: int| 0 <= i < uses@.len() implies use_rank(#[trigger] uses@[i]) < types@.len()
        + 1 && uses@[i].ok(types@) by {
        assert(func@.params[i].ty.ok(types@));
    }
    match lower_all(types, &uses, MAX_FLAT_FUNC_PARAMS, Ghost((types@.len() + 1) as nat)) {
        Some(params) => params,
        None => {
            let params = vec![Type::I32];
            assert(params@ =~= seq![Type::I32]);
            params
        },
    }
}

/// The type of the core function that a component function can be made from.
pub fn lift_type(types: &TypeList, func: &FuncDef) -> (ty: FuncType)
    requires
        types_ok(types@),
        DefinedTypeView::ComponentFunc(func@).ok(types@),
    ensures
        ty@ == lifted_type(types@, func@),
{
    let params = lower_params(types, func);
    let results = match lower_use(types, func.result, MAX_FLAT_FUNC_RESULTS) {
        Some(results) => results,
        None => {
            let results = vec![Type::I32];
            assert(results@ =~= seq![Type::I32]);
            results
        },
    };
    FuncType { params, returns: results }
}

/// The type of the core function that can be made from a component function.
pub fn lower_type(types: &TypeList, func: &FuncDef) -> (ty: FuncType)
    requires
        types_ok(types@),
        DefinedTypeView::ComponentFunc(func@).ok(types@),
    ensures
        ty@ == lowered_type(types@, func@),
{
    let mut params = lower_params(types, func);
    match lower_use(types, func.result, MAX_FLAT_FUNC_RESULTS) {
        Some(results) => FuncType { params, returns: results },
        None => {
            params.push(Type::I32);
            FuncType { params, returns: Vec::new() }
        },
    }
}

} // verus!
