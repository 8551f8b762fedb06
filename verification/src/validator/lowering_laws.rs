//! How component functions and core functions are made from each other.

use super::component::ComponentView;
use super::component_functions::{exports_func, free_type, provides_memory, realloc_type};
use super::component_laws::{exports_of, module_instance};
use super::entity_laws::one_more;
use super::lowering::{
    core_params, flat, flat_all, join, join_any, join_two, lemma_parts, lowered_type, param_types, parts,
};
use super::names::{lookup, names_once, place_of};
use super::subtype_laws::{law_lookup, made_of};
use super::types::{
    is_component_func_type, is_func_type, types_ok, ComponentEntityType, DefinedTypeView,
    EntityType, FuncDefView, InterfaceDefView, TypeUse,
};
use crate::reader::component::items::CanonicalOption;
use crate::reader::component::types::PrimitiveInterfaceType;
use crate::reader::types::{FuncTypeView, Type};
use vstd::prelude::*;

verus! {

/// A list of exports has a function under a name that takes `takes` whole numbers and gives `gives`.
pub open spec fn has_function(
    types: Seq<DefinedTypeView>,
    exports: Seq<(Seq<char>, EntityType)>,
    name: Seq<char>,
    takes: nat,
    gives: nat,
) -> bool {
    exists|j: int|
        0 <= j < exports.len() && (#[trigger] exports[j]).0 == name && (
        exports[j].1 matches EntityType::Func(place) && takes_and_gives(
            types[place as int]->Func_0,
            takes,
            gives,
        ))
}

/// A function takes and gives only whole numbers of a word, so many of them.
pub open spec fn takes_and_gives(ty: FuncTypeView, takes: nat, gives: nat) -> bool {
    &&& ty.params.len() == takes
    &&& ty.returns.len() == gives
    &&& forall|i: int| 0 <= i < takes ==> #[trigger] ty.params[i] == Type::I32
    &&& forall|i: int| 0 <= i < gives ==> #[trigger] ty.returns[i] == Type::I32
}

/// A list of exports has a memory under a name.
pub open spec fn has_memory_named(exports: Seq<(Seq<char>, EntityType)>, name: Seq<char>) -> bool {
    exists|j: int|
        0 <= j < exports.len() && (#[trigger] exports[j]).0 == name && exports[j].1 is Memory
}

/// An instance exports a memory, and functions that give and take back parts of it.
pub open spec fn manages_memory(
    types: Seq<DefinedTypeView>,
    exports: Seq<(Seq<char>, EntityType)>,
) -> bool {
    &&& has_memory_named(exports, "memory"@)
    &&& has_function(types, exports, "canonical_abi_realloc"@, 4, 1)
    &&& has_function(types, exports, "canonical_abi_free"@, 3, 0)
}

/// Options from the `i`th on can stand together: at most one says how strings are encoded and at most
/// one which instance provides memory, and that instance does.
pub open spec fn good_options(
    c: ComponentView,
    types: Seq<DefinedTypeView>,
    options: Seq<CanonicalOption>,
    i: int,
) -> bool {
    &&& forall|k: int, l: int|
        i <= k < l < options.len() ==> (#[trigger] options[k] is Into) != (
        #[trigger] options[l] is Into)
    &&& forall|k: int|
        i <= k < options.len() ==> (#[trigger] options[k] matches CanonicalOption::Into(instance)
            ==> module_instance(c, types, instance) && manages_memory(
            types,
            exports_of(c, types, instance),
        ))
}

/// In the exports of the instances that options name no name comes twice.
pub open spec fn clear_options(
    c: ComponentView,
    types: Seq<DefinedTypeView>,
    options: Seq<CanonicalOption>,
) -> bool {
    forall|k: int|
        0 <= k < options.len() ==> (#[trigger] options[k] matches CanonicalOption::Into(instance)
            ==> names_once(exports_of(c, types, instance)))
}

proof fn lemma_func_named(
    types: Seq<DefinedTypeView>,
    exports: Seq<(Seq<char>, EntityType)>,
    name: Seq<char>,
    ty: FuncTypeView,
    takes: nat,
    gives: nat,
)
    requires
        takes_and_gives(ty, takes, gives),
    ensures
        exports_func(types, exports, name, ty) ==> has_function(
            types,
            exports,
            name,
            takes,
            gives,
        ),
        names_once(exports) && has_function(types, exports, name, takes, gives)
            ==> exports_func(types, exports, name, ty),
{
    if exports_func(types, exports, name, ty) {
        let j = place_of(exports, name);
        assert(exports[j].0 == name);
    }
    if names_once(exports) && has_function(types, exports, name, takes, gives) {
        let j = choose|j: int|
            0 <= j < exports.len() && (#[trigger] exports[j]).0 == name && (
            exports[j].1 matches EntityType::Func(place) && takes_and_gives(
                types[place as int]->Func_0,
                takes,
                gives,
            ));
        law_lookup(exports, j);
        let other = types[exports[j].1->Func_0 as int]->Func_0;
        assert(other.params =~= ty.params);
        assert(other.returns =~= ty.returns);
    }
}

/// An instance provides memory only if it exports a memory and functions that give and take back
/// parts of it, under the names that these have.
pub proof fn law_provides_memory(
    types: Seq<DefinedTypeView>,
    exports: Seq<(Seq<char>, EntityType)>,
    offset: int,
)
    ensures
        provides_memory(types, exports, offset) is Ok
            ==> manages_memory(types, exports),
        names_once(exports) && manages_memory(types, exports)
            ==> provides_memory(types, exports, offset) is Ok,
{
    lemma_func_named(
        types,
        exports,
        "canonical_abi_realloc"@,
        realloc_type(),
        4,
        1,
    );
    lemma_func_named(
        types,
        exports,
        "canonical_abi_free"@,
        free_type(),
        3,
        0,
    );
    if let Some(EntityType::Memory(_)) = lookup(exports, "memory"@) {
        let j = place_of(exports, "memory"@);
        assert(exports[j].0 == "memory"@);
    }
    if names_once(exports) && has_memory_named(exports, "memory"@) {
        let j = choose|j: int|
            0 <= j < exports.len() && (#[trigger] exports[j]).0 == "memory"@
                && exports[j].1 is Memory;
        law_lookup(exports, j);
    }
}

proof fn lemma_options(
    c: ComponentView,
    types: Seq<DefinedTypeView>,
    options: Seq<CanonicalOption>,
    i: int,
    encoded: bool,
    provided: bool,
    offset: int,
)
    requires
        c.wf(types),
        0 <= i <= options.len(),
    ensures
        ({
            let accepted = c.check_options(types, options, i, encoded, provided, offset) is Ok;
            let fresh = forall|k: int|
                i <= k < options.len() ==> if #[trigger] options[k] is Into {
                    !provided
                } else {
                    !encoded
                };
            &&& accepted ==> fresh && good_options(c, types, options, i)
            &&& clear_options(c, types, options) && fresh && good_options(c, types, options, i)
                ==> accepted
        }),
    decreases options.len() - i,
{
    if i < options.len() {
        match options[i] {
            CanonicalOption::Into(instance) => {
                lemma_options(c, types, options, i + 1, encoded, true, offset);
                if module_instance(c, types, instance) {
                    law_provides_memory(types, exports_of(c, types, instance), offset);
                }
            },
            _ => {
                lemma_options(c, types, options, i + 1, true, provided, offset);
            },
        }
        let o = options[i];
        if clear_options(c, types, options) && good_options(c, types, options, i) {
            assert forall|k: int| i + 1 <= k < options.len() implies (#[trigger] options[k] is Into)
                != (o is Into) by {
                assert((options[i] is Into) != (options[k] is Into));
            }
        }
    }
}

/// Options are accepted only if at most one says how strings are encoded, and at most one names an
/// instance, which provides memory.
pub proof fn law_options(
    c: ComponentView,
    types: Seq<DefinedTypeView>,
    options: Seq<CanonicalOption>,
    offset: int,
)
    requires
        c.wf(types),
    ensures
        c.check_options(types, options, 0, false, false, offset) is Ok ==> good_options(
            c,
            types,
            options,
            0,
        ),
        clear_options(c, types, options) && good_options(c, types, options, 0) ==> c.check_options(
            types,
            options,
            0,
            false,
            false,
            offset,
        ) is Ok,
{
    lemma_options(c, types, options, 0, false, false, offset);
}

/// The parameters of the core function that belongs to a component function: the core values that
/// stand for its own, if these are at most sixteen, or else where they are.
pub open spec fn passed_as(types: Seq<DefinedTypeView>, func: FuncDefView, params: Seq<Type>) -> bool {
    let values = flat_all(types, Seq::new(func.params.len(), |i: int| func.params[i].ty));
    if values.len() <= 16 {
        params == values
    } else {
        params.len() == 1 && params[0] == Type::I32
    }
}

/// A component function is made from a core function only if there is a component function type with
/// the index and a core function with the other, the options can stand together, and the core function
/// takes and gives the core values that stand for what the component function does, or says where they
/// are. It is then the last of the functions, of that type.
pub proof fn law_lift(
    c: ComponentView,
    types: Seq<DefinedTypeView>,
    type_index: u32,
    func_index: u32,
    options: Seq<CanonicalOption>,
    offset: int,
)
    requires
        c.wf(types),
    ensures
        ({
            let (after, result) = c.lift_function(types, type_index, func_index, options, offset);
            let place = c.types[type_index as int];
            let func = types[place as int]->ComponentFunc_0;
            let core = types[c.functions[func_index as int] as int]->Func_0;
            let results = flat(types, func.result);
            let fits = {
                &&& type_index < c.types.len() && is_component_func_type(types, place)
                &&& func_index < c.functions.len() && is_func_type(
                    types,
                    c.functions[func_index as int],
                )
                &&& good_options(c, types, options, 0)
                &&& passed_as(types, func, core.params)
                &&& results.len() <= 1 ==> core.returns == results
                &&& results.len() > 1 ==> core.returns.len() == 1 && core.returns[0] == Type::I32
            };
            &&& result is Ok ==> fits && one_more(c, after, ComponentEntityType::Func(place))
            &&& clear_options(c, types, options) && fits ==> result is Ok
            &&& result is Err ==> after == c
        }),
{
    law_options(c, types, options, offset);
    if type_index < c.types.len() && func_index < c.functions.len() {
        let place = c.types[type_index as int];
        let func = types[place as int]->ComponentFunc_0;
        let core = types[c.functions[func_index as int] as int]->Func_0;
        assert(param_types(func) =~= Seq::new(func.params.len(), |i: int| func.params[i].ty));
        if passed_as(types, func, core.params) {
            assert(core.params =~= core_params(types, func));
        }
        if flat(types, func.result).len() > 1 && core.returns.len() == 1 && core.returns[0]
            == Type::I32 {
            assert(core.returns =~= seq![Type::I32]);
        }
    }
}

/// A core function is made from a component function only if there is one with the index, and the
/// options can stand together. It takes the core values that stand for what the component function
/// takes, or where they are, and gives what stands for its result, if that is one core value or none;
/// otherwise it is told, last, where to put that, and gives nothing.
pub proof fn law_lower(
    c: ComponentView,
    types: Seq<DefinedTypeView>,
    func_index: u32,
    options: Seq<CanonicalOption>,
    offset: int,
)
    requires
        c.wf(types),
    ensures
        ({
            let (after, more, result) = c.lower_function(types, func_index, options, offset);
            let place = c.functions[func_index as int];
            let func = types[place as int]->ComponentFunc_0;
            let results = flat(types, func.result);
            let fits = {
                &&& func_index < c.functions.len() && is_component_func_type(types, place)
                &&& good_options(c, types, options, 0)
            };
            &&& result is Ok ==> {
                let core = more.last()->Func_0;
                &&& fits
                &&& one_more(c, after, ComponentEntityType::Func(types.len() as usize))
                &&& more == types.push(DefinedTypeView::Func(core))
                &&& results.len() <= 1 ==> passed_as(types, func, core.params) && core.returns
                    == results
                &&& results.len() > 1 ==> {
                    &&& passed_as(types, func, core.params.drop_last())
                    &&& core.params.len() > 0 && core.params.last() == Type::I32
                    &&& core.returns.len() == 0
                }
            }
            &&& clear_options(c, types, options) && fits ==> result is Ok
            &&& result is Err ==> after == c && more == types
        }),
{
    law_options(c, types, options, offset);
    let (after, more, result) = c.lower_function(types, func_index, options, offset);
    if result is Ok {
        let place = c.functions[func_index as int];
        let func = types[place as int]->ComponentFunc_0;
        let core = lowered_type(types, func);
        assert(more.last() == DefinedTypeView::Func(core));
        assert(param_types(func) =~= Seq::new(func.params.len(), |i: int| func.params[i].ty));
        if flat(types, func.result).len() > 1 {
            assert(core.params.drop_last() =~= core_params(types, func));
        }
    }
}

/// How many core values stand for a value of a primitive type, and of which type they are.
pub open spec fn words(ty: PrimitiveInterfaceType) -> (nat, Type) {
    if ty == PrimitiveInterfaceType::Unit {
        (0, Type::I32)
    } else if ty == PrimitiveInterfaceType::String {
        (2, Type::I32)
    } else if ty == PrimitiveInterfaceType::S64 || ty == PrimitiveInterfaceType::U64 {
        (1, Type::I64)
    } else if ty == PrimitiveInterfaceType::Float32 {
        (1, Type::F32)
    } else if ty == PrimitiveInterfaceType::Float64 {
        (1, Type::F64)
    } else {
        (1, Type::I32)
    }
}

/// No core value stands for nothing, two stand for where a string is and how long it is, and one
/// stands for any other primitive value: of the same type for a number of two words or with a
/// fraction, and a word for all others.
pub proof fn law_primitive_words(types: Seq<DefinedTypeView>, ty: TypeUse)
    requires
        types_ok(types),
        ty.ok(types),
        made_of(types, ty) is Primitive,
    ensures
        ({
            let (n, word) = words(made_of(types, ty)->Primitive_0);
            &&& flat(types, ty).len() == n
            &&& forall|i: int| 0 <= i < n ==> #[trigger] flat(types, ty)[i] == word
        }),
{
}

/// Two words stand for a list, one for a case without anything more, and one for each thirty-two
/// flags.
pub proof fn law_plain_words(types: Seq<DefinedTypeView>, ty: TypeUse)
    requires
        types_ok(types),
        ty.ok(types),
    ensures
        made_of(types, ty) is List ==> flat(types, ty).len() == 2,
        made_of(types, ty) is Enum ==> flat(types, ty).len() == 1,
        made_of(types, ty) matches InterfaceDefView::Flags(names) ==> {
            let n = flat(types, ty).len();
            names.len() <= 32 * n < names.len() + 32
        },
        made_of(types, ty) is List || made_of(types, ty) is Enum || made_of(types, ty) is Flags
            ==> forall|i: int|
            0 <= i < flat(types, ty).len() ==> #[trigger] flat(types, ty)[i] == Type::I32,
{
}

/// What stands for values one behind the other is what stands for the first ones, followed by what
/// stands for the others.
pub proof fn law_flat_concat(types: Seq<DefinedTypeView>, a: Seq<TypeUse>, b: Seq<TypeUse>)
    ensures
        flat_all(types, a + b) == flat_all(types, a) + flat_all(types, b),
        b.len() == 1 ==> flat_all(types, b) == flat(types, b[0]),
    decreases b.len(),
{
    if b.len() == 0 {
        assert(a + b =~= a);
        assert(flat_all(types, a) + flat_all(types, b) =~= flat_all(types, a));
    } else {
        law_flat_concat(types, a, b.drop_last());
        assert((a + b).drop_last() =~= a + b.drop_last());
        assert((a + b).last() == b.last());
        assert(flat_all(types, a + b) =~= flat_all(types, a) + flat_all(types, b));
        if b.len() == 1 {
            assert(b.drop_last() =~= Seq::<TypeUse>::empty());
            assert(flat_all(types, b) =~= flat(types, b[0]));
        }
    }
}

/// For a record or a tuple stands what stands for its parts, one behind the other.
pub proof fn law_flat_parts(types: Seq<DefinedTypeView>, ty: TypeUse)
    requires
        types_ok(types),
        ty.ok(types),
    ensures
        made_of(types, ty) matches InterfaceDefView::Record(fields) ==> flat(types, ty)
            == flat_all(types, Seq::new(fields.len(), |i: int| fields[i].1)),
        made_of(types, ty) matches InterfaceDefView::Tuple(list) ==> flat(types, ty) == flat_all(
            types,
            list,
        ),
{
    if let TypeUse::Type(place) = ty {
        let def = types[place as int]->Interface_0;
        if def is Record || def is Tuple {
            lemma_parts(types, place, parts(def).len());
            assert(parts(def).take(parts(def).len() as int) =~= parts(def));
        }
    }
}

/// A core value of a type can hold one of another.
pub open spec fn holds(wide: Type, narrow: Type) -> bool {
    wide == narrow || wide == Type::I64 || (wide == Type::I32 && narrow == Type::F32)
}

/// The join of two types holds both, is the same either way round, and is no wider than it has to be.
pub proof fn law_join(a: Type, b: Type)
    ensures
        holds(join(a, b), a),
        holds(join(a, b), b),
        join(a, b) == join(b, a),
        join(a, a) == a,
        join(Type::I32, Type::F32) == Type::I32,
{
}

/// The core types of one list can hold those of another.
pub open spec fn all_hold(wide: Seq<Type>, narrow: Seq<Type>) -> bool {
    &&& narrow.len() <= wide.len()
    &&& forall|i: int| 0 <= i < narrow.len() ==> holds(#[trigger] wide[i], narrow[i])
}

proof fn lemma_join_any(types: Seq<DefinedTypeView>, uses: Seq<TypeUse>, k: int)
    requires
        0 <= k < uses.len(),
    ensures
        all_hold(join_any(types, uses), flat(types, uses[k])),
        exists|l: int|
            0 <= l < uses.len() && flat(types, #[trigger] uses[l]).len() == join_any(
                types,
                uses,
            ).len(),
    decreases uses.len(),
{
    let front = join_any(types, uses.drop_last());
    let last = flat(types, uses.last());
    let all = join_any(types, uses);
    assert(all == join_two(front, last));
    if k < uses.len() - 1 {
        lemma_join_any(types, uses.drop_last(), k);
        assert(uses.drop_last()[k] == uses[k]);
        let narrow = flat(types, uses[k]);
        assert forall|i: int| 0 <= i < narrow.len() implies holds(#[trigger] all[i], narrow[i]) by {
            assert(holds(front[i], narrow[i]));
        }
    } else {
        assert forall|i: int| 0 <= i < last.len() implies holds(#[trigger] all[i], last[i]) by {}
    }
    if last.len() == all.len() {
        assert(flat(types, uses[uses.len() - 1]).len() == all.len());
    } else {
        assert(uses.len() > 1) by {
            if uses.len() == 1 {
                assert(uses.drop_last() =~= Seq::<TypeUse>::empty());
                assert(front.len() == 0);
            }
        }
        lemma_join_any(types, uses.drop_last(), 0);
        let l = choose|l: int|
            0 <= l < uses.drop_last().len() && flat(types, #[trigger] uses.drop_last()[l]).len()
                == front.len();
        assert(flat(types, uses[l]).len() == all.len());
    }
}

/// The cases that a value is one of, with what each carries.
pub open spec fn carried_by(ty: InterfaceDefView) -> Option<Seq<TypeUse>> {
    match ty {
        InterfaceDefView::Variant(cases) => Some(Seq::new(cases.len(), |i: int| cases[i].1.ty)),
        InterfaceDefView::Union(list) => Some(list),
        InterfaceDefView::Option(ty) => Some(seq![ty]),
        InterfaceDefView::Expected { ok, error } => Some(seq![ok, error]),
        _ => None,
    }
}

/// For a value that is one of some cases stands a word that says which, and then core values that can
/// hold what any of the cases carries, and no more than one of them needs.
pub proof fn law_flat_cases(types: Seq<DefinedTypeView>, ty: TypeUse, k: int)
    requires
        types_ok(types),
        ty.ok(types),
        carried_by(made_of(types, ty)) is Some,
        0 <= k < carried_by(made_of(types, ty))->0.len(),
    ensures
        ({
            let cases = carried_by(made_of(types, ty))->0;
            let values = flat(types, ty);
            &&& values.len() >= 1
            &&& values[0] == Type::I32
            &&& all_hold(values.skip(1), flat(types, cases[k]))
            &&& exists|l: int|
                0 <= l < cases.len() && flat(types, #[trigger] cases[l]).len() + 1 == values.len()
        }),
{
    if let TypeUse::Type(place) = ty {
        let def = types[place as int]->Interface_0;
        let cases = carried_by(def)->0;
        assert(cases =~= parts(def));
        lemma_parts(types, place, parts(def).len());
        assert(parts(def).take(parts(def).len() as int) =~= parts(def));
        lemma_join_any(types, cases, k);
        assert(flat(types, ty).skip(1) =~= join_any(types, cases));
        let l = choose|l: int|
            0 <= l < cases.len() && flat(types, #[trigger] cases[l]).len() == join_any(
                types,
                cases,
            ).len();
        assert(flat(types, cases[l]).len() + 1 == flat(types, ty).len());
    }
}

} // verus!
