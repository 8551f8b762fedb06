//! What a module can define, import and export.

use super::features::WasmFeatures;
use super::module::ModuleView;
use super::types::{DefinedTypeView, EntityType, ModuleImportView};
use crate::reader::binary_reader::Cursor;
use crate::reader::operators::{parse_operator, Op, OperatorView};
use crate::reader::sections::{
    DataKindView, DataView, ElementItemsView, ElementKindView, ElementView, GlobalView, PlacedView,
};
use crate::reader::types::{
    ExportView, ExternalKind, FuncTypeView, ImportView, MemoryType, TableType, TagType, Type,
    TypeDefView, TypeRef,
};
use super::module::ConstState;
use vstd::prelude::*;

verus! {

/// Values of the type can be had with these features.
pub open spec fn has_type(features: WasmFeatures, ty: Type) -> bool {
    &&& ty == Type::V128 ==> features.simd
    &&& ty == Type::FuncRef || ty == Type::ExternRef ==> features.reference_types
}

/// Values of all of the types can be had with these features.
pub open spec fn has_types(features: WasmFeatures, types: Seq<Type>) -> bool {
    forall|i: int| 0 <= i < types.len() ==> has_type(features, #[trigger] types[i])
}

proof fn lemma_value_types(features: WasmFeatures, types: Seq<Type>, offset: int)
    ensures
        features.value_types_at(types, offset) is Ok <==> has_types(features, types),
    decreases types.len(),
{
    if types.len() > 0 {
        let more = types.drop_first();
        lemma_value_types(features, more, offset);
        assert forall|i: int| 0 <= i < more.len() implies #[trigger] more[i] == types[i + 1] by {}
        if has_types(features, types) {
            assert(has_type(features, types[0]));
            assert forall|i: int| 0 <= i < more.len() implies has_type(
                features,
                #[trigger] more[i],
            ) by {
                assert(has_type(features, types[i + 1]));
            }
        }
        if has_type(features, types[0]) && has_types(features, more) {
            assert forall|i: int| 0 <= i < types.len() implies has_type(
                features,
                #[trigger] types[i],
            ) by {
                if i > 0 {
                    assert(has_type(features, more[i - 1]));
                }
            }
        }
    }
}

/// A value type is enabled by itself, but for vectors and references, which have proposals.
pub proof fn law_value_type(features: WasmFeatures, ty: Type)
    ensures
        features.value_type(ty) is Ok <==> has_type(features, ty),
        ty == Type::I32 || ty == Type::I64 || ty == Type::F32 || ty == Type::F64
            ==> features.value_type(ty) is Ok,
{
}

/// A function type comes behind those that there are; what it takes and gives has to be enabled,
/// and it gives many values only with the multi-value proposal.
pub proof fn law_add_type(
    m: ModuleView,
    types: Seq<DefinedTypeView>,
    ty: FuncTypeView,
    features: WasmFeatures,
    offset: int,
)
    requires
        types.len() < usize::MAX,
    ensures
        ({
            let (n, more, result) = m.add_type(types, TypeDefView::Func(ty), features, offset);
            &&& result is Ok <==> {
                &&& has_types(features, ty.params)
                &&& has_types(features, ty.returns)
                &&& ty.returns.len() <= 1 || features.multi_value
            }
            &&& result is Ok ==> {
                &&& more == types.push(DefinedTypeView::Func(ty))
                &&& n.types.len() == m.types.len() + 1
                &&& n.types.drop_last() == m.types
                &&& more[n.types.last() as int] == DefinedTypeView::Func(ty)
                &&& n == (ModuleView { types: n.types, ..m })
            }
        }),
{
    lemma_value_types(features, ty.params, offset);
    lemma_value_types(features, ty.returns, offset);
    let n = m.add_type(types, TypeDefView::Func(ty), features, offset).0;
    if n.types.len() == m.types.len() + 1 {
        assert(n.types.drop_last() =~= m.types);
    }
}

/// A function is of a type that is there, and comes behind those that there are.
pub proof fn law_add_function(
    m: ModuleView,
    types: Seq<DefinedTypeView>,
    ty: u32,
    offset: int,
)
    ensures
        ({
            let (n, result) = m.add_function(types, ty, offset);
            &&& result is Ok <==> ty < m.types.len()
            &&& result is Ok ==> n == (ModuleView { functions: m.functions.push(ty), ..m })
        }),
{
}

/// The type of a table can be had: it holds references, of a type that can be had or of functions,
/// has no more elements at first than at last, and at most ten million at first.
pub open spec fn good_table(features: WasmFeatures, ty: TableType) -> bool {
    &&& ty.element_type == Type::FuncRef || (ty.element_type == Type::ExternRef
        && features.reference_types)
    &&& ty.maximum matches Some(max) ==> ty.initial <= max
    &&& ty.initial <= 10_000_000
}

/// A table is of a type that can be had, and comes behind those that there are.
pub proof fn law_add_table(m: ModuleView, ty: TableType, features: WasmFeatures, offset: int)
    ensures
        ({
            let (n, result) = m.add_table(ty, features, offset);
            &&& result is Ok <==> good_table(features, ty)
            &&& result is Ok ==> n == (ModuleView { tables: m.tables.push(ty), ..m })
        }),
{
}

/// The type of a memory can be had: it has no more pages at first than at last, no more than its
/// addresses reach, 64-bit addresses and shared memories have proposals, and a shared memory has a
/// last size.
pub open spec fn good_memory(features: WasmFeatures, ty: MemoryType) -> bool {
    let limit: u64 = if ty.memory64 {
        0x1_0000_0000_0000
    } else {
        65536
    };
    &&& ty.initial <= limit
    &&& ty.maximum matches Some(max) ==> ty.initial <= max && max <= limit
    &&& ty.memory64 ==> features.memory64
    &&& ty.shared ==> features.threads && ty.maximum is Some
}

/// A memory is of a type that can be had, and comes behind those that there are.
pub proof fn law_add_memory(m: ModuleView, ty: MemoryType, features: WasmFeatures, offset: int)
    ensures
        ({
            let (n, result) = m.add_memory(ty, features, offset);
            &&& result is Ok <==> good_memory(features, ty)
            &&& result is Ok ==> n == (ModuleView { memories: m.memories.push(ty), ..m })
        }),
{
}

/// The type of a tag can be had: it is a function type that is there and gives nothing.
pub open spec fn good_tag(
    m: ModuleView,
    types: Seq<DefinedTypeView>,
    features: WasmFeatures,
    ty: u32,
) -> bool {
    &&& features.exceptions
    &&& ty < m.types.len()
    &&& types[m.types[ty as int] as int]->Func_0.returns.len() == 0
}

/// A tag is of a type that can be had, and comes behind those that there are.
pub proof fn law_add_tag(
    m: ModuleView,
    types: Seq<DefinedTypeView>,
    ty: TagType,
    features: WasmFeatures,
    offset: int,
)
    ensures
        ({
            let (n, result) = m.add_tag(types, ty, features, offset);
            &&& result is Ok <==> good_tag(m, types, features, ty.func_type_idx)
            &&& result is Ok ==> n == (ModuleView {
                tags: m.tags.push(m.types[ty.func_type_idx as int]),
                ..m
            })
        }),
{
}

/// What is imported can be had.
pub open spec fn good_import(
    m: ModuleView,
    types: Seq<DefinedTypeView>,
    features: WasmFeatures,
    ty: TypeRef,
) -> bool {
    match ty {
        TypeRef::Func(index) => index < m.types.len() && m.functions.len() < 1_000_000,
        TypeRef::Table(ty) => good_table(features, ty) && m.tables.len() < (
        if features.reference_types {
            100int
        } else {
            1int
        }),
        TypeRef::Memory(ty) => good_memory(features, ty) && m.memories.len() < (
        if features.multi_memory {
            100int
        } else {
            1int
        }),
        TypeRef::Global(ty) => {
            &&& has_type(features, ty.content_type)
            &&& ty.mutable ==> features.mutable_global
            &&& m.globals.len() < 1_000_000
        },
        TypeRef::Tag(ty) => good_tag(m, types, features, ty.func_type_idx) && m.tags.len()
            < 1_000_000,
    }
}

/// An import is of a type that can be had, there are not too many of its kind, and what it brings
/// comes behind the others of its kind. It is noted under its two names.
pub proof fn law_add_import(
    m: ModuleView,
    types: Seq<DefinedTypeView>,
    import: ImportView,
    features: WasmFeatures,
    offset: int,
)
    ensures
        ({
            let (n, result) = m.add_import(types, import, features, offset);
            &&& result is Ok <==> good_import(m, types, features, import.ty)
            &&& result is Ok ==> {
                let ty = match import.ty {
                    TypeRef::Func(index) => EntityType::Func(m.types[index as int]),
                    TypeRef::Table(ty) => EntityType::Table(ty),
                    TypeRef::Memory(ty) => EntityType::Memory(ty),
                    TypeRef::Global(ty) => EntityType::Global(ty),
                    TypeRef::Tag(ty) => EntityType::Tag(m.types[ty.func_type_idx as int]),
                };
                let noted = ModuleView {
                    imports: m.imports.push(
                        ModuleImportView { module: import.module, name: import.name, ty },
                    ),
                    ..m
                };
                n == match import.ty {
                    TypeRef::Func(index) => ModuleView {
                        functions: m.functions.push(index),
                        num_imported_functions: m.num_imported_functions + 1,
                        ..noted
                    },
                    TypeRef::Table(ty) => ModuleView { tables: m.tables.push(ty), ..noted },
                    TypeRef::Memory(ty) => ModuleView { memories: m.memories.push(ty), ..noted },
                    TypeRef::Global(ty) => ModuleView {
                        globals: m.globals.push(ty),
                        num_imported_globals: m.num_imported_globals + 1,
                        ..noted
                    },
                    TypeRef::Tag(ty) => ModuleView {
                        tags: m.tags.push(m.types[ty.func_type_idx as int]),
                        ..noted
                    },
                }
            }
        }),
{
}

/// What is exported is there.
pub open spec fn exported(m: ModuleView, kind: ExternalKind, index: u32) -> Option<EntityType> {
    match kind {
        ExternalKind::Func if index < m.functions.len() => Some(
            EntityType::Func(m.types[m.functions[index as int] as int]),
        ),
        ExternalKind::Table if index < m.tables.len() => Some(
            EntityType::Table(m.tables[index as int]),
        ),
        ExternalKind::Memory if index < m.memories.len() => Some(
            EntityType::Memory(m.memories[index as int]),
        ),
        ExternalKind::Global if index < m.globals.len() => Some(
            EntityType::Global(m.globals[index as int]),
        ),
        ExternalKind::Tag if index < m.tags.len() => Some(EntityType::Tag(m.tags[index as int])),
        _ => None,
    }
}

/// An export is of something that is there, under a name that no other export has. A global that
/// can be changed is exported only with its proposal. Code can refer to an exported function.
pub proof fn law_add_export(
    m: ModuleView,
    export: ExportView,
    features: WasmFeatures,
    offset: int,
)
    ensures
        ({
            let (n, result) = m.export(export, features, offset);
            &&& result is Ok <==> {
                &&& exported(m, export.kind, export.index) is Some
                &&& forall|i: int|
                    0 <= i < m.exports.len() ==> (#[trigger] m.exports[i]).0 != export.name
                &&& exported(m, export.kind, export.index)->0 matches EntityType::Global(ty)
                    ==> ty.mutable ==> features.mutable_global
            }
            &&& result is Ok ==> n == (ModuleView {
                exports: m.exports.push((export.name, exported(m, export.kind, export.index)->0)),
                function_references: if export.kind == ExternalKind::Func {
                    m.function_references.insert(export.index)
                } else {
                    m.function_references
                },
                ..m
            })
        }),
{
}

/// A constant puts one value of its type on the stack; a global can be read if it is imported and
/// does not change; sums, differences and products have a proposal; nothing else is constant.
pub proof fn law_constant(
    m: ModuleView,
    state: ConstState,
    op: OperatorView,
    features: WasmFeatures,
    offset: int,
)
    ensures
        m.const_op(state, op, features, offset) matches Ok(next) ==> {
            let n = state.stack.len();
            match op {
                OperatorView::Op(Op::I32Const(_)) => next.stack == state.stack.push(Type::I32),
                OperatorView::Op(Op::I64Const(_)) => next.stack == state.stack.push(Type::I64),
                OperatorView::Op(Op::F32Const) => next.stack == state.stack.push(Type::F32)
                    && !features.deterministic_only,
                OperatorView::Op(Op::F64Const) => next.stack == state.stack.push(Type::F64)
                    && !features.deterministic_only,
                OperatorView::Op(Op::V128Const) => next.stack == state.stack.push(Type::V128)
                    && features.simd,
                OperatorView::Op(Op::RefNull(ty)) => {
                    &&& next.stack == state.stack.push(ty)
                    &&& ty == Type::FuncRef || ty == Type::ExternRef
                    &&& features.reference_types
                },
                OperatorView::Op(Op::RefFunc(func)) => {
                    &&& next.stack == state.stack.push(Type::FuncRef)
                    &&& next.refs == state.refs.push(func)
                    &&& func < m.functions.len()
                    &&& features.reference_types
                },
                OperatorView::Op(Op::GlobalGet(index)) => {
                    &&& index < m.num_imported_globals
                    &&& index < m.globals.len()
                    &&& !m.globals[index as int].mutable
                    &&& next.stack == state.stack.push(m.globals[index as int].content_type)
                },
                OperatorView::Op(Op::Simple(simple)) => {
                    &&& features.extended_const && simple.extended_const
                    &&& simple.params is Two
                    &&& n >= 2
                    &&& state.stack[n - 2] == simple.params->Two_0
                    &&& state.stack[n - 1] == simple.params->Two_1
                    &&& next.stack == state.stack.take(n - 2).push(simple.result)
                },
                _ => false,
            }
        },
        ({
            let accepted = m.const_op(state, op, features, offset) is Ok;
            match op {
                OperatorView::Op(Op::I32Const(_)) => accepted,
                OperatorView::Op(Op::I64Const(_)) => accepted,
                OperatorView::Op(Op::F32Const) => !features.deterministic_only ==> accepted,
                OperatorView::Op(Op::F64Const) => !features.deterministic_only ==> accepted,
                OperatorView::Op(Op::V128Const) => features.simd ==> accepted,
                OperatorView::Op(Op::RefNull(ty)) => features.reference_types && (ty
                    == Type::FuncRef || ty == Type::ExternRef) ==> accepted,
                OperatorView::Op(Op::RefFunc(func)) => features.reference_types && func
                    < m.functions.len() ==> accepted,
                OperatorView::Op(Op::GlobalGet(index)) => index < m.num_imported_globals && index
                    < m.globals.len() && !m.globals[index as int].mutable ==> accepted,
                _ => true,
            }
        }),
{
    if let OperatorView::Op(Op::Simple(simple)) = op {
        let n = state.stack.len();
        if n >= 2 {
            assert(state.stack.drop_last().drop_last() =~= state.stack.take(n - 2));
        }
    }
}

/// A constant expression that is accepted is constants up to the first `end`, and leaves one value,
/// of the type that is expected.
pub proof fn law_constant_expression(
    m: ModuleView,
    state: ConstState,
    c: Cursor,
    expected: Type,
    features: WasmFeatures,
)
    requires
        c.wf(),
        m.const_expr(state, c, expected, features) is Ok,
    ensures
        parse_operator(c, false).1 is Ok,
        ({
            let (d, op) = parse_operator(c, false);
            if op->Ok_0 == OperatorView::Op(Op::End) {
                &&& state.stack.len() == 1
                &&& state.stack[0] == expected
                &&& m.const_expr(state, c, expected, features)->Ok_0 == state.refs
            } else {
                &&& m.const_op(state, op->Ok_0, features, c.offset()) is Ok
                &&& m.const_expr(state, c, expected, features) == m.const_expr(
                    m.const_op(state, op->Ok_0, features, c.offset())->Ok_0,
                    d,
                    expected,
                    features,
                )
            }
        }),
{
    if state.stack.len() > 0 {
        assert(state.stack.last() == state.stack[state.stack.len() - 1]);
    }
}

/// A constant expression starts with nothing on the stack.
pub open spec fn fresh() -> ConstState {
    ConstState { stack: Seq::empty(), refs: Seq::empty() }
}

/// A global starts with a constant of its type, and comes behind those that there are; code can
/// refer to the functions that the constant refers to.
pub proof fn law_add_global(
    m: ModuleView,
    global: GlobalView,
    features: WasmFeatures,
    offset: int,
)
    ensures
        ({
            let (n, result) = m.add_global(global, features, offset);
            let start = m.const_expr(
                fresh(),
                global.init_expr,
                global.ty.content_type,
                features,
            );
            &&& result is Ok <==> has_type(features, global.ty.content_type) && start is Ok
            &&& result is Ok ==> {
                &&& n == (ModuleView {
                    globals: m.globals.push(global.ty),
                    function_references: n.function_references,
                    ..m
                })
                &&& forall|func: u32| #[trigger]
                    n.function_references.contains(func) <==> m.function_references.contains(func)
                        || start->Ok_0.contains(func)
            }
        }),
{
}

/// A data segment that is active goes to a memory that is there, to an address of its type.
pub proof fn law_data_segment(
    m: ModuleView,
    data: DataView,
    features: WasmFeatures,
    offset: int,
)
    ensures
        m.data_segment(data, features, offset) is Ok <==> {
            data.kind matches DataKindView::Active { memory_index, init_expr } ==> {
                &&& memory_index < m.memories.len()
                &&& m.const_expr(
                    fresh(),
                    init_expr,
                    if m.memories[memory_index as int].memory64 {
                        Type::I64
                    } else {
                        Type::I32
                    },
                    features,
                ) is Ok
            }
        },
{
}

proof fn lemma_element_functions(m: ModuleView, list: Seq<PlacedView<u32>>, i: int, ty: Type)
    requires
        0 <= i <= list.len(),
    ensures
        ({
            let (n, result) = m.element_functions(list, i, ty);
            &&& result is Ok <==> forall|k: int|
                i <= k < list.len() ==> ty == Type::FuncRef && (#[trigger] list[k]).item
                    < m.functions.len()
            &&& result is Ok ==> forall|func: u32| #[trigger]
                n.function_references.contains(func) <==> (m.function_references.contains(func) || (
                exists|k: int| i <= k < list.len() && (#[trigger] list[k]).item == func))
        }),
    decreases list.len() - i,
{
    if i < list.len() {
        let next = ModuleView {
            function_references: m.function_references.insert(list[i].item),
            ..m
        };
        lemma_element_functions(next, list, i + 1, ty);
        let good = |k: int| ty == Type::FuncRef && list[k].item < m.functions.len();
        if good(i) {
            let (n, result) = m.element_functions(list, i, ty);
            if result is Ok {
                assert forall|func: u32| #[trigger]
                    n.function_references.contains(func) <==> (m.function_references.contains(func)
                        || (exists|k: int| i <= k < list.len() && (#[trigger] list[k]).item
                        == func)) by {
                    if list[i].item == func {
                        assert(list[i].item == func);
                    }
                    if exists|k: int| i <= k < list.len() && (#[trigger] list[k]).item == func {
                        let k = choose|k: int|
                            i <= k < list.len() && (#[trigger] list[k]).item == func;
                        if k > i {
                            assert(list[k].item == func);
                        }
                    }
                }
            }
        } else {
            assert(!(ty == Type::FuncRef && list[i].item < m.functions.len()));
        }
    }
}

/// What a constant expression is depends on the functions and the globals of the module alone.
proof fn lemma_same_constants(
    m: ModuleView,
    n: ModuleView,
    state: ConstState,
    c: Cursor,
    ty: Type,
    features: WasmFeatures,
)
    requires
        c.wf(),
        n.functions == m.functions,
        n.globals == m.globals,
        n.num_imported_globals == m.num_imported_globals,
    ensures
        n.const_expr(state, c, ty, features) == m.const_expr(state, c, ty, features),
    decreases c.left(),
{
    if let (d, Ok(op)) = parse_operator(c, false) {
        assert(n.const_op(state, op, features, c.offset()) == m.const_op(
            state,
            op,
            features,
            c.offset(),
        ));
        if let Ok(next) = m.const_op(state, op, features, c.offset()) {
            if op != OperatorView::Op(Op::End) && d.follows(c) && d.pos > c.pos {
                lemma_same_constants(m, n, next, d, ty, features);
            }
        }
    }
}

proof fn lemma_element_expressions(
    m: ModuleView,
    list: Seq<PlacedView<Cursor>>,
    i: int,
    ty: Type,
    features: WasmFeatures,
)
    requires
        0 <= i <= list.len(),
        forall|k: int| 0 <= k < list.len() ==> (#[trigger] list[k]).item.wf(),
    ensures
        m.element_expressions(list, i, ty, features).1 is Ok <==> forall|k: int|
            i <= k < list.len() ==> m.const_expr(
                fresh(),
                (#[trigger] list[k]).item,
                ty,
                features,
            ) is Ok,
    decreases list.len() - i,
{
    if i < list.len() {
        if let Ok(refs) = m.init_expr(list[i].item, ty, features) {
            let next = m.refer(refs);
            lemma_element_expressions(next, list, i + 1, ty, features);
            assert forall|k: int| i + 1 <= k < list.len() implies next.const_expr(
                fresh(),
                (#[trigger] list[k]).item,
                ty,
                features,
            ) == m.const_expr(fresh(), list[k].item, ty, features) by {
                lemma_same_constants(m, next, fresh(), list[k].item, ty, features);
            }
            if m.element_expressions(list, i, ty, features).1 is Ok {
                assert forall|k: int| i <= k < list.len() implies m.const_expr(
                    fresh(),
                    (#[trigger] list[k]).item,
                    ty,
                    features,
                ) is Ok by {
                    if k > i {
                        assert(next.const_expr(fresh(), list[k].item, ty, features) is Ok);
                    }
                }
            } else {
                let k = choose|k: int|
                    i + 1 <= k < list.len() && !(next.const_expr(
                        fresh(),
                        (#[trigger] list[k]).item,
                        ty,
                        features,
                    ) is Ok);
                assert(!(m.const_expr(fresh(), list[k].item, ty, features) is Ok));
            }
        } else {
            assert(!(m.const_expr(fresh(), list[i].item, ty, features) is Ok));
        }
    }
}

/// The elements of a segment of a type can be had: functions that are there, in a segment of
/// functions, or constants of the type; at most ten million of them.
pub open spec fn good_elements(
    m: ModuleView,
    items: ElementItemsView,
    ty: Type,
    features: WasmFeatures,
) -> bool {
    match items {
        ElementItemsView::Functions(list) => {
            &&& list.len() <= 10_000_000
            &&& forall|k: int|
                0 <= k < list.len() ==> ty == Type::FuncRef && (#[trigger] list[k]).item
                    < m.functions.len()
        },
        ElementItemsView::Expressions(list) => {
            &&& list.len() <= 10_000_000
            &&& forall|k: int|
                0 <= k < list.len() ==> m.const_expr(
                    fresh(),
                    (#[trigger] list[k]).item,
                    ty,
                    features,
                ) is Ok
        },
    }
}

/// An element segment holds references. If it is active it goes to a table of its type, to a place
/// that is a 32-bit integer; if not it needs the bulk memory proposal. It comes behind those that
/// there are, and code can refer to its functions.
pub proof fn law_add_element(
    m: ModuleView,
    element: ElementView,
    features: WasmFeatures,
    offset: int,
)
    requires
        element.kind matches ElementKindView::Active { init_expr, .. } ==> init_expr.wf(),
        element.items matches ElementItemsView::Expressions(list) ==> forall|k: int|
            0 <= k < list.len() ==> (#[trigger] list[k]).item.wf(),
    ensures
        ({
            let (n, result) = m.add_element_segment(element, features, offset);
            &&& result is Ok <==> {
                &&& element.ty == Type::FuncRef || (element.ty == Type::ExternRef
                    && features.reference_types)
                &&& match element.kind {
                    ElementKindView::Active { table_index, init_expr } => {
                        &&& table_index < m.tables.len()
                        &&& m.tables[table_index as int].element_type == element.ty
                        &&& m.const_expr(fresh(), init_expr, Type::I32, features) is Ok
                    },
                    _ => features.bulk_memory,
                }
                &&& good_elements(m, element.items, element.ty, features)
            }
            &&& result is Ok ==> {
                &&& n == (ModuleView {
                    element_types: m.element_types.push(element.ty),
                    function_references: n.function_references,
                    ..m
                })
                &&& element.items matches ElementItemsView::Functions(list) ==> forall|k: int|
                    0 <= k < list.len() ==> n.function_references.contains(
                        (#[trigger] list[k]).item,
                    )
            }
        }),
{
    m.lemma_element_keeps(element, features, offset);
    if let Ok(refs) = m.element_kind(element, features, offset) {
        let next = m.refer(refs);
        match element.items {
            ElementItemsView::Functions(list) => {
                lemma_element_functions(next, list, 0, element.ty);
                let (n, result) = next.element_functions(list, 0, element.ty);
                if result is Ok {
                    assert forall|k: int| 0 <= k < list.len() implies n.function_references.contains(
                        (#[trigger] list[k]).item,
                    ) by {}
                }
            },
            ElementItemsView::Expressions(list) => {
                lemma_element_expressions(next, list, 0, element.ty, features);
                assert forall|k: int| 0 <= k < list.len() implies next.const_expr(
                    fresh(),
                    (#[trigger] list[k]).item,
                    element.ty,
                    features,
                ) == m.const_expr(fresh(), list[k].item, element.ty, features) by {
                    lemma_same_constants(m, next, fresh(), list[k].item, element.ty, features);
                }
                if good_elements(m, element.items, element.ty, features) {
                    assert forall|k: int| 0 <= k < list.len() implies next.const_expr(
                        fresh(),
                        (#[trigger] list[k]).item,
                        element.ty,
                        features,
                    ) is Ok by {
                        assert(m.const_expr(fresh(), list[k].item, element.ty, features) is Ok);
                    }
                }
            },
        }
        next.lemma_keeps_types(element, features, offset);
    }
}

} // verus!
