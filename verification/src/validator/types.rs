//! The types that validation knows.

use super::names::NameMap;
use crate::reader::component::types::PrimitiveInterfaceType;
use crate::reader::types::{views, FuncType, FuncTypeView, GlobalType, MemoryType, TableType};
use std::sync::Arc;
use vstd::prelude::*;

verus! {

/// The type of something that a module imports or exports, with types of
/// functions by their place in the list of all types.
#[derive(Debug, Copy, Clone, PartialEq, Eq, Structural)]
pub enum EntityType {
    /// A function.
    Func(usize),
    /// A table.
    Table(TableType),
    /// A memory.
    Memory(MemoryType),
    /// A global.
    Global(GlobalType),
    /// A tag.
    Tag(usize),
}

impl EntityType {
    /// The places that the type speaks of are those of types of core functions.
    pub open spec fn ok(self, types: Seq<DefinedTypeView>) -> bool {
        match self {
            EntityType::Func(place) => is_func_type(types, place),
            EntityType::Tag(place) => is_func_type(types, place),
            _ => true,
        }
    }
}

/// `place` is that of the type of a core function.
pub open spec fn is_func_type(types: Seq<DefinedTypeView>, place: usize) -> bool {
    place < types.len() && types[place as int] is Func
}

/// An import of a module.
pub struct ModuleImport {
    /// The module that is imported from.
    pub module: String,
    /// The name of what is imported.
    pub name: String,
    /// Its type.
    pub ty: EntityType,
}

/// What a [`ModuleImport`] holds.
pub struct ModuleImportView {
    /// The module that is imported from.
    pub module: Seq<char>,
    /// The name of what is imported.
    pub name: Seq<char>,
    /// Its type.
    pub ty: EntityType,
}

impl View for ModuleImport {
    type V = ModuleImportView;

    open spec fn view(&self) -> ModuleImportView {
        ModuleImportView { module: self.module@, name: self.name@, ty: self.ty }
    }
}

/// All that is imported is of a type that there is.
pub open spec fn imports_ok(imports: Seq<ModuleImportView>, types: Seq<DefinedTypeView>) -> bool {
    forall|i: int| 0 <= i < imports.len() ==> (#[trigger] imports[i]).ty.ok(types)
}

/// All that is exported is of a type that there is.
pub open spec fn exports_ok(
    exports: Seq<(Seq<char>, EntityType)>,
    types: Seq<DefinedTypeView>,
) -> bool {
    forall|i: int| 0 <= i < exports.len() ==> (#[trigger] exports[i]).1.ok(types)
}

/// An interface type where one is used: a primitive one, or the one at a place in
/// the list of all types.
#[derive(Debug, Copy, Clone, PartialEq, Eq, Structural)]
pub enum TypeUse {
    /// A type without parts.
    Primitive(PrimitiveInterfaceType),
    /// The type at a place.
    Type(usize),
}

impl TypeUse {
    /// The place is that of an interface type.
    pub open spec fn ok(self, types: Seq<DefinedTypeView>) -> bool {
        match self {
            TypeUse::Primitive(_) => true,
            TypeUse::Type(place) => place < types.len() && types[place as int] is Interface,
        }
    }
}

/// All types of a list are there.
pub open spec fn uses_ok(uses: Seq<TypeUse>, types: Seq<DefinedTypeView>) -> bool {
    forall|i: int| 0 <= i < uses.len() ==> (#[trigger] uses[i]).ok(types)
}

/// The type of something that a component imports or exports, by its place in
/// the list of all types.
#[derive(Debug, Copy, Clone, PartialEq, Eq, Structural)]
pub enum ComponentEntityType {
    /// A module.
    Module(usize),
    /// A component.
    Component(usize),
    /// An instance.
    Instance(usize),
    /// A function.
    Func(usize),
    /// A value.
    Value(TypeUse),
    /// A type.
    Type(usize),
}

impl ComponentEntityType {
    /// The place is that of a type of the right kind.
    pub open spec fn ok(self, types: Seq<DefinedTypeView>) -> bool {
        match self {
            ComponentEntityType::Module(place) => is_module_type(types, place),
            ComponentEntityType::Component(place) => is_component_type(types, place),
            ComponentEntityType::Instance(place) => is_instance_type(types, place),
            ComponentEntityType::Func(place) => is_component_func_type(types, place),
            ComponentEntityType::Value(ty) => ty.ok(types),
            ComponentEntityType::Type(place) => place < types.len(),
        }
    }
}

/// `place` is that of the type of a module.
pub open spec fn is_module_type(types: Seq<DefinedTypeView>, place: usize) -> bool {
    place < types.len() && types[place as int] is Module
}

/// `place` is that of the type of a component.
pub open spec fn is_component_type(types: Seq<DefinedTypeView>, place: usize) -> bool {
    place < types.len() && types[place as int] is Component
}

/// `place` is that of the type of an instance of a component.
pub open spec fn is_instance_type(types: Seq<DefinedTypeView>, place: usize) -> bool {
    place < types.len() && types[place as int] is Instance
}

/// `place` is that of the type of a component function.
pub open spec fn is_component_func_type(types: Seq<DefinedTypeView>, place: usize) -> bool {
    place < types.len() && types[place as int] is ComponentFunc
}

/// All names stand for something of a type that there is.
pub open spec fn entities_ok(
    entities: Seq<(Seq<char>, ComponentEntityType)>,
    types: Seq<DefinedTypeView>,
) -> bool {
    forall|i: int| 0 <= i < entities.len() ==> (#[trigger] entities[i]).1.ok(types)
}

/// The type of a module.
pub struct ModuleDef {
    /// What it imports.
    pub imports: Vec<ModuleImport>,
    /// What it exports.
    pub exports: NameMap<EntityType>,
}

/// What a [`ModuleDef`] holds.
pub struct ModuleDefView {
    /// What it imports.
    pub imports: Seq<ModuleImportView>,
    /// What it exports.
    pub exports: Seq<(Seq<char>, EntityType)>,
}

impl View for ModuleDef {
    type V = ModuleDefView;

    open spec fn view(&self) -> ModuleDefView {
        ModuleDefView { imports: views(self.imports@), exports: self.exports@ }
    }
}

/// The type of a component.
pub struct ComponentDef {
    /// What it imports.
    pub imports: NameMap<ComponentEntityType>,
    /// What it exports.
    pub exports: NameMap<ComponentEntityType>,
}

/// What a [`ComponentDef`] holds.
pub struct ComponentDefView {
    /// What it imports.
    pub imports: Seq<(Seq<char>, ComponentEntityType)>,
    /// What it exports.
    pub exports: Seq<(Seq<char>, ComponentEntityType)>,
}

impl View for ComponentDef {
    type V = ComponentDefView;

    open spec fn view(&self) -> ComponentDefView {
        ComponentDefView { imports: self.imports@, exports: self.exports@ }
    }
}

/// A parameter of a component function.
pub struct ParamDef {
    /// The name, if there is one.
    pub name: Option<String>,
    /// The type.
    pub ty: TypeUse,
}

/// What a [`ParamDef`] holds.
pub struct ParamDefView {
    /// The name, if there is one.
    pub name: Option<Seq<char>>,
    /// The type.
    pub ty: TypeUse,
}

impl View for ParamDef {
    type V = ParamDefView;

    open spec fn view(&self) -> ParamDefView {
        ParamDefView {
            name: match self.name {
                Some(name) => Some(name@),
                None => None,
            },
            ty: self.ty,
        }
    }
}

/// The type of a component function.
pub struct FuncDef {
    /// What it takes.
    pub params: Vec<ParamDef>,
    /// What it gives.
    pub result: TypeUse,
}

/// What a [`FuncDef`] holds.
pub struct FuncDefView {
    /// What it takes.
    pub params: Seq<ParamDefView>,
    /// What it gives.
    pub result: TypeUse,
}

impl View for FuncDef {
    type V = FuncDefView;

    open spec fn view(&self) -> FuncDefView {
        FuncDefView { params: views(self.params@), result: self.result }
    }
}

/// A case of a variant.
#[derive(Debug, Copy, Clone, PartialEq, Eq, Structural)]
pub struct CaseDef {
    /// The type of what the case carries.
    pub ty: TypeUse,
    /// The case that this one can be taken for.
    pub default_to: Option<u32>,
}

/// An interface type.
pub enum InterfaceDef {
    /// A type without parts.
    Primitive(PrimitiveInterfaceType),
    /// Named fields.
    Record(NameMap<TypeUse>),
    /// One of many cases.
    Variant(NameMap<CaseDef>),
    /// Any number of values.
    List(TypeUse),
    /// Values one behind the other.
    Tuple(Vec<TypeUse>),
    /// A set of names.
    Flags(NameMap<()>),
    /// One of many names.
    Enum(NameMap<()>),
    /// A value of one of many types.
    Union(Vec<TypeUse>),
    /// A value or none.
    Option(TypeUse),
    /// A value or an error.
    Expected {
        /// The value.
        ok: TypeUse,
        /// The error.
        error: TypeUse,
    },
}

/// What an [`InterfaceDef`] holds.
pub enum InterfaceDefView {
    /// A type without parts.
    Primitive(PrimitiveInterfaceType),
    /// Named fields.
    Record(Seq<(Seq<char>, TypeUse)>),
    /// One of many cases.
    Variant(Seq<(Seq<char>, CaseDef)>),
    /// Any number of values.
    List(TypeUse),
    /// Values one behind the other.
    Tuple(Seq<TypeUse>),
    /// A set of names.
    Flags(Seq<(Seq<char>, ())>),
    /// One of many names.
    Enum(Seq<(Seq<char>, ())>),
    /// A value of one of many types.
    Union(Seq<TypeUse>),
    /// A value or none.
    Option(TypeUse),
    /// A value or an error.
    Expected {
        /// The value.
        ok: TypeUse,
        /// The error.
        error: TypeUse,
    },
}

impl View for InterfaceDef {
    type V = InterfaceDefView;

    open spec fn view(&self) -> InterfaceDefView {
        match self {
            InterfaceDef::Primitive(ty) => InterfaceDefView::Primitive(*ty),
            InterfaceDef::Record(fields) => InterfaceDefView::Record(fields@),
            InterfaceDef::Variant(cases) => InterfaceDefView::Variant(cases@),
            InterfaceDef::List(ty) => InterfaceDefView::List(*ty),
            InterfaceDef::Tuple(types) => InterfaceDefView::Tuple(types@),
            InterfaceDef::Flags(names) => InterfaceDefView::Flags(names@),
            InterfaceDef::Enum(names) => InterfaceDefView::Enum(names@),
            InterfaceDef::Union(types) => InterfaceDefView::Union(types@),
            InterfaceDef::Option(ty) => InterfaceDefView::Option(*ty),
            InterfaceDef::Expected { ok, error } => InterfaceDefView::Expected {
                ok: *ok,
                error: *error,
            },
        }
    }
}

/// The types of all fields are there.
pub open spec fn fields_ok(
    fields: Seq<(Seq<char>, TypeUse)>,
    types: Seq<DefinedTypeView>,
) -> bool {
    forall|i: int| 0 <= i < fields.len() ==> (#[trigger] fields[i]).1.ok(types)
}

/// The types of what all cases carry are there.
pub open spec fn cases_ok(cases: Seq<(Seq<char>, CaseDef)>, types: Seq<DefinedTypeView>) -> bool {
    forall|i: int| 0 <= i < cases.len() ==> (#[trigger] cases[i]).1.ty.ok(types)
}

impl InterfaceDefView {
    /// The types that the type is made of are there.
    pub open spec fn ok(self, types: Seq<DefinedTypeView>) -> bool {
        match self {
            InterfaceDefView::Record(fields) => fields_ok(fields, types),
            InterfaceDefView::Variant(cases) => cases_ok(cases, types),
            InterfaceDefView::List(ty) => ty.ok(types),
            InterfaceDefView::Tuple(uses) => uses_ok(uses, types),
            InterfaceDefView::Union(uses) => uses_ok(uses, types),
            InterfaceDefView::Option(ty) => ty.ok(types),
            InterfaceDefView::Expected { ok, error } => ok.ok(types) && error.ok(types),
            _ => true,
        }
    }
}

/// A type that has been validated.
pub enum DefinedType {
    /// The type of a core function.
    Func(FuncType),
    /// The type of a module.
    Module(ModuleDef),
    /// The type of a component.
    Component(ComponentDef),
    /// The type of an instance of a component: its exports.
    Instance(NameMap<ComponentEntityType>),
    /// The type of an instance of a module: its exports.
    ModuleInstance(NameMap<EntityType>),
    /// The type of a component function.
    ComponentFunc(FuncDef),
    /// The type of a value.
    Value(TypeUse),
    /// An interface type.
    Interface(InterfaceDef),
}

/// What a [`DefinedType`] holds.
pub enum DefinedTypeView {
    /// The type of a core function.
    Func(FuncTypeView),
    /// The type of a module.
    Module(ModuleDefView),
    /// The type of a component.
    Component(ComponentDefView),
    /// The type of an instance of a component: its exports.
    Instance(Seq<(Seq<char>, ComponentEntityType)>),
    /// The type of an instance of a module: its exports.
    ModuleInstance(Seq<(Seq<char>, EntityType)>),
    /// The type of a component function.
    ComponentFunc(FuncDefView),
    /// The type of a value.
    Value(TypeUse),
    /// An interface type.
    Interface(InterfaceDefView),
}

impl View for DefinedType {
    type V = DefinedTypeView;

    open spec fn view(&self) -> DefinedTypeView {
        match self {
            DefinedType::Func(ty) => DefinedTypeView::Func(ty@),
            DefinedType::Module(ty) => DefinedTypeView::Module(ty@),
            DefinedType::Component(ty) => DefinedTypeView::Component(ty@),
            DefinedType::Instance(exports) => DefinedTypeView::Instance(exports@),
            DefinedType::ModuleInstance(exports) => DefinedTypeView::ModuleInstance(exports@),
            DefinedType::ComponentFunc(ty) => DefinedTypeView::ComponentFunc(ty@),
            DefinedType::Value(ty) => DefinedTypeView::Value(*ty),
            DefinedType::Interface(ty) => DefinedTypeView::Interface(ty@),
        }
    }
}

impl DefinedTypeView {
    /// The types that the type speaks of are there.
    pub open spec fn ok(self, types: Seq<DefinedTypeView>) -> bool {
        match self {
            DefinedTypeView::Func(_) => true,
            DefinedTypeView::Module(ty) => imports_ok(ty.imports, types) && exports_ok(
                ty.exports,
                types,
            ),
            DefinedTypeView::Component(ty) => entities_ok(ty.imports, types) && entities_ok(
                ty.exports,
                types,
            ),
            DefinedTypeView::Instance(exports) => entities_ok(exports, types),
            DefinedTypeView::ModuleInstance(exports) => exports_ok(exports, types),
            DefinedTypeView::ComponentFunc(ty) => {
                &&& forall|i: int| 0 <= i < ty.params.len() ==> (#[trigger] ty.params[i]).ty.ok(types)
                &&& ty.result.ok(types)
            },
            DefinedTypeView::Value(ty) => ty.ok(types),
            DefinedTypeView::Interface(ty) => ty.ok(types),
        }
    }
}

/// Every type speaks only of types in front of it.
pub open spec fn types_ok(types: Seq<DefinedTypeView>) -> bool {
    forall|i: int| 0 <= i < types.len() ==> (#[trigger] types[i]).ok(types.take(i))
}

/// `list` starts with all of `start`.
pub open spec fn starts_with<A>(list: Seq<A>, start: Seq<A>) -> bool {
    start.len() <= list.len() && forall|i: int| 0 <= i < start.len() ==> list[i] == #[trigger] start[i]
}

/// What starts with a list starts with all that the list starts with.
pub proof fn lemma_starts_with_both<A>(list: Seq<A>, middle: Seq<A>, start: Seq<A>)
    requires
        starts_with(list, middle),
        starts_with(middle, start),
    ensures
        starts_with(list, start),
{
    assert forall|i: int| 0 <= i < start.len() implies list[i] == #[trigger] start[i] by {
        assert(list[i] == middle[i]);
    }
}

/// A type that speaks only of types that are there can be put behind them.
pub proof fn lemma_types_ok_push(types: Seq<DefinedTypeView>, ty: DefinedTypeView)
    requires
        types_ok(types),
        ty.ok(types),
    ensures
        types_ok(types.push(ty)),
{
    let longer = types.push(ty);
    assert forall|i: int| 0 <= i < longer.len() implies (#[trigger] longer[i]).ok(
        longer.take(i),
    ) by {
        if i < types.len() {
            assert(longer.take(i) =~= types.take(i));
            assert(types[i].ok(types.take(i)));
        } else {
            assert(longer.take(i) =~= types);
        }
    }
}

/// The list of all types that validation has met.
pub struct TypeList {
    types: Vec<Arc<DefinedType>>,
}

impl View for TypeList {
    type V = Seq<DefinedTypeView>;

    closed spec fn view(&self) -> Seq<DefinedTypeView> {
        self.types@.map_values(|ty: Arc<DefinedType>| (*ty)@)
    }
}

impl TypeList {
    /// A list without types.
    pub fn new() -> (list: TypeList)
        ensures
            list@ == Seq::<DefinedTypeView>::empty(),
    {
        let list = TypeList { types: Vec::new() };
        assert(list@ =~= Seq::<DefinedTypeView>::empty());
        list
    }

    /// How many types there are.
    pub fn len(&self) -> (len: usize)
        ensures
            len == self@.len(),
    {
        self.types.len()
    }

    /// The type at a place.
    pub fn get(&self, index: usize) -> (ty: &DefinedType)
        requires
            index < self@.len(),
        ensures
            ty@ == self@[index as int],
    {
        &self.types[index]
    }

    /// The type of a core function.
    pub fn func(&self, index: usize) -> (ty: &FuncType)
        requires
            is_func_type(self@, index),
        ensures
            ty@ == self@[index as int]->Func_0,
    {
        match self.get(index) {
            DefinedType::Func(ty) => ty,
            _ => vstd::pervasive::unreached(),
        }
    }

    /// The type of a module.
    pub fn module(&self, index: usize) -> (ty: &ModuleDef)
        requires
            is_module_type(self@, index),
        ensures
            ty@ == self@[index as int]->Module_0,
    {
        match self.get(index) {
            DefinedType::Module(ty) => ty,
            _ => vstd::pervasive::unreached(),
        }
    }

    /// The type of a component.
    pub fn component(&self, index: usize) -> (ty: &ComponentDef)
        requires
            is_component_type(self@, index),
        ensures
            ty@ == self@[index as int]->Component_0,
    {
        match self.get(index) {
            DefinedType::Component(ty) => ty,
            _ => vstd::pervasive::unreached(),
        }
    }

    /// The exports of an instance of a component.
    pub fn instance(&self, index: usize) -> (ty: &NameMap<ComponentEntityType>)
        requires
            is_instance_type(self@, index),
        ensures
            ty@ == self@[index as int]->Instance_0,
    {
        match self.get(index) {
            DefinedType::Instance(ty) => ty,
            _ => vstd::pervasive::unreached(),
        }
    }

    /// The exports of an instance of a module.
    pub fn module_instance(&self, index: usize) -> (ty: &NameMap<EntityType>)
        requires
            index < self@.len() && self@[index as int] is ModuleInstance,
        ensures
            ty@ == self@[index as int]->ModuleInstance_0,
    {
        match self.get(index) {
            DefinedType::ModuleInstance(ty) => ty,
            _ => vstd::pervasive::unreached(),
        }
    }

    /// The type of a component function.
    pub fn component_func(&self, index: usize) -> (ty: &FuncDef)
        requires
            is_component_func_type(self@, index),
        ensures
            ty@ == self@[index as int]->ComponentFunc_0,
    {
        match self.get(index) {
            DefinedType::ComponentFunc(ty) => ty,
            _ => vstd::pervasive::unreached(),
        }
    }

    /// An interface type.
    pub fn interface(&self, index: usize) -> (ty: &InterfaceDef)
        requires
            index < self@.len() && self@[index as int] is Interface,
        ensures
            ty@ == self@[index as int]->Interface_0,
    {
        match self.get(index) {
            DefinedType::Interface(ty) => ty,
            _ => vstd::pervasive::unreached(),
        }
    }

    /// Makes room for more types.
    pub fn reserve(&mut self, count: usize)
        ensures
            final(self)@ == old(self)@,
    {
        self.types.reserve(count);
    }

    /// Puts a type behind the others, and gives its place.
    pub fn push(&mut self, ty: DefinedType) -> (index: usize)
        ensures
            index == old(self)@.len(),
            final(self)@ == old(self)@.push(ty@),
    {
        let index = self.types.len();
        let ghost before = self@;
        self.types.push(Arc::new(ty));
        assert(self@ =~= before.push(ty@));
        index
    }

    /// The list as it is now, which later changes do not reach.
    pub fn commit(&self) -> (list: TypeList)
        ensures
            list@ == self@,
    {
        let mut types: Vec<Arc<DefinedType>> = Vec::new();
        let mut i: usize = 0;
        while i < self.types.len()
            invariant
                i <= self.types@.len(),
                types@ == self.types@.take(i as int),
            decreases self.types@.len() - i,
        {
            types.push(Arc::clone(&self.types[i]));
            i = i + 1;
        }
        TypeList { types }
    }
}

} // verus!
