//! The types that a component defines.

use super::component::{entity_of, entity_type, ComponentState, ComponentView};
use super::component_instances::{around, lemma_component_longer, module_def, stack_ok};
use super::features::WasmFeatures;
use super::module::{Module, ModuleView};
use super::names::{has_name, NameMap};
use super::types::{
    cases_ok, fields_ok, lemma_types_ok_push, lemma_starts_with_both, starts_with, types_ok,
    uses_ok, CaseDef, ComponentDef, DefinedType, DefinedTypeView, FuncDef, FuncDefView,
    InterfaceDef, InterfaceDefView, ParamDef, ParamDefView, TypeList, TypeUse,
};
use crate::error::{error_at, number_error_at, viewed, word_error_at, BinaryReaderError, Result};
use crate::reader::component::types::{
    ComponentFuncType, ComponentFuncTypeView, ComponentParam, ComponentParamView, ComponentType,
    ComponentTypeDef, ComponentTypeDefView, ComponentTypeView, InterfaceType, InterfaceTypeRef,
    InterfaceTypeView, ModuleType, ModuleTypeView, RecordField, RecordFieldView, VariantCase,
    VariantCaseView,
};
use crate::reader::types::views;
use vstd::prelude::*;

verus! {

/// The error for a name without characters; `what` says what it names.
pub open spec fn check_name(name: Seq<char>, what: &'static str, offset: int) -> Result<()> {
    if name.len() == 0 {
        Err(word_error_at("", what, " name cannot be empty", offset))
    } else {
        Ok(())
    }
}

/// The names from the `i`th on, each once, behind those of `acc`.
pub open spec fn name_set(
    names: Seq<Seq<char>>,
    i: int,
    acc: Seq<(Seq<char>, ())>,
    what: &'static str,
    duplicate: &'static str,
    offset: int,
) -> Result<Seq<(Seq<char>, ())>>
    decreases names.len() - i,
{
    if i < 0 || i >= names.len() {
        Ok(acc)
    } else {
        match check_name(names[i], what, offset) {
            Err(e) => Err(e),
            Ok(_) => if has_name(acc, names[i]) {
                Err(error_at(duplicate, offset))
            } else {
                name_set(names, i + 1, acc.push((names[i], ())), what, duplicate, offset)
            },
        }
    }
}

/// Puts what the declarations of the type of a module say, from the `i`th on, into
/// a module.
pub open spec fn declare_module(
    module: ModuleView,
    types: Seq<DefinedTypeView>,
    decls: Seq<ModuleTypeView>,
    i: int,
    features: WasmFeatures,
    offset: int,
) -> (ModuleView, Seq<DefinedTypeView>, Result<()>)
    decreases decls.len() - i,
{
    if i < 0 || i >= decls.len() {
        (module, types, Ok(()))
    } else {
        match (match decls[i] {
            ModuleTypeView::Type(ty) => module.add_type(types, ty, features, offset),
            ModuleTypeView::Export { name, ty } => match module.type_ref_at(
                types,
                ty,
                features,
                offset,
            ) {
                Err(e) => (module, types, Err(e)),
                Ok(ty) => {
                    let (m, r) = module.add_export(name, ty, features, offset);
                    (m, types, r)
                },
            },
            ModuleTypeView::Import(import) => {
                let (m, r) = module.add_import(types, import, features, offset);
                (m, types, r)
            },
        }) {
            (m, t, Err(e)) => (m, t, Err(e)),
            (m, t, Ok(_)) => declare_module(m, t, decls, i + 1, features, offset),
        }
    }
}

impl ComponentView {
    /// The interface type that is used.
    pub open spec fn resolve(
        self,
        types: Seq<DefinedTypeView>,
        ty: InterfaceTypeRef,
        offset: int,
    ) -> Result<TypeUse> {
        match ty {
            InterfaceTypeRef::Primitive(ty) => Ok(TypeUse::Primitive(ty)),
            InterfaceTypeRef::Type(index) => match self.type_at(index, offset) {
                Err(e) => Err(e),
                Ok(place) => if types[place as int] is Interface {
                    Ok(TypeUse::Type(place))
                } else {
                    Err(
                        number_error_at(
                            "type index ",
                            index as int,
                            " is not an interface type",
                            offset,
                        ),
                    )
                },
            },
        }
    }

    /// The interface types that are used, from the `i`th on, behind those of `acc`.
    pub open spec fn resolve_list(
        self,
        types: Seq<DefinedTypeView>,
        list: Seq<InterfaceTypeRef>,
        i: int,
        acc: Seq<TypeUse>,
        offset: int,
    ) -> Result<Seq<TypeUse>>
        decreases list.len() - i,
    {
        if i < 0 || i >= list.len() {
            Ok(acc)
        } else {
            match self.resolve(types, list[i], offset) {
                Err(e) => Err(e),
                Ok(ty) => self.resolve_list(types, list, i + 1, acc.push(ty), offset),
            }
        }
    }

    /// The parameters of a function, from the `i`th on, behind those of `acc`.
    pub open spec fn params(
        self,
        types: Seq<DefinedTypeView>,
        params: Seq<ComponentParamView>,
        i: int,
        acc: Seq<ParamDefView>,
        offset: int,
    ) -> Result<Seq<ParamDefView>>
        decreases params.len() - i,
    {
        if i < 0 || i >= params.len() {
            Ok(acc)
        } else {
            match (match params[i].name {
                Some(name) => check_name(name, "function parameter", offset),
                None => Ok(()),
            }) {
                Err(e) => Err(e),
                Ok(_) => match self.resolve(types, params[i].ty, offset) {
                    Err(e) => Err(e),
                    Ok(ty) => self.params(
                        types,
                        params,
                        i + 1,
                        acc.push(ParamDefView { name: params[i].name, ty }),
                        offset,
                    ),
                },
            }
        }
    }

    /// The type of a function.
    pub open spec fn func_def(
        self,
        types: Seq<DefinedTypeView>,
        ty: ComponentFuncTypeView,
        offset: int,
    ) -> Result<FuncDefView> {
        match self.params(types, ty.params, 0, Seq::empty(), offset) {
            Err(e) => Err(e),
            Ok(params) => match self.resolve(types, ty.result, offset) {
                Err(e) => Err(e),
                Ok(result) => Ok(FuncDefView { params, result }),
            },
        }
    }

    /// The fields of a record, from the `i`th on, behind those of `acc`.
    pub open spec fn fields(
        self,
        types: Seq<DefinedTypeView>,
        fields: Seq<RecordFieldView>,
        i: int,
        acc: Seq<(Seq<char>, TypeUse)>,
        offset: int,
    ) -> Result<Seq<(Seq<char>, TypeUse)>>
        decreases fields.len() - i,
    {
        if i < 0 || i >= fields.len() {
            Ok(acc)
        } else {
            match check_name(fields[i].name, "record field", offset) {
                Err(e) => Err(e),
                Ok(_) => match self.resolve(types, fields[i].ty, offset) {
                    Err(e) => Err(e),
                    Ok(ty) => if has_name(acc, fields[i].name) {
                        Err(error_at("duplicate field name in record type", offset))
                    } else {
                        self.fields(types, fields, i + 1, acc.push((fields[i].name, ty)), offset)
                    },
                },
            }
        }
    }

    /// The cases of a variant, from the `i`th on, behind those of `acc`.
    pub open spec fn cases(
        self,
        types: Seq<DefinedTypeView>,
        cases: Seq<VariantCaseView>,
        i: int,
        acc: Seq<(Seq<char>, CaseDef)>,
        offset: int,
    ) -> Result<Seq<(Seq<char>, CaseDef)>>
        decreases cases.len() - i,
    {
        if i < 0 || i >= cases.len() {
            Ok(acc)
        } else {
            match check_name(cases[i].name, "variant case", offset) {
                Err(e) => Err(e),
                Ok(_) => if cases[i].default_to is Some && cases[i].default_to->0 >= cases.len() {
                    Err(
                        number_error_at(
                            "variant case default index ",
                            cases[i].default_to->0 as int,
                            " is out of bounds",
                            offset,
                        ),
                    )
                } else {
                    match self.resolve(types, cases[i].ty, offset) {
                        Err(e) => Err(e),
                        Ok(ty) => if has_name(acc, cases[i].name) {
                            Err(error_at("duplicate case name in variant type", offset))
                        } else {
                            self.cases(
                                types,
                                cases,
                                i + 1,
                                acc.push(
                                    (
                                        cases[i].name,
                                        CaseDef { ty, default_to: cases[i].default_to },
                                    ),
                                ),
                                offset,
                            )
                        },
                    }
                },
            }
        }
    }

    /// An interface type.
    pub open spec fn interface_def(
        self,
        types: Seq<DefinedTypeView>,
        ty: InterfaceTypeView,
        offset: int,
    ) -> Result<InterfaceDefView> {
        match ty {
            InterfaceTypeView::Primitive(ty) => Ok(InterfaceDefView::Primitive(ty)),
            InterfaceTypeView::Record(fields) => match self.fields(
                types,
                fields,
                0,
                Seq::empty(),
                offset,
            ) {
                Err(e) => Err(e),
                Ok(fields) => Ok(InterfaceDefView::Record(fields)),
            },
            InterfaceTypeView::Variant(cases) => if cases.len() == 0 {
                Err(error_at("variant type must have at least one case", offset))
            } else {
                match self.cases(types, cases, 0, Seq::empty(), offset) {
                    Err(e) => Err(e),
                    Ok(cases) => Ok(InterfaceDefView::Variant(cases)),
                }
            },
            InterfaceTypeView::List(ty) => match self.resolve(types, ty, offset) {
                Err(e) => Err(e),
                Ok(ty) => Ok(InterfaceDefView::List(ty)),
            },
            InterfaceTypeView::Tuple(list) => match self.resolve_list(
                types,
                list,
                0,
                Seq::empty(),
                offset,
            ) {
                Err(e) => Err(e),
                Ok(list) => Ok(InterfaceDefView::Tuple(list)),
            },
            InterfaceTypeView::Flags(names) => match name_set(
                names,
                0,
                Seq::empty(),
                "flag",
                "duplicate flag name",
                offset,
            ) {
                Err(e) => Err(e),
                Ok(names) => Ok(InterfaceDefView::Flags(names)),
            },
            InterfaceTypeView::Enum(names) => if names.len() == 0 {
                Err(error_at("enum type must have at least one variant", offset))
            } else {
                match name_set(
                    names,
                    0,
                    Seq::empty(),
                    "enum tag",
                    "duplicate enum tag name",
                    offset,
                ) {
                    Err(e) => Err(e),
                    Ok(names) => Ok(InterfaceDefView::Enum(names)),
                }
            },
            InterfaceTypeView::Union(list) => if list.len() == 0 {
                Err(error_at("union type must have at least one type", offset))
            } else {
                match self.resolve_list(types, list, 0, Seq::empty(), offset) {
                    Err(e) => Err(e),
                    Ok(list) => Ok(InterfaceDefView::Union(list)),
                }
            },
            InterfaceTypeView::Option(ty) => match self.resolve(types, ty, offset) {
                Err(e) => Err(e),
                Ok(ty) => Ok(InterfaceDefView::Option(ty)),
            },
            InterfaceTypeView::Expected { ok, error } => match self.resolve(types, ok, offset) {
                Err(e) => Err(e),
                Ok(ok) => match self.resolve(types, error, offset) {
                    Err(e) => Err(e),
                    Ok(error) => Ok(InterfaceDefView::Expected { ok, error }),
                },
            },
        }
    }

    /// A type as it is defined; `outer` are the components around this one.
    pub open spec fn define(
        self,
        outer: Seq<ComponentView>,
        types: Seq<DefinedTypeView>,
        def: ComponentTypeDefView,
        features: WasmFeatures,
        offset: int,
    ) -> (Seq<DefinedTypeView>, Result<DefinedTypeView>)
        decreases def, 0int,
    {
        match def {
            ComponentTypeDefView::Module(decls) => match declare_module(
                ModuleView::empty(),
                types,
                decls,
                0,
                features,
                offset,
            ) {
                (m, t, Err(e)) => (t, Err(e)),
                (m, t, Ok(_)) => match module_def(m, offset) {
                    Err(e) => (t, Err(e)),
                    Ok(def) => (t, Ok(DefinedTypeView::Module(def))),
                },
            },
            ComponentTypeDefView::Component(decls) => match ComponentView::empty().declare(
                outer.push(self),
                types,
                decls,
                0,
                features,
                offset,
            ) {
                (c, t, Err(e)) => (t, Err(e)),
                (c, t, Ok(_)) => (t, Ok(DefinedTypeView::Component(c.def()))),
            },
            ComponentTypeDefView::Instance(decls) => match ComponentView::empty().declare(
                outer.push(self),
                types,
                decls,
                0,
                features,
                offset,
            ) {
                (c, t, Err(e)) => (t, Err(e)),
                (c, t, Ok(_)) => (t, Ok(DefinedTypeView::Instance(c.exports))),
            },
            ComponentTypeDefView::Function(ty) => match self.func_def(types, ty, offset) {
                Err(e) => (types, Err(e)),
                Ok(def) => (types, Ok(DefinedTypeView::ComponentFunc(def))),
            },
            ComponentTypeDefView::Value(ty) => match self.resolve(types, ty, offset) {
                Err(e) => (types, Err(e)),
                Ok(ty) => (types, Ok(DefinedTypeView::Value(ty))),
            },
            ComponentTypeDefView::Interface(ty) => match self.interface_def(types, ty, offset) {
                Err(e) => (types, Err(e)),
                Ok(def) => (types, Ok(DefinedTypeView::Interface(def))),
            },
        }
    }

    /// Puts what the declarations of the type of a component or of an instance say,
    /// from the `i`th on, into a component.
    pub open spec fn declare(
        self,
        outer: Seq<ComponentView>,
        types: Seq<DefinedTypeView>,
        decls: Seq<ComponentTypeView>,
        i: int,
        features: WasmFeatures,
        offset: int,
    ) -> (ComponentView, Seq<DefinedTypeView>, Result<()>)
        decreases decls, decls.len() - i,
    {
        if i < 0 || i >= decls.len() {
            (self, types, Ok(()))
        } else {
            match (match decls[i] {
                ComponentTypeView::Type(def) => match self.define(
                    outer,
                    types,
                    def,
                    features,
                    offset,
                ) {
                    (t, Err(e)) => (self, t, Err(e)),
                    (t, Ok(ty)) => (
                        ComponentView { types: self.types.push(t.len() as usize), ..self },
                        t.push(ty),
                        Ok(()),
                    ),
                },
                ComponentTypeView::OuterType { count, index } => {
                    let (c, r) = self.alias_type(outer, count, index, offset);
                    (c, types, r)
                },
                ComponentTypeView::Export { name, ty } => match self.type_at(ty, offset) {
                    Err(e) => (self, types, Err(e)),
                    Ok(place) => {
                        let (c, r) = self.add_export(name, entity_of(types, place), offset);
                        (c, types, r)
                    },
                },
                ComponentTypeView::Import(import) => {
                    let (c, r) = self.add_import(types, import, offset);
                    (c, types, r)
                },
            }) {
                (c, t, Err(e)) => (c, t, Err(e)),
                (c, t, Ok(_)) => c.declare(outer, t, decls, i + 1, features, offset),
            }
        }
    }

    /// Adds a type.
    pub open spec fn add_type(
        self,
        outer: Seq<ComponentView>,
        types: Seq<DefinedTypeView>,
        def: ComponentTypeDefView,
        features: WasmFeatures,
        offset: int,
    ) -> (ComponentView, Seq<DefinedTypeView>, Result<()>) {
        match self.define(outer, types, def, features, offset) {
            (t, Err(e)) => (self, t, Err(e)),
            (t, Ok(ty)) => (
                ComponentView { types: self.types.push(t.len() as usize), ..self },
                t.push(ty),
                Ok(()),
            ),
        }
    }
}

proof fn lemma_declare_module_grows(
    module: ModuleView,
    types: Seq<DefinedTypeView>,
    decls: Seq<ModuleTypeView>,
    i: int,
    features: WasmFeatures,
    offset: int,
)
    ensures
        starts_with(declare_module(module, types, decls, i, features, offset).1, types),
    decreases decls.len() - i,
{
    if 0 <= i < decls.len() {
        match decls[i] {
            ModuleTypeView::Type(ty) => {
                let (m, t, _) = module.add_type(types, ty, features, offset);
                lemma_declare_module_grows(m, t, decls, i + 1, features, offset);
                lemma_starts_with_both(
                    declare_module(m, t, decls, i + 1, features, offset).1,
                    t,
                    types,
                );
            },
            ModuleTypeView::Export { name, ty } => {
                if let Ok(ty) = module.type_ref_at(types, ty, features, offset) {
                    let (m, _) = module.add_export(name, ty, features, offset);
                    lemma_declare_module_grows(m, types, decls, i + 1, features, offset);
                }
            },
            ModuleTypeView::Import(import) => {
                let (m, _) = module.add_import(types, import, features, offset);
                lemma_declare_module_grows(m, types, decls, i + 1, features, offset);
            },
        }
    }
}

impl ComponentView {
    /// The definition of a type leaves the types that there are.
    pub proof fn lemma_define_grows(
        self,
        outer: Seq<ComponentView>,
        types: Seq<DefinedTypeView>,
        def: ComponentTypeDefView,
        features: WasmFeatures,
        offset: int,
    )
        ensures
            starts_with(self.define(outer, types, def, features, offset).0, types),
        decreases def, 0int,
    {
        match def {
            ComponentTypeDefView::Module(decls) => {
                lemma_declare_module_grows(
                    ModuleView::empty(),
                    types,
                    decls,
                    0,
                    features,
                    offset,
                );
            },
            ComponentTypeDefView::Component(decls) => {
                ComponentView::empty().lemma_declare_grows(
                    outer.push(self),
                    types,
                    decls,
                    0,
                    features,
                    offset,
                );
            },
            ComponentTypeDefView::Instance(decls) => {
                ComponentView::empty().lemma_declare_grows(
                    outer.push(self),
                    types,
                    decls,
                    0,
                    features,
                    offset,
                );
            },
            _ => {},
        }
    }

    proof fn lemma_declare_grows(
        self,
        outer: Seq<ComponentView>,
        types: Seq<DefinedTypeView>,
        decls: Seq<ComponentTypeView>,
        i: int,
        features: WasmFeatures,
        offset: int,
    )
        ensures
            starts_with(self.declare(outer, types, decls, i, features, offset).1, types),
        decreases decls, decls.len() - i,
    {
        if 0 <= i < decls.len() {
            match decls[i] {
                ComponentTypeView::Type(def) => {
                    self.lemma_define_grows(outer, types, def, features, offset);
                    if let (t, Ok(ty)) = self.define(outer, types, def, features, offset) {
                        let c = ComponentView { types: self.types.push(t.len() as usize), ..self };
                        let more = t.push(ty);
                        c.lemma_declare_grows(outer, more, decls, i + 1, features, offset);
                        lemma_starts_with_both(more, t, types);
                        lemma_starts_with_both(
                            c.declare(outer, more, decls, i + 1, features, offset).1,
                            more,
                            types,
                        );
                    }
                },
                ComponentTypeView::OuterType { count, index } => {
                    let (c, _) = self.alias_type(outer, count, index, offset);
                    c.lemma_declare_grows(outer, types, decls, i + 1, features, offset);
                },
                ComponentTypeView::Export { name, ty } => {
                    if let Ok(place) = self.type_at(ty, offset) {
                        let (c, _) = self.add_export(name, entity_of(types, place), offset);
                        c.lemma_declare_grows(outer, types, decls, i + 1, features, offset);
                    }
                },
                ComponentTypeView::Import(import) => {
                    let (c, _) = self.add_import(types, import, offset);
                    c.lemma_declare_grows(outer, types, decls, i + 1, features, offset);
                },
            }
        }
    }
}

fn is_named(name: &str, what: &'static str, offset: usize) -> (result: Result<()>)
    ensures
        result == check_name(name@, what, offset as int),
{
    if name.unicode_len() == 0 {
        return Err(BinaryReaderError::with_word("", what, " name cannot be empty", offset));
    }
    Ok(())
}

fn names_of(
    names: &Vec<&str>,
    what: &'static str,
    duplicate: &'static str,
    offset: usize,
) -> (result: Result<NameMap<()>>)
    ensures
        viewed(result) == name_set(
            views(names@),
            0,
            Seq::empty(),
            what,
            duplicate,
            offset as int,
        ),
{
    let mut map: NameMap<()> = NameMap::new();
    let mut i: usize = 0;
    while i < names.len()
        invariant
            i <= names@.len(),
            name_set(views(names@), 0, Seq::empty(), what, duplicate, offset as int) == name_set(
                views(names@),
                i as int,
                map@,
                what,
                duplicate,
                offset as int,
            ),
        decreases names@.len() - i,
    {
        let name = names[i];
        assert(views(names@)[i as int] == name@);
        is_named(name, what, offset)?;
        if !map.insert(name, ()) {
            return Err(BinaryReaderError::new(duplicate, offset));
        }
        i = i + 1;
    }
    Ok(map)
}

impl Module {
    fn declare(
        &mut self,
        decls: &Vec<ModuleType<'_>>,
        features: &WasmFeatures,
        types: &mut TypeList,
        offset: usize,
    ) -> (result: Result<()>)
        requires
            types_ok(old(types)@),
            old(self)@.wf(old(types)@),
        ensures
            types_ok(final(types)@),
            starts_with(final(types)@, old(types)@),
            final(self)@.wf(final(types)@),
            (final(self)@, final(types)@, result) == declare_module(
                old(self)@,
                old(types)@,
                views(decls@),
                0,
                *features,
                offset as int,
            ),
    {
        let mut i: usize = 0;
        while i < decls.len()
            invariant
                i <= decls@.len(),
                types_ok(types@),
                starts_with(types@, old(types)@),
                self@.wf(types@),
                declare_module(
                    old(self)@,
                    old(types)@,
                    views(decls@),
                    0,
                    *features,
                    offset as int,
                ) == declare_module(
                    self@,
                    types@,
                    views(decls@),
                    i as int,
                    *features,
                    offset as int,
                ),
            decreases decls@.len() - i,
        {
            assert(views(decls@)[i as int] == decls@[i as int]@);
            let ghost before = types@;
            match &decls[i] {
                ModuleType::Type(ty) => {
                    proof {
                        match ty@ {
                            crate::reader::types::TypeDefView::Func(ty) => {
                                lemma_types_ok_push(types@, DefinedTypeView::Func(ty));
                            },
                        }
                    }
                    self.add_type(ty, features, types, offset)?;
                    assert(starts_with(types@, before));
                },
                ModuleType::Export { name, ty } => {
                    let ty = self.check_type_ref(ty, features, types, offset)?;
                    let ghost m = self@;
                    self.add_export(name, ty, features, offset)?;
                    assert(self@.wf(types@)) by {
                        assert(self@ == (ModuleView {
                            exports: m.exports.push((name@, ty)),
                            ..m
                        }));
                    }
                },
                ModuleType::Import(import) => {
                    self.add_import(*import, features, types, offset)?;
                },
            }
            i = i + 1;
        }
        Ok(())
    }
}

impl ComponentState {
    fn resolve(&self, ty: InterfaceTypeRef, types: &TypeList, offset: usize) -> (result: Result<
        TypeUse,
    >)
        requires
            self@.wf(types@),
        ensures
            result == self@.resolve(types@, ty, offset as int),
            result matches Ok(ty) ==> ty.ok(types@),
    {
        match ty {
            InterfaceTypeRef::Primitive(ty) => Ok(TypeUse::Primitive(ty)),
            InterfaceTypeRef::Type(index) => {
                let place = self.type_at(index, offset)?;
                assert(place < types@.len());
                if matches!(types.get(place), DefinedType::Interface(_)) {
                    Ok(TypeUse::Type(place))
                } else {
                    Err(
                        BinaryReaderError::with_number(
                            "type index ",
                            index as u64,
                            " is not an interface type",
                            offset,
                        ),
                    )
                }
            },
        }
    }

    fn resolve_list(&self, list: &Vec<InterfaceTypeRef>, types: &TypeList, offset: usize) -> (result:
        Result<Vec<TypeUse>>)
        requires
            self@.wf(types@),
        ensures
            viewed(result) == self@.resolve_list(
                types@,
                views(list@),
                0,
                Seq::empty(),
                offset as int,
            ),
            result matches Ok(uses) ==> uses_ok(uses@, types@),
    {
        let mut uses: Vec<TypeUse> = Vec::new();
        let mut i: usize = 0;
        while i < list.len()
            invariant
                i <= list@.len(),
                self@.wf(types@),
                uses_ok(uses@, types@),
                self@.resolve_list(types@, views(list@), 0, Seq::empty(), offset as int)
                    == self@.resolve_list(types@, views(list@), i as int, uses@, offset as int),
            decreases list@.len() - i,
        {
            assert(views(list@)[i as int] == list@[i as int]);
            let ty = self.resolve(list[i], types, offset)?;
            uses.push(ty);
            i = i + 1;
        }
        Ok(uses)
    }

    fn create_params(&self, params: &Vec<ComponentParam<'_>>, types: &TypeList, offset: usize) -> (
    result: Result<Vec<ParamDef>>)
        requires
            self@.wf(types@),
        ensures
            match (result, self@.params(types@, views(params@), 0, Seq::empty(), offset as int)) {
                (Ok(list), Ok(s)) => views(list@) == s,
                (Err(e), Err(f)) => e == f,
                _ => false,
            },
            result matches Ok(list) ==> forall|i: int|
                0 <= i < list@.len() ==> (#[trigger] views(list@)[i]).ty.ok(types@),
    {
        let mut list: Vec<ParamDef> = Vec::new();
        let mut i: usize = 0;
        assert(views(list@) =~= Seq::<ParamDefView>::empty());
        while i < params.len()
            invariant
                i <= params@.len(),
                self@.wf(types@),
                forall|i: int| 0 <= i < list@.len() ==> (#[trigger] views(list@)[i]).ty.ok(types@),
                self@.params(types@, views(params@), 0, Seq::empty(), offset as int)
                    == self@.params(
                    types@,
                    views(params@),
                    i as int,
                    views(list@),
                    offset as int,
                ),
            decreases params@.len() - i,
        {
            let param = &params[i];
            assert(views(params@)[i as int] == param@);
            let name = match param.name {
                Some(name) => {
                    is_named(name, "function parameter", offset)?;
                    Some(name.to_owned())
                },
                None => None,
            };
            let ty = self.resolve(param.ty, types, offset)?;
            let ghost before = views(list@);
            let def = ParamDef { name, ty };
            list.push(def);
            assert(views(list@) =~= before.push(def@));
            i = i + 1;
        }
        Ok(list)
    }

    fn create_function_type(&self, ty: &ComponentFuncType<'_>, types: &TypeList, offset: usize) -> (
    result: Result<FuncDef>)
        requires
            self@.wf(types@),
        ensures
            viewed(result) == self@.func_def(types@, ty@, offset as int),
            result matches Ok(def) ==> DefinedTypeView::ComponentFunc(def@).ok(types@),
    {
        let params = self.create_params(&ty.params, types, offset)?;
        let result = self.resolve(ty.result, types, offset)?;
        Ok(FuncDef { params, result })
    }

    fn create_record(&self, fields: &Vec<RecordField<'_>>, types: &TypeList, offset: usize) -> (result:
        Result<NameMap<TypeUse>>)
        requires
            self@.wf(types@),
        ensures
            viewed(result) == self@.fields(types@, views(fields@), 0, Seq::empty(), offset as int),
            result matches Ok(map) ==> fields_ok(map@, types@),
    {
        let mut map: NameMap<TypeUse> = NameMap::new();
        let mut i: usize = 0;
        while i < fields.len()
            invariant
                i <= fields@.len(),
                self@.wf(types@),
                fields_ok(map@, types@),
                self@.fields(types@, views(fields@), 0, Seq::empty(), offset as int)
                    == self@.fields(types@, views(fields@), i as int, map@, offset as int),
            decreases fields@.len() - i,
        {
            let field = &fields[i];
            assert(views(fields@)[i as int] == field@);
            is_named(field.name, "record field", offset)?;
            let ty = self.resolve(field.ty, types, offset)?;
            if !map.insert(field.name, ty) {
                return Err(BinaryReaderError::new("duplicate field name in record type", offset));
            }
            i = i + 1;
        }
        Ok(map)
    }

    fn create_variant(&self, cases: &Vec<VariantCase<'_>>, types: &TypeList, offset: usize) -> (result:
        Result<NameMap<CaseDef>>)
        requires
            self@.wf(types@),
        ensures
            viewed(result) == self@.cases(types@, views(cases@), 0, Seq::empty(), offset as int),
            result matches Ok(map) ==> cases_ok(map@, types@),
    {
        let mut map: NameMap<CaseDef> = NameMap::new();
        let mut i: usize = 0;
        while i < cases.len()
            invariant
                i <= cases@.len(),
                self@.wf(types@),
                cases_ok(map@, types@),
                self@.cases(types@, views(cases@), 0, Seq::empty(), offset as int) == self@.cases(
                    types@,
                    views(cases@),
                    i as int,
                    map@,
                    offset as int,
                ),
            decreases cases@.len() - i,
        {
            let case = &cases[i];
            assert(views(cases@)[i as int] == case@);
            is_named(case.name, "variant case", offset)?;
            if let Some(default) = case.default_to {
                if default as usize >= cases.len() {
                    return Err(
                        BinaryReaderError::with_number(
                            "variant case default index ",
                            default as u64,
                            " is out of bounds",
                            offset,
                        ),
                    );
                }
            }
            let ty = self.resolve(case.ty, types, offset)?;
            if !map.insert(case.name, CaseDef { ty, default_to: case.default_to }) {
                return Err(BinaryReaderError::new("duplicate case name in variant type", offset));
            }
            i = i + 1;
        }
        Ok(map)
    }

    fn create_interface_type(&self, ty: &InterfaceType<'_>, types: &TypeList, offset: usize) -> (
    result: Result<InterfaceDef>)
        requires
            self@.wf(types@),
        ensures
            viewed(result) == self@.interface_def(types@, ty@, offset as int),
            result matches Ok(def) ==> def@.ok(types@),
    {
        match ty {
            InterfaceType::Primitive(ty) => Ok(InterfaceDef::Primitive(*ty)),
            InterfaceType::Record(fields) => Ok(
                InterfaceDef::Record(self.create_record(fields, types, offset)?),
            ),
            InterfaceType::Variant(cases) => {
                if cases.len() == 0 {
                    return Err(
                        BinaryReaderError::new("variant type must have at least one case", offset),
                    );
                }
                Ok(InterfaceDef::Variant(self.create_variant(cases, types, offset)?))
            },
            InterfaceType::List(ty) => Ok(InterfaceDef::List(self.resolve(*ty, types, offset)?)),
            InterfaceType::Tuple(list) => Ok(
                InterfaceDef::Tuple(self.resolve_list(list, types, offset)?),
            ),
            InterfaceType::Flags(names) => Ok(
                InterfaceDef::Flags(names_of(names, "flag", "duplicate flag name", offset)?),
            ),
            InterfaceType::Enum(names) => {
                if names.len() == 0 {
                    return Err(
                        BinaryReaderError::new("enum type must have at least one variant", offset),
                    );
                }
                Ok(
                    InterfaceDef::Enum(
                        names_of(names, "enum tag", "duplicate enum tag name", offset)?,
                    ),
                )
            },
            InterfaceType::Union(list) => {
                if list.len() == 0 {
                    return Err(
                        BinaryReaderError::new("union type must have at least one type", offset),
                    );
                }
                Ok(InterfaceDef::Union(self.resolve_list(list, types, offset)?))
            },
            InterfaceType::Option(ty) => Ok(
                InterfaceDef::Option(self.resolve(*ty, types, offset)?),
            ),
            InterfaceType::Expected { ok, error } => {
                let ok = self.resolve(*ok, types, offset)?;
                let error = self.resolve(*error, types, offset)?;
                Ok(InterfaceDef::Expected { ok, error })
            },
        }
    }

    fn define(
        components: &mut Vec<ComponentState>,
        def: &ComponentTypeDef<'_>,
        features: &WasmFeatures,
        types: &mut TypeList,
        offset: usize,
    ) -> (result: Result<DefinedType>)
        requires
            types_ok(old(types)@),
            old(components)@.len() > 0,
            stack_ok(views(old(components)@), old(types)@),
        ensures
            types_ok(final(types)@),
            starts_with(final(types)@, old(types)@),
            views(final(components)@) == views(old(components)@),
            ({
                let stack = views(old(components)@);
                (final(types)@, viewed(result)) == stack.last().define(
                    around(stack),
                    old(types)@,
                    def@,
                    *features,
                    offset as int,
                )
            }),
            result matches Ok(ty) ==> ty@.ok(final(types)@),
        decreases def, 0int,
    {
        let ghost stack = views(components@);
        assert(stack.last() == components@.last()@);
        assert(around(stack).push(stack.last()) =~= stack);
        match def {
            ComponentTypeDef::Module(decls) => {
                let mut module = Module::new();
                module.declare(decls, features, types, offset)?;
                Ok(DefinedType::Module(module.type_of(offset)?))
            },
            ComponentTypeDef::Component(decls) => {
                assert(def@->Component_0 =~= views(decls@));
                let component = Self::define_nested(components, decls, features, types, offset)?;
                Ok(
                    DefinedType::Component(
                        ComponentDef { imports: component.imports, exports: component.exports },
                    ),
                )
            },
            ComponentTypeDef::Instance(decls) => {
                assert(def@->Instance_0 =~= views(decls@));
                let component = Self::define_nested(components, decls, features, types, offset)?;
                Ok(DefinedType::Instance(component.exports))
            },
            ComponentTypeDef::Function(ty) => Ok(
                DefinedType::ComponentFunc(
                    components[components.len() - 1].create_function_type(ty, types, offset)?,
                ),
            ),
            ComponentTypeDef::Value(ty) => Ok(
                DefinedType::Value(components[components.len() - 1].resolve(*ty, types, offset)?),
            ),
            ComponentTypeDef::Interface(ty) => Ok(
                DefinedType::Interface(
                    components[components.len() - 1].create_interface_type(ty, types, offset)?,
                ),
            ),
        }
    }

    fn define_nested(
        components: &mut Vec<ComponentState>,
        decls: &Vec<ComponentType<'_>>,
        features: &WasmFeatures,
        types: &mut TypeList,
        offset: usize,
    ) -> (result: Result<ComponentState>)
        requires
            types_ok(old(types)@),
            stack_ok(views(old(components)@), old(types)@),
        ensures
            types_ok(final(types)@),
            starts_with(final(types)@, old(types)@),
            views(final(components)@) == views(old(components)@),
            match (
                result,
                ComponentView::empty().declare(
                    views(old(components)@),
                    old(types)@,
                    views(decls@),
                    0,
                    *features,
                    offset as int,
                ),
            ) {
                (Ok(component), (c, t, Ok(_))) => component@ == c && final(types)@ == t,
                (Err(e), (c, t, Err(f))) => e == f && final(types)@ == t,
                _ => false,
            },
            result matches Ok(component) ==> component@.wf(final(types)@),
        decreases decls@, 1int,
    {
        let ghost outer = views(components@);
        components.push(ComponentState::new());
        assert(views(components@) =~= outer.push(ComponentView::empty()));
        assert(around(views(components@)) =~= outer);
        assert(stack_ok(views(components@), types@)) by {
            assert forall|i: int| 0 <= i < components@.len() implies (#[trigger] views(
                components@,
            )[i]).wf(types@) by {
                if i < outer.len() {
                    assert(outer[i].wf(types@));
                }
            }
        }
        let result = Self::declare(components, decls, features, types, offset);
        let ghost stack = views(components@);
        assert(stack.drop_last() =~= outer);
        let component = components.pop().unwrap();
        assert(views(components@) =~= stack.drop_last());
        assert(component@ == stack.last());
        result?;
        Ok(component)
    }

    fn declare(
        components: &mut Vec<ComponentState>,
        decls: &Vec<ComponentType<'_>>,
        features: &WasmFeatures,
        types: &mut TypeList,
        offset: usize,
    ) -> (result: Result<()>)
        requires
            types_ok(old(types)@),
            old(components)@.len() > 0,
            stack_ok(views(old(components)@), old(types)@),
        ensures
            types_ok(final(types)@),
            starts_with(final(types)@, old(types)@),
            stack_ok(views(final(components)@), final(types)@),
            final(components)@.len() == old(components)@.len(),
            ({
                let stack = views(old(components)@);
                let (c, t, r) = stack.last().declare(
                    around(stack),
                    old(types)@,
                    views(decls@),
                    0,
                    *features,
                    offset as int,
                );
                &&& views(final(components)@) == around(stack).push(c)
                &&& final(types)@ == t
                &&& result == r
            }),
        decreases decls@, 0int,
    {
        let ghost stack = views(components@);
        let ghost outer = around(stack);
        let mut i: usize = 0;
        while i < decls.len()
            invariant
                i <= decls@.len(),
                types_ok(types@),
                starts_with(types@, old(types)@),
                components@.len() == stack.len(),
                stack == views(old(components)@),
                stack.len() > 0,
                outer == around(stack),
                stack_ok(views(components@), types@),
                around(views(components@)) == outer,
                stack.last().declare(
                    outer,
                    old(types)@,
                    views(decls@),
                    0,
                    *features,
                    offset as int,
                ) == views(components@).last().declare(
                    outer,
                    types@,
                    views(decls@),
                    i as int,
                    *features,
                    offset as int,
                ),
            decreases decls@.len() - i,
        {
            assert(decreases_to!(decls@ => decls@[i as int]));
            assert(views(decls@)[i as int] == decls@[i as int]@);
            let ghost current = views(components@).last();
            let ghost now = views(components@);
            assert(now =~= outer.push(current));
            match &decls[i] {
                ComponentType::Type(def) => {
                    Self::add_type(components, def, features, types, offset)?;
                },
                ComponentType::OuterType { count, index } => {
                    Self::alias_type(components, *count, *index, types, offset)?;
                },
                ComponentType::Export { name, ty } => {
                    assert(current == components@.last()@);
                    let component = components.last_mut().unwrap();
                    let result = component.export_type(name, *ty, types, offset);
                    assert(views(components@) =~= outer.push(components@.last()@));
                    result?;
                },
                ComponentType::Import(import) => {
                    assert(current == components@.last()@);
                    let component = components.last_mut().unwrap();
                    let result = component.add_import(import, types, offset);
                    assert(views(components@) =~= outer.push(components@.last()@));
                    result?;
                },
            }
            assert(around(views(components@)) =~= outer);
            i = i + 1;
        }
        assert(views(components@) =~= outer.push(views(components@).last()));
        Ok(())
    }

    fn export_type(&mut self, name: &str, ty: u32, types: &TypeList, offset: usize) -> (result: Result<
        (),
    >)
        requires
            types_ok(types@),
            old(self)@.wf(types@),
        ensures
            final(self)@.wf(types@),
            (final(self)@, result) == (match old(self)@.type_at(ty, offset as int) {
                Err(e) => (old(self)@, Err::<(), BinaryReaderError>(e)),
                Ok(place) => old(self)@.add_export(
                    name@,
                    entity_of(types@, place),
                    offset as int,
                ),
            }),
    {
        let place = self.type_at(ty, offset)?;
        assert(place < types@.len());
        let entity = entity_type(types, place);
        self.add_export(name, entity, offset)
    }

    /// Adds a type to the last component of a stack.
    pub fn add_type(
        components: &mut Vec<ComponentState>,
        def: &ComponentTypeDef<'_>,
        features: &WasmFeatures,
        types: &mut TypeList,
        offset: usize,
    ) -> (result: Result<()>)
        requires
            types_ok(old(types)@),
            old(components)@.len() > 0,
            stack_ok(views(old(components)@), old(types)@),
        ensures
            types_ok(final(types)@),
            starts_with(final(types)@, old(types)@),
            stack_ok(views(final(components)@), final(types)@),
            final(components)@.len() == old(components)@.len(),
            ({
                let stack = views(old(components)@);
                let (c, t, r) = stack.last().add_type(
                    around(stack),
                    old(types)@,
                    def@,
                    *features,
                    offset as int,
                );
                &&& views(final(components)@) == around(stack).push(c)
                &&& final(types)@ == t
                &&& result == r
            }),
        decreases def, 1int,
    {
        let ghost stack = views(components@);
        let ghost first = types@;
        assert(around(stack).push(stack.last()) =~= stack);
        let result = Self::define(components, def, features, types, offset);
        let ghost then_types = types@;
        assert(stack_ok(stack, then_types)) by {
            assert forall|i: int| 0 <= i < stack.len() implies (#[trigger] stack[i]).wf(
                then_types,
            ) by {
                lemma_component_longer(stack[i], first, then_types);
            }
        }
        let ty = result?;
        proof {
            lemma_types_ok_push(types@, ty@);
        }
        let place = types.push(ty);
        assert(stack.last() == components@.last()@);
        let current = components.last_mut().unwrap();
        current.types.push(place);
        let ghost c = ComponentView { types: stack.last().types.push(place), ..stack.last() };
        assert(components@.last()@ == c);
        assert(views(components@) =~= around(stack).push(c));
        assert(stack_ok(views(components@), types@)) by {
            assert forall|i: int| 0 <= i < stack.len() implies (#[trigger] views(
                components@,
            )[i]).wf(types@) by {
                lemma_component_longer(stack[i], then_types, types@);
            }
        }
        Ok(())
    }
}

} // verus!
