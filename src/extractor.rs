//! Collection of resolver declarations across modules, and their resolution
//! into schema IR once every module has been read.
use vstd::prelude::*;

use std::collections::HashMap;

use crate::ast::DocblockSection;
use crate::ast::Module;
use crate::ast::ModuleItem;
use crate::ast::Statement;
use crate::ast::TsType;
use crate::extract::spec_entity_name;
use crate::extract::spec_extract_graphql_types;
use crate::extract::ResolverTypescriptData;
use crate::location::Span;
use crate::resolution::extract_module_resolution;
use crate::resolution::spec_module_bindings;
use crate::text::char_is_lowercase;
use crate::text::is_lowercase_char;
use crate::translate::is_text;
use crate::ast::TsTypeElement;
use crate::ast::PropertyKey;
use crate::diagnostics::Annotation;
use crate::diagnostics::AnnotationKind;
use crate::diagnostics::Diagnostic;
use crate::diagnostics::SchemaGenerationError;
use crate::diagnostics::UnsupportedShape;
use crate::extract::EntityName;
use crate::location::Location;
use crate::location::LocationHandler;
use crate::location::SourceLocationKey;
use crate::location::WithLocation;
use crate::resolution::JSImportType;
use crate::resolution::ModuleResolution;
use crate::resolution::ModuleResolutionKey;
use crate::resolution::resolve_binding;
use crate::scalars::CustomScalarMap;
use crate::schema::clone_located;
use crate::schema::clone_opt_located;
use crate::schema::DocblockIr;
use crate::schema::Identifier;
use crate::schema::ResolverSourceHash;
use crate::schema::StrongObjectIr;
use crate::schema::TypeAnnotation;
use crate::schema::TypeDefinitions;
use crate::schema::WeakObjectIr;
use crate::schema::last_match;
use crate::text::contains_char;
use crate::text::after_dot;
use crate::text::after_first_dot;
use crate::text::ends_with;
use crate::text::file_stem;
use crate::text::file_stem_of;
use crate::text::has_suffix;
use crate::translate::err;
use crate::translate::loc;
use crate::translate::shape_of;
use crate::translate::spec_shape_of;

verus! {

/// An argument that a fragment declares.
#[derive(Debug)]
pub struct FragmentArgument {
    pub name: Identifier,
    pub type_: TypeAnnotation,
}

pub fn clone_type_annotation(t: &TypeAnnotation) -> (r: TypeAnnotation)
    ensures
        r == *t,
    decreases t,
{
    match t {
        TypeAnnotation::Named(i) => TypeAnnotation::Named(i.clone()),
        TypeAnnotation::List { span, item } => TypeAnnotation::List {
            span: *span,
            item: Box::new(clone_type_annotation(item)),
        },
        TypeAnnotation::NonNull { span, item } => TypeAnnotation::NonNull {
            span: *span,
            item: Box::new(clone_type_annotation(item)),
        },
    }
}

impl Clone for FragmentArgument {
    fn clone(&self) -> (r: Self)
        ensures
            r == *self,
    {
        FragmentArgument { name: self.name.clone(), type_: clone_type_annotation(&self.type_) }
    }
}

pub fn clone_arguments(args: &Vec<FragmentArgument>) -> (r: Vec<FragmentArgument>)
    ensures
        r@ == args@,
{
    let mut out: Vec<FragmentArgument> = Vec::new();
    let mut i: usize = 0;
    while i < args.len()
        invariant
            i <= args@.len(),
            out@ == args@.take(i as int),
        decreases args@.len() - i,
    {
        out.push(args[i].clone());
        assert(args@.take(i + 1) =~= args@.take(i as int).push(args@[i as int]));
        i = i + 1;
    }
    assert(args@.take(i as int) =~= args@);
    out
}

/// A fragment of the module's embedded GraphQL, for fields whose entity is a
/// fragment key type.
#[derive(Debug)]
pub struct FragmentDefinition {
    pub name: Identifier,
    pub type_condition: Identifier,
    pub location: SourceLocationKey,
    pub arguments: Vec<FragmentArgument>,
}

/// A docblock field such as `@deprecated reason`.
#[derive(Debug)]
pub struct IrField {
    pub key_location: Location,
    pub value: Option<WithLocation<String>>,
}

/// The fragment that a field reads its entity through, with its arguments.
#[derive(Debug)]
pub struct RootFragment {
    pub name: WithLocation<String>,
    pub arguments: Vec<FragmentArgument>,
}

/// A resolver field as declared, before types across modules are known.
#[derive(Debug)]
pub struct UnresolvedTSFieldDefinition {
    pub entity_name: Option<EntityName>,
    pub field_name: WithLocation<String>,
    pub return_type: TsType,
    pub arguments: Option<TsType>,
    pub source_hash: ResolverSourceHash,
    pub is_live: Option<Location>,
    pub description: Option<WithLocation<String>>,
    pub deprecated: Option<IrField>,
    pub root_fragment: Option<RootFragment>,
    /// The entity type's GraphQL name, when it is already known.
    pub entity_type: Option<WithLocation<String>>,
}

/// A name as a character sequence, with its location.
pub struct NameView {
    pub item: Seq<char>,
    pub location: Location,
}

pub open spec fn name_view(w: WithLocation<String>) -> NameView {
    NameView { item: w.item@, location: w.location }
}

/// An `UnresolvedTSFieldDefinition` with the field name as a character sequence
/// and the root fragment's arguments as a sequence.
pub struct UnresolvedView {
    pub entity_name: Option<EntityName>,
    pub field_name: NameView,
    pub return_type: TsType,
    pub arguments: Option<TsType>,
    pub source_hash: ResolverSourceHash,
    pub is_live: Option<Location>,
    pub description: Option<WithLocation<String>>,
    pub deprecated: Option<IrField>,
    pub root_fragment: Option<(WithLocation<String>, Seq<FragmentArgument>)>,
    pub entity_type: Option<WithLocation<String>>,
}

pub open spec fn unresolved_view(u: UnresolvedTSFieldDefinition) -> UnresolvedView {
    UnresolvedView {
        entity_name: u.entity_name,
        field_name: name_view(u.field_name),
        return_type: u.return_type,
        arguments: u.arguments,
        source_hash: u.source_hash,
        is_live: u.is_live,
        description: u.description,
        deprecated: u.deprecated,
        root_fragment: match u.root_fragment {
            Some(rf) => Some((rf.name, rf.arguments@)),
            None => None,
        },
        entity_type: u.entity_type,
    }
}

/// What the extractor has collected: the registered types and the fields
/// waiting for resolution, each with the module it was declared in.
pub struct ExtractorState {
    pub table: Seq<(ModuleResolutionKey, DocblockIr)>,
    pub unresolved: Seq<(UnresolvedView, SourceLocationKey)>,
}

/// Registers a type under a key; a key that is registered already is an error
/// that points at both definitions and changes nothing.
pub open spec fn spec_table_insert(st: ExtractorState, key: ModuleResolutionKey, data: DocblockIr) -> (
    ExtractorState,
    Option<Diagnostic>,
) {
    match last_match(st.table, key) {
        Some(i) => (
            st,
            Some(
                Diagnostic {
                    error: SchemaGenerationError::DuplicateTypeDefinitions {
                        module_name: st.table[i].0.module_name,
                        import_type: st.table[i].0.import_type,
                    },
                    location: data.spec_location(),
                    annotation: Some(
                        Annotation { kind: AnnotationKind::PreviousTypeDefinition, location: st.table[i].1.spec_location() },
                    ),
                },
            ),
        ),
        None => (ExtractorState { table: st.table.push((key, data)), ..st }, None),
    }
}

/// The error of a result, if it is one.
pub open spec fn error_of(r: Result<(), Diagnostic>) -> Option<Diagnostic> {
    match r {
        Ok(()) => None,
        Err(d) => Some(d),
    }
}


/// The strong object that a resolver function with a type name declares.
pub open spec fn spec_strong_object(
    name: WithLocation<String>,
    source_hash: ResolverSourceHash,
    is_live: Option<Location>,
    description: Option<WithLocation<String>>,
) -> StrongObjectIr {
    StrongObjectIr {
        name: Identifier { value: name.item, span: name.location.span },
        rhs_location: name.location,
        description,
        live: is_live,
        location: name.location,
        source_hash,
    }
}

/// Registers a strong object: its return type must be a bare reference to a
/// named or default import, under whose key the object is registered.
pub open spec fn spec_add_type(
    st: ExtractorState,
    imports: Seq<(String, ModuleResolutionKey)>,
    exports: Seq<(String, ModuleResolutionKey)>,
    name: WithLocation<String>,
    return_type: TsType,
    source_hash: ResolverSourceHash,
    is_live: Option<Location>,
    description: Option<WithLocation<String>>,
    source: SourceLocationKey,
) -> (ExtractorState, Option<Diagnostic>) {
    let location = loc(source, return_type.spec_span());
    let strong_object = spec_strong_object(name, source_hash, is_live, description);
    match return_type {
        TsType::TypeRef { entity, .. } => match entity {
            crate::ast::TsEntityName::Qualified { right, .. } => (
                st,
                Some(
                    Diagnostic::spec_error(
                        SchemaGenerationError::UnsupportedType { shape: UnsupportedShape::QualifiedName(right.name) },
                        location,
                    ),
                ),
            ),
            crate::ast::TsEntityName::Ident(id) => match resolve_binding(imports, exports, id.name@) {
                None => (
                    st,
                    Some(
                        Diagnostic::spec_error(SchemaGenerationError::ExpectedFlowDefinitionForType { name: id.name }, location),
                    ),
                ),
                Some(key) => match key.import_type {
                    JSImportType::Namespace(import_location) => (
                        st,
                        Some(
                            Diagnostic {
                                error: SchemaGenerationError::UseNamedOrDefaultImport,
                                location,
                                annotation: Some(
                                    Annotation { kind: AnnotationKind::ImportedFrom { name: id.name }, location: import_location },
                                ),
                            },
                        ),
                    ),
                    _ => spec_table_insert(st, key, DocblockIr::StrongObject(strong_object)),
                },
            },
        },
        TsType::TypeLit { .. } => (st, Some(Diagnostic::spec_error(SchemaGenerationError::ObjectNotSupported, location))),
        _ => (
            st,
            Some(Diagnostic::spec_error(SchemaGenerationError::UnsupportedType { shape: spec_shape_of(return_type) }, location)),
        ),
    }
}

/// The fields of an object literal type: each property with an identifier key,
/// located at the whole type; a property without a type is an error.
pub open spec fn spec_object_fields(
    members: Seq<TsTypeElement>,
    n: nat,
    location: Location,
) -> Result<Seq<(WithLocation<String>, TsType)>, Diagnostic>
    decreases n,
{
    if n == 0 {
        Ok(Seq::empty())
    } else {
        match spec_object_fields(members, (n - 1) as nat, location) {
            Err(d) => Err(d),
            Ok(fields) => match members[n - 1] {
                TsTypeElement::Property { key: PropertyKey::Ident(id), type_ann, span } => match type_ann {
                    Some(t) => Ok(fields.push((WithLocation { item: id.name, location }, t))),
                    None => Err(
                        Diagnostic::spec_error(
                            SchemaGenerationError::MissingParamType,
                            Location { source_location: location.source_location, span },
                        ),
                    ),
                },
                _ => Ok(fields),
            },
        }
    }
}

/// The deferred field that a property of a weak object declares.
pub open spec fn spec_weak_field(
    object_name: WithLocation<String>,
    field: (WithLocation<String>, TsType),
    source_hash: ResolverSourceHash,
    description: Option<WithLocation<String>>,
) -> UnresolvedView {
    UnresolvedView {
        entity_name: Some(EntityName::Reference(object_name)),
        field_name: name_view(field.0),
        return_type: field.1,
        arguments: None,
        source_hash,
        is_live: None,
        description,
        deprecated: None,
        root_fragment: None,
        entity_type: Some(object_name),
    }
}

/// Registers a weak object under the named export `name` of `module_name`,
/// the module that the file's stem names (none when the path has no file
/// name); with `should_generate_fields`, each property of the
/// alias, which must be a non-empty object literal, becomes a deferred field.
pub open spec fn spec_add_weak(
    st: ExtractorState,
    name: WithLocation<String>,
    type_alias: TsType,
    source_hash: ResolverSourceHash,
    module_name: Option<String>,
    description: Option<WithLocation<String>>,
    should_generate_fields: bool,
    source: SourceLocationKey,
) -> (ExtractorState, Option<Diagnostic>) {
    let location = loc(source, type_alias.spec_span());
    let weak_object = WeakObjectIr {
        name: Identifier { value: name.item, span: name.location.span },
        rhs_location: name.location,
        description,
        location: name.location,
        source_hash,
    };
    let import_type = JSImportType::Named(name.item);
    match module_name {
        None => (st, Some(Diagnostic::spec_error(SchemaGenerationError::InvalidModulePath, name.location))),
        Some(module_name) => if should_generate_fields {
            match type_alias {
                TsType::TypeLit { members, .. } => match spec_object_fields(members@, members@.len(), location) {
                    Err(d) => (st, Some(d)),
                    Ok(fields) => if fields.len() == 0 {
                        (
                            st,
                            Some(Diagnostic::spec_error(SchemaGenerationError::ExpectedWeakObjectToHaveFields, location)),
                        )
                    } else {
                        let with_fields = ExtractorState {
                            unresolved: st.unresolved + fields.map_values(
                                |f: (WithLocation<String>, TsType)|
                                    (spec_weak_field(name, f, source_hash, description), source),
                            ),
                            ..st
                        };
                        spec_table_insert(with_fields, ModuleResolutionKey { module_name, import_type }, DocblockIr::WeakObject(weak_object))
                    },
                },
                _ => (st, Some(Diagnostic::spec_error(SchemaGenerationError::ExpectedTypeAliasToBeObject, location))),
            }
        } else {
            spec_table_insert(st, ModuleResolutionKey { module_name, import_type }, DocblockIr::WeakObject(weak_object))
        },
    }
}

proof fn lemma_object_fields_error_stays(members: Seq<TsTypeElement>, n: nat, m: nat, location: Location)
    requires
        n <= m,
        spec_object_fields(members, n, location) is Err,
    ensures
        spec_object_fields(members, m, location) == spec_object_fields(members, n, location),
    decreases m - n,
{
    if n < m {
        lemma_object_fields_error_stays(members, n, (m - 1) as nat, location);
    }
}

/// The fields of an object literal type.
fn get_object_fields(members: Vec<TsTypeElement>, location: Location) -> (r: Result<
    Vec<(WithLocation<String>, TsType)>,
    Diagnostic,
>)
    ensures
        match r {
            Ok(v) => spec_object_fields(members@, members@.len(), location) == Ok::<
                Seq<(WithLocation<String>, TsType)>,
                Diagnostic,
            >(v@),
            Err(d) => spec_object_fields(members@, members@.len(), location) == Err::<
                Seq<(WithLocation<String>, TsType)>,
                Diagnostic,
            >(d),
        },
{
    let ghost all = members@;
    let mut rest = members;
    let mut fields: Vec<(WithLocation<String>, TsType)> = Vec::new();
    let ghost mut done: int = 0;
    assert(all.subrange(0, all.len() as int) =~= all);
    while rest.len() > 0
        invariant
            0 <= done <= all.len(),
            all == members@,
            rest@ == all.subrange(done, all.len() as int),
            spec_object_fields(all, done as nat, location) == Ok::<
                Seq<(WithLocation<String>, TsType)>,
                Diagnostic,
            >(fields@),
        decreases rest@.len(),
    {
        let member = rest.remove(0);
        assert(member == all[done]);
        match member {
            TsTypeElement::Property { key: PropertyKey::Ident(id), type_ann, span } => match type_ann {
                Some(t) => {
                    fields.push((WithLocation { item: id.name, location }, t));
                },
                None => {
                    proof {
                        assert(spec_object_fields(all, (done + 1) as nat, location) == Err::<
                            Seq<(WithLocation<String>, TsType)>,
                            Diagnostic,
                        >(
                            Diagnostic::spec_error(
                                SchemaGenerationError::MissingParamType,
                                Location { source_location: location.source_location, span },
                            ),
                        ));
                        lemma_object_fields_error_stays(all, (done + 1) as nat, all.len(), location);
                    }
                    return Err(
                        Diagnostic::error(
                            SchemaGenerationError::MissingParamType,
                            Location { source_location: location.source_location, span },
                        ),
                    );
                },
            },
            _ => {},
        }
        proof {
            done = done + 1;
            assert(rest@ =~= all.subrange(done, all.len() as int));
        }
    }
    Ok(fields)
}

/// The index of the last fragment named `name`.
pub open spec fn find_fragment(fragments: Seq<FragmentDefinition>, name: Seq<char>) -> Option<int>
    decreases fragments.len(),
{
    if fragments.len() == 0 {
        None
    } else if fragments.last().name.value@ == name {
        Some(fragments.len() - 1)
    } else {
        find_fragment(fragments.drop_last(), name)
    }
}

/// Defers a field for resolution. A field whose entity is a `<Fragment>$key`
/// type imported from a `.graphql` module reads its entity through that
/// fragment: the fragment's type condition becomes the entity type.
pub open spec fn spec_add_field(
    st: ExtractorState,
    imports: Seq<(String, ModuleResolutionKey)>,
    exports: Seq<(String, ModuleResolutionKey)>,
    fragments: Option<Seq<FragmentDefinition>>,
    field: UnresolvedView,
    source: SourceLocationKey,
) -> (ExtractorState, Option<Diagnostic>) {
    let pushed = ExtractorState { unresolved: st.unresolved.push((field, source)), ..st };
    match field.entity_name {
        None => (pushed, None),
        Some(entity) => match resolve_binding(imports, exports, entity.spec_text()) {
            None => (
                st,
                Some(
                    Diagnostic::spec_error(
                        SchemaGenerationError::ExpectedFlowDefinitionForEntity { entity },
                        entity.spec_location(),
                    ),
                ),
            ),
            Some(key) => if has_suffix(key.module_name@, ".graphql"@) && has_suffix(entity.spec_text(), "$key"@) {
                let fragment_name = entity.spec_text().subrange(0, entity.spec_text().len() - "$key"@.len());
                let not_found = (
                    st,
                    Some(Diagnostic::spec_error(SchemaGenerationError::FragmentNotFound { entity }, entity.spec_location())),
                );
                match fragments {
                    None => not_found,
                    Some(fs) => match find_fragment(fs, fragment_name) {
                        None => not_found,
                        Some(i) => {
                            let fd = fs[i];
                            let with_fragment = UnresolvedView {
                                entity_type: Some(
                                    WithLocation {
                                        item: fd.type_condition.value,
                                        location: Location { source_location: fd.location, span: fd.type_condition.span },
                                    },
                                ),
                                root_fragment: Some(
                                    (
                                        WithLocation {
                                            item: fd.name.value,
                                            location: Location { source_location: fd.location, span: fd.name.span },
                                        },
                                        fd.arguments@,
                                    ),
                                ),
                                ..field
                            };
                            (ExtractorState { unresolved: st.unresolved.push((with_fragment, source)), ..st }, None)
                        },
                    },
                }
            } else {
                (pushed, None)
            },
        },
    }
}

fn find_fragment_index(fragments: &Vec<FragmentDefinition>, name: &String) -> (r: Option<usize>)
    ensures
        match r {
            Some(i) => find_fragment(fragments@, name@) == Some(i as int) && i < fragments@.len(),
            None => find_fragment(fragments@, name@) is None,
        },
{
    let mut i: usize = fragments.len();
    assert(fragments@.take(i as int) =~= fragments@);
    while i > 0
        invariant
            i <= fragments@.len(),
            find_fragment(fragments@, name@) == find_fragment(fragments@.take(i as int), name@),
        decreases i,
    {
        proof {
            assert(fragments@.take(i as int).drop_last() =~= fragments@.take(i - 1));
        }
        if fragments[i - 1].name.value == *name {
            return Some(i - 1);
        }
        i = i - 1;
    }
    None
}

/// The index of the first `@key` field among the first `n` sections.
pub open spec fn first_field(sections: Seq<DocblockSection>, key: Seq<char>, n: nat) -> Option<int>
    decreases n,
{
    if n == 0 {
        None
    } else {
        match first_field(sections, key, (n - 1) as nat) {
            Some(i) => Some(i),
            None => if sections[n - 1] matches DocblockSection::Field { key: k, .. } && k.item@ == key {
                Some(n - 1)
            } else {
                None
            },
        }
    }
}

/// The index of the first free-text section among the first `n` sections.
pub open spec fn first_free_text(sections: Seq<DocblockSection>, n: nat) -> Option<int>
    decreases n,
{
    if n == 0 {
        None
    } else {
        match first_free_text(sections, (n - 1) as nat) {
            Some(i) => Some(i),
            None => if sections[n - 1] is FreeText {
                Some(n - 1)
            } else {
                None
            },
        }
    }
}

proof fn lemma_first_field_stays(sections: Seq<DocblockSection>, key: Seq<char>, n: nat, m: nat)
    requires
        n <= m,
        first_field(sections, key, n) is Some,
    ensures
        first_field(sections, key, m) == first_field(sections, key, n),
    decreases m - n,
{
    if n < m {
        lemma_first_field_stays(sections, key, n, (m - 1) as nat);
    }
}

proof fn lemma_first_free_text_stays(sections: Seq<DocblockSection>, n: nat, m: nat)
    requires
        n <= m,
        first_free_text(sections, n) is Some,
    ensures
        first_free_text(sections, m) == first_free_text(sections, n),
    decreases m - n,
{
    if n < m {
        lemma_first_free_text_stays(sections, n, (m - 1) as nat);
    }
}

/// The value of the first `@key` field of a docblock: `None` when there is no
/// such field, `Some(None)` when it has no value.
pub open spec fn spec_field_value(sections: Seq<DocblockSection>, key: Seq<char>) -> Option<
    Option<WithLocation<String>>,
> {
    match first_field(sections, key, sections.len()) {
        Some(i) => Some(sections[i]->Field_value),
        None => None,
    }
}

pub open spec fn spec_deprecated(sections: Seq<DocblockSection>) -> Option<IrField> {
    match first_field(sections, "deprecated"@, sections.len()) {
        Some(i) => Some(IrField { key_location: sections[i]->Field_key.location, value: sections[i]->Field_value }),
        None => None,
    }
}

pub open spec fn spec_description(sections: Seq<DocblockSection>) -> Option<WithLocation<String>> {
    match first_free_text(sections, sections.len()) {
        Some(i) => Some(sections[i]->FreeText_0),
        None => None,
    }
}

/// A name declares a field when it starts with a lowercase letter or holds a
/// `.` (the `Type.field` form); otherwise it declares an object type.
pub open spec fn is_field_name(name: Seq<char>) -> bool {
    name.len() > 0 && (is_lowercase_char(name[0]) || name.contains('.'))
}

pub open spec fn item_span(item: ModuleItem) -> Span {
    match item {
        ModuleItem::Import { span, .. } => span,
        ModuleItem::ExportDecl { span, .. } => span,
        ModuleItem::Other { span } => span,
    }
}

/// What one statement of a module adds: nothing without a resolver docblock;
/// else the field, strong object or weak object that it declares.
pub open spec fn spec_statement(
    st: ExtractorState,
    stmt: Statement,
    imports: Seq<(String, ModuleResolutionKey)>,
    exports: Seq<(String, ModuleResolutionKey)>,
    fragments: Option<Seq<FragmentDefinition>>,
    module_name: Option<String>,
    source_hash: ResolverSourceHash,
    source: SourceLocationKey,
) -> (ExtractorState, Option<Diagnostic>) {
    match stmt.docblock {
        None => (st, None),
        Some(db) => match spec_field_value(db.sections@, "RelayResolver"@) {
            None => (st, Some(err::<()>(SchemaGenerationError::MissingResolverName, source, db.span)->Err_0)),
            Some(resolver_value) => {
                let deprecated = spec_deprecated(db.sections@);
                let description = spec_description(db.sections@);
                let range = Span { start: db.span.start, end: item_span(stmt.item).end };
                match spec_extract_graphql_types(stmt.item, range, source) {
                    Err(d) => (st, Some(d)),
                    Ok(ResolverTypescriptData::Strong(fd)) => {
                        let name = match resolver_value {
                            Some(v) => v,
                            None => fd.field_name,
                        };
                        if is_field_name(name.item@) {
                            let field = UnresolvedView {
                                entity_name: None,
                                field_name: name_view(name),
                                return_type: fd.return_type,
                                arguments: fd.arguments,
                                source_hash,
                                is_live: fd.is_live,
                                description,
                                deprecated,
                                root_fragment: None,
                                entity_type: None,
                            };
                            if name.item@.contains('.') {
                                spec_add_field(
                                    st,
                                    imports,
                                    exports,
                                    fragments,
                                    UnresolvedView {
                                        entity_name: Some(EntityName::DottedName(name)),
                                        field_name: NameView { item: after_dot(name.item@), location: name.location },
                                        ..field
                                    },
                                    source,
                                )
                            } else {
                                match fd.entity_type {
                                    Some(et) => match spec_entity_name(et, source) {
                                        Err(d) => (st, Some(d)),
                                        Ok(entity) => spec_add_field(
                                            st,
                                            imports,
                                            exports,
                                            fragments,
                                            UnresolvedView { entity_name: Some(entity), ..field },
                                            source,
                                        ),
                                    },
                                    None => spec_add_field(st, imports, exports, fragments, field, source),
                                }
                            }
                        } else {
                            spec_add_type(
                                st,
                                imports,
                                exports,
                                name,
                                fd.return_type,
                                source_hash,
                                fd.is_live,
                                description,
                                source,
                            )
                        }
                    },
                    Ok(ResolverTypescriptData::Weak(wd)) => {
                        let name = match resolver_value {
                            Some(v) => v,
                            None => wd.field_name,
                        };
                        spec_add_weak(st, name, wd.type_alias, source_hash, module_name, description, false, source)
                    },
                }
            },
        },
    }
}

/// The state after the first `n` statements, with the diagnostics of those
/// that failed, in order.
pub open spec fn spec_statements(
    st: ExtractorState,
    body: Seq<Statement>,
    n: nat,
    imports: Seq<(String, ModuleResolutionKey)>,
    exports: Seq<(String, ModuleResolutionKey)>,
    fragments: Option<Seq<FragmentDefinition>>,
    module_name: Option<String>,
    source_hash: ResolverSourceHash,
    source: SourceLocationKey,
) -> (ExtractorState, Seq<Diagnostic>)
    decreases n,
{
    if n == 0 {
        (st, Seq::empty())
    } else {
        let (st1, errors) = spec_statements(
            st,
            body,
            (n - 1) as nat,
            imports,
            exports,
            fragments,
            module_name,
            source_hash,
            source,
        );
        let (st2, error) = spec_statement(
            st1,
            body[n - 1],
            imports,
            exports,
            fragments,
            module_name,
            source_hash,
            source,
        );
        (
            st2,
            match error {
                Some(d) => errors.push(d),
                None => errors,
            },
        )
    }
}

pub open spec fn fragments_view(fragment_definitions: Option<&Vec<FragmentDefinition>>) -> Option<Seq<FragmentDefinition>> {
    match fragment_definitions {
        Some(fs) => Some(fs@),
        None => None,
    }
}

/// The value of the first `@key` field.
fn field_value(sections: &Vec<DocblockSection>, key: &str) -> (r: Option<Option<WithLocation<String>>>)
    ensures
        r == spec_field_value(sections@, key@),
{
    match first_field_index(sections, key) {
        Some(i) => match &sections[i] {
            DocblockSection::Field { value, .. } => Some(clone_opt_located(value)),
            DocblockSection::FreeText(_) => None,
        },
        None => None,
    }
}

fn first_field_index(sections: &Vec<DocblockSection>, key: &str) -> (r: Option<usize>)
    ensures
        match r {
            Some(i) => first_field(sections@, key@, sections@.len()) == Some(i as int) && i < sections@.len()
                && sections@[i as int] is Field,
            None => first_field(sections@, key@, sections@.len()) is None,
        },
{
    let mut i: usize = 0;
    while i < sections.len()
        invariant
            i <= sections@.len(),
            first_field(sections@, key@, i as nat) is None,
        decreases sections@.len() - i,
    {
        let matches = match &sections[i] {
            DocblockSection::Field { key: k, .. } => is_text(&k.item, key),
            DocblockSection::FreeText(_) => false,
        };
        if matches {
            proof {
                lemma_first_field_stays(sections@, key@, (i + 1) as nat, sections@.len());
            }
            return Some(i);
        }
        i = i + 1;
    }
    None
}

fn deprecated_field(sections: &Vec<DocblockSection>) -> (r: Option<IrField>)
    ensures
        r == spec_deprecated(sections@),
{
    match first_field_index(sections, "deprecated") {
        Some(i) => match &sections[i] {
            DocblockSection::Field { key, value } => Some(
                IrField { key_location: key.location, value: clone_opt_located(value) },
            ),
            DocblockSection::FreeText(_) => None,
        },
        None => None,
    }
}

fn description_of(sections: &Vec<DocblockSection>) -> (r: Option<WithLocation<String>>)
    ensures
        r == spec_description(sections@),
{
    let mut i: usize = 0;
    while i < sections.len()
        invariant
            i <= sections@.len(),
            first_free_text(sections@, i as nat) is None,
        decreases sections@.len() - i,
    {
        match &sections[i] {
            DocblockSection::FreeText(t) => {
                proof {
                    lemma_first_free_text_stays(sections@, (i + 1) as nat, sections@.len());
                }
                return Some(clone_located(t));
            },
            DocblockSection::Field { .. } => {},
        }
        i = i + 1;
    }
    None
}

/// Whether a resolver name declares a field rather than an object type.
pub fn is_field_definition(name: &String) -> (r: bool)
    ensures
        r == is_field_name(name@),
{
    let n = name.as_str().unicode_len();
    if n == 0 {
        return false;
    }
    char_is_lowercase(name.as_str().get_char(0)) || contains_char(name.as_str(), '.')
}

/// `module_name` is the file stem of `path`, or nothing when the path has no
/// file name.
pub open spec fn stem_matches(path: Seq<char>, module_name: Option<String>) -> bool {
    match module_name {
        Some(m) => file_stem_of(path) == Some(m@),
        None => file_stem_of(path) is None,
    }
}

/// Collects resolver declarations from modules, then resolves their fields.
#[derive(Debug)]
pub struct TSRelayResolverExtractor {
    pub type_definitions: TypeDefinitions,
    pub unresolved_field_definitions: Vec<(UnresolvedTSFieldDefinition, SourceLocationKey)>,
    /// The module index of each module read, by the id of its source location.
    pub module_resolutions: HashMap<u64, ModuleResolution>,
    /// Maps source types to GraphQL custom scalars.
    pub custom_scalar_map: CustomScalarMap,
}

pub open spec fn unresolved_views(us: Seq<(UnresolvedTSFieldDefinition, SourceLocationKey)>) -> Seq<
    (UnresolvedView, SourceLocationKey),
> {
    us.map_values(|e: (UnresolvedTSFieldDefinition, SourceLocationKey)| (unresolved_view(e.0), e.1))
}

impl Default for TSRelayResolverExtractor {
    fn default() -> (r: Self)
        ensures
            r.wf(),
            r.state().table.len() == 0,
            r.state().unresolved.len() == 0,
            r.module_resolutions@ == Map::<u64, ModuleResolution>::empty(),
            r.custom_scalar_map.entries@.len() == 0,
    {
        Self::new()
    }
}

impl TSRelayResolverExtractor {
    pub open spec fn state(&self) -> ExtractorState {
        ExtractorState {
            table: self.type_definitions.entries@,
            unresolved: unresolved_views(self.unresolved_field_definitions@),
        }
    }

    pub open spec fn wf(&self) -> bool {
        self.type_definitions.wf()
    }

    pub fn new() -> (r: TSRelayResolverExtractor)
        ensures
            r.wf(),
            r.state().table.len() == 0,
            r.state().unresolved.len() == 0,
            r.module_resolutions@ == Map::<u64, ModuleResolution>::empty(),
            r.custom_scalar_map.entries@.len() == 0,
    {
        TSRelayResolverExtractor {
            type_definitions: TypeDefinitions::new(),
            unresolved_field_definitions: Vec::new(),
            module_resolutions: HashMap::new(),
            custom_scalar_map: CustomScalarMap::new(),
        }
    }

    /// Sets the custom scalars, given as a map from scalar names to source types.
    pub fn set_custom_scalar_map(&mut self, custom_scalar_types: &Vec<(String, crate::scalars::CustomType)>)
        ensures
            final(self).custom_scalar_map.entries@ == CustomScalarMap::invert_spec(custom_scalar_types@),
            final(self).type_definitions == old(self).type_definitions,
            final(self).unresolved_field_definitions == old(self).unresolved_field_definitions,
            final(self).module_resolutions == old(self).module_resolutions,
    {
        self.custom_scalar_map = CustomScalarMap::invert(custom_scalar_types);
    }

    /// Registers the strong object that a resolver function with a type name declares.
    #[allow(clippy::too_many_arguments)]
    fn add_type_definition(
        &mut self,
        module_resolution: &ModuleResolution,
        name: WithLocation<String>,
        return_type: TsType,
        source_hash: ResolverSourceHash,
        is_live: Option<Location>,
        description: Option<WithLocation<String>>,
        location_handler: &LocationHandler,
    ) -> (r: Result<(), Diagnostic>)
        requires
            old(self).wf(),
        ensures
            final(self).wf(),
            (final(self).state(), error_of(r)) == spec_add_type(
                old(self).state(),
                module_resolution.imports@,
                module_resolution.exports@,
                name,
                return_type,
                source_hash,
                is_live,
                description,
                location_handler.source_location_key,
            ),
            final(self).module_resolutions == old(self).module_resolutions,
            final(self).custom_scalar_map == old(self).custom_scalar_map,
    {
        let location = location_handler.to_location(return_type.span());
        let shape = shape_of(&return_type);
        let strong_object = StrongObjectIr {
            name: Identifier { value: name.item.clone(), span: name.location.span },
            rhs_location: name.location,
            description,
            live: is_live,
            location: name.location,
            source_hash,
        };
        match return_type {
            TsType::TypeRef { entity, .. } => match entity {
                crate::ast::TsEntityName::Qualified { right, .. } => Err(
                    Diagnostic::error(
                        SchemaGenerationError::UnsupportedType { shape: UnsupportedShape::QualifiedName(right.name) },
                        location,
                    ),
                ),
                crate::ast::TsEntityName::Ident(id) => {
                    let key = match module_resolution.get(&id.name) {
                        Some(k) => k.clone(),
                        None => {
                            return Err(
                                Diagnostic::error(
                                    SchemaGenerationError::ExpectedFlowDefinitionForType { name: id.name },
                                    location,
                                ),
                            )
                        },
                    };
                    let namespace_location = match &key.import_type {
                        JSImportType::Namespace(l) => Some(*l),
                        _ => None,
                    };
                    match namespace_location {
                        Some(import_location) => Err(
                            Diagnostic {
                                error: SchemaGenerationError::UseNamedOrDefaultImport,
                                location,
                                annotation: Some(
                                    Annotation {
                                        kind: AnnotationKind::ImportedFrom { name: id.name },
                                        location: import_location,
                                    },
                                ),
                            },
                        ),
                        None => self.insert_type_definition(key, DocblockIr::StrongObject(strong_object)),
                    }
                },
            },
            TsType::TypeLit { .. } => Err(Diagnostic::error(SchemaGenerationError::ObjectNotSupported, location)),
            _ => Err(Diagnostic::error(SchemaGenerationError::UnsupportedType { shape }, location)),
        }
    }

    /// Registers the weak object that a type alias declares.
    #[allow(clippy::too_many_arguments)]
    pub fn add_weak_type_definition(
        &mut self,
        name: WithLocation<String>,
        type_alias: TsType,
        source_hash: ResolverSourceHash,
        module_name: &Option<String>,
        description: Option<WithLocation<String>>,
        should_generate_fields: bool,
        location_handler: &LocationHandler,
    ) -> (r: Result<(), Diagnostic>)
        requires
            old(self).wf(),
        ensures
            final(self).wf(),
            (final(self).state(), error_of(r)) == spec_add_weak(
                old(self).state(),
                name,
                type_alias,
                source_hash,
                *module_name,
                description,
                should_generate_fields,
                location_handler.source_location_key,
            ),
            final(self).module_resolutions == old(self).module_resolutions,
            final(self).custom_scalar_map == old(self).custom_scalar_map,
    {
        let ghost source = location_handler.source_location_key;
        let location = location_handler.to_location(type_alias.span());
        let weak_object = WeakObjectIr {
            name: Identifier { value: name.item.clone(), span: name.location.span },
            rhs_location: name.location,
            description: clone_opt_located(&description),
            location: name.location,
            source_hash: source_hash.clone(),
        };
        let module_name = match module_name {
            Some(m) => m.clone(),
            None => return Err(Diagnostic::error(SchemaGenerationError::InvalidModulePath, name.location)),
        };
        let key = ModuleResolutionKey { module_name, import_type: JSImportType::Named(name.item.clone()) };
        if should_generate_fields {
            let members = match type_alias {
                TsType::TypeLit { members, .. } => members,
                _ => {
                    return Err(Diagnostic::error(SchemaGenerationError::ExpectedTypeAliasToBeObject, location));
                },
            };
            let fields = match get_object_fields(members, location) {
                Ok(f) => f,
                Err(d) => return Err(d),
            };
            if fields.len() == 0 {
                return Err(Diagnostic::error(SchemaGenerationError::ExpectedWeakObjectToHaveFields, location));
            }
            let ghost all = fields@;
            let ghost start = self.unresolved_field_definitions@;
            let mut rest = fields;
            let ghost mut done: int = 0;
            assert(all.subrange(0, all.len() as int) =~= all);
            assert(unresolved_views(start) + all.take(0).map_values(
                |f: (WithLocation<String>, TsType)| (spec_weak_field(name, f, source_hash, description), source),
            ) =~= unresolved_views(start));
            while rest.len() > 0
                invariant
                    0 <= done <= all.len(),
                    rest@ == all.subrange(done, all.len() as int),
                    source == location_handler.source_location_key,
                    self.type_definitions == old(self).type_definitions,
                    self.module_resolutions == old(self).module_resolutions,
                    self.custom_scalar_map == old(self).custom_scalar_map,
                    unresolved_views(self.unresolved_field_definitions@) == unresolved_views(start) + all.take(done).map_values(
                        |f: (WithLocation<String>, TsType)| (spec_weak_field(name, f, source_hash, description), source),
                    ),
                decreases rest@.len(),
            {
                let field = rest.remove(0);
                assert(field == all[done]);
                let (field_name, return_type) = field;
                let ghost before = self.unresolved_field_definitions@;
                self.unresolved_field_definitions.push(
                    (
                        UnresolvedTSFieldDefinition {
                            entity_name: Some(EntityName::Reference(clone_located(&name))),
                            field_name,
                            return_type,
                            arguments: None,
                            source_hash: source_hash.clone(),
                            is_live: None,
                            description: clone_opt_located(&description),
                            deprecated: None,
                            root_fragment: None,
                            entity_type: Some(clone_located(&name)),
                        },
                        location_handler.source_location_key,
                    ),
                );
                proof {
                    assert(unresolved_views(self.unresolved_field_definitions@) =~= unresolved_views(before).push(
                        (spec_weak_field(name, all[done], source_hash, description), source),
                    ));
                    assert(all.take(done + 1) =~= all.take(done).push(all[done]));
                    assert(all.take(done + 1).map_values(
                        |f: (WithLocation<String>, TsType)| (spec_weak_field(name, f, source_hash, description), source),
                    ) =~= all.take(done).map_values(
                        |f: (WithLocation<String>, TsType)| (spec_weak_field(name, f, source_hash, description), source),
                    ).push((spec_weak_field(name, all[done], source_hash, description), source)));
                    done = done + 1;
                    assert(rest@ =~= all.subrange(done, all.len() as int));
                }
            }
            assert(all.take(done) =~= all);
        }
        self.insert_type_definition(key, DocblockIr::WeakObject(weak_object))
    }

    /// Defers a resolver field for resolution.
    pub fn add_field_definition(
        &mut self,
        module_resolution: &ModuleResolution,
        fragment_definitions: Option<&Vec<FragmentDefinition>>,
        field_definition: UnresolvedTSFieldDefinition,
        location_handler: &LocationHandler,
    ) -> (r: Result<(), Diagnostic>)
        ensures
            (final(self).state(), error_of(r)) == spec_add_field(
                old(self).state(),
                module_resolution.imports@,
                module_resolution.exports@,
                match fragment_definitions {
                    Some(fs) => Some(fs@),
                    None => None,
                },
                unresolved_view(field_definition),
                location_handler.source_location_key,
            ),
            final(self).type_definitions == old(self).type_definitions,
            final(self).module_resolutions == old(self).module_resolutions,
            final(self).custom_scalar_map == old(self).custom_scalar_map,
    {
        let ghost before = self.unresolved_field_definitions@;
        let mut field_definition = field_definition;
        match &field_definition.entity_name {
            None => {},
            Some(entity) => {
                let entity_text = entity.text();
                let key = match module_resolution.get(&entity_text) {
                    Some(k) => k,
                    None => {
                        return Err(
                            Diagnostic::error(
                                SchemaGenerationError::ExpectedFlowDefinitionForEntity { entity: entity.clone() },
                                entity.location(),
                            ),
                        );
                    },
                };
                if ends_with(key.module_name.as_str(), ".graphql") && ends_with(entity_text.as_str(), "$key") {
                    let n = entity_text.as_str().unicode_len();
                    let m = "$key".unicode_len();
                    let fragment_name = entity_text.as_str().substring_char(0, n - m).to_owned();
                    let found = match fragment_definitions {
                        Some(fs) => match find_fragment_index(fs, &fragment_name) {
                            Some(i) => Some(&fs[i]),
                            None => None,
                        },
                        None => None,
                    };
                    let fd = match found {
                        Some(fd) => fd,
                        None => {
                            return Err(
                                Diagnostic::error(
                                    SchemaGenerationError::FragmentNotFound { entity: entity.clone() },
                                    entity.location(),
                                ),
                            );
                        },
                    };
                    let entity_type = WithLocation {
                        item: fd.type_condition.value.clone(),
                        location: Location { source_location: fd.location, span: fd.type_condition.span },
                    };
                    let root_fragment = RootFragment {
                        name: WithLocation {
                            item: fd.name.value.clone(),
                            location: Location { source_location: fd.location, span: fd.name.span },
                        },
                        arguments: clone_arguments(&fd.arguments),
                    };
                    field_definition.entity_type = Some(entity_type);
                    field_definition.root_fragment = Some(root_fragment);
                }
            },
        }
        self.unresolved_field_definitions.push((field_definition, location_handler.source_location_key));
        proof {
            assert(unresolved_views(self.unresolved_field_definitions@) =~= unresolved_views(before).push(
                (unresolved_view(field_definition), location_handler.source_location_key),
            ));
        }
        Ok(())
    }

    /// Reads one statement of a module.
    #[allow(clippy::too_many_arguments)]
    fn process_statement(
        &mut self,
        statement: Statement,
        module_resolution: &ModuleResolution,
        fragment_definitions: Option<&Vec<FragmentDefinition>>,
        module_name: &Option<String>,
        source_hash: &ResolverSourceHash,
        location_handler: &LocationHandler,
    ) -> (r: Result<(), Diagnostic>)
        requires
            old(self).wf(),
        ensures
            final(self).wf(),
            (final(self).state(), error_of(r)) == spec_statement(
                old(self).state(),
                statement,
                module_resolution.imports@,
                module_resolution.exports@,
                fragments_view(fragment_definitions),
                *module_name,
                *source_hash,
                location_handler.source_location_key,
            ),
            final(self).module_resolutions == old(self).module_resolutions,
            final(self).custom_scalar_map == old(self).custom_scalar_map,
    {
        let Statement { item, docblock } = statement;
        let docblock = match docblock {
            None => return Ok(()),
            Some(d) => d,
        };
        let resolver_value = match field_value(&docblock.sections, "RelayResolver") {
            Some(v) => v,
            None => {
                return Err(
                    Diagnostic::error(
                        SchemaGenerationError::MissingResolverName,
                        location_handler.to_location(docblock.span),
                    ),
                );
            },
        };
        let deprecated = deprecated_field(&docblock.sections);
        let description = description_of(&docblock.sections);
        let end = match &item {
            ModuleItem::Import { span, .. } => span.end,
            ModuleItem::ExportDecl { span, .. } => span.end,
            ModuleItem::Other { span } => span.end,
        };
        let range = Span { start: docblock.span.start, end };
        let extracted = match self.extract_graphql_types(item, range, location_handler) {
            Ok(e) => e,
            Err(d) => return Err(d),
        };
        match extracted {
            ResolverTypescriptData::Strong(fd) => {
                let name = match resolver_value {
                    Some(v) => v,
                    None => fd.field_name,
                };
                if is_field_definition(&name.item) {
                    let (entity_name, field_name) = if contains_char(name.item.as_str(), '.') {
                        let field_name = WithLocation {
                            item: after_first_dot(name.item.as_str()),
                            location: name.location,
                        };
                        (Some(EntityName::DottedName(name)), field_name)
                    } else {
                        let entity_name = match fd.entity_type {
                            Some(et) => match self.extract_entity_name(et, location_handler) {
                                Ok(e) => Some(e),
                                Err(d) => return Err(d),
                            },
                            None => None,
                        };
                        (entity_name, name)
                    };
                    self.add_field_definition(
                        module_resolution,
                        fragment_definitions,
                        UnresolvedTSFieldDefinition {
                            entity_name,
                            field_name,
                            return_type: fd.return_type,
                            arguments: fd.arguments,
                            source_hash: source_hash.clone(),
                            is_live: fd.is_live,
                            description,
                            deprecated,
                            root_fragment: None,
                            entity_type: None,
                        },
                        location_handler,
                    )
                } else {
                    self.add_type_definition(
                        module_resolution,
                        name,
                        fd.return_type,
                        source_hash.clone(),
                        fd.is_live,
                        description,
                        location_handler,
                    )
                }
            },
            ResolverTypescriptData::Weak(wd) => {
                let name = match resolver_value {
                    Some(v) => v,
                    None => wd.field_name,
                };
                self.add_weak_type_definition(
                    name,
                    wd.type_alias,
                    source_hash.clone(),
                    module_name,
                    description,
                    false,
                    location_handler,
                )
            },
        }
    }

    /// Reads the resolver declarations of one module: every statement with a
    /// resolver docblock is read, and the diagnostics of all that fail are
    /// returned together. The module's index of imports is kept for `resolve`.
    pub fn parse_document(
        &mut self,
        module: Module,
        source_module_path: &String,
        source_location: SourceLocationKey,
        source_hash: &ResolverSourceHash,
        fragment_definitions: Option<&Vec<FragmentDefinition>>,
    ) -> (r: Result<(), Vec<Diagnostic>>)
        requires
            old(self).wf(),
        ensures
            final(self).wf(),
            exists|module_name: Option<String>|
                #![trigger stem_matches(source_module_path@, module_name)]
                stem_matches(source_module_path@, module_name) && {
                let (imports, exports) = spec_module_bindings(
                    module.body@,
                    module.body@.len(),
                    *source_module_path,
                    source_location,
                );
                let (st, errors) = spec_statements(
                    old(self).state(),
                    module.body@,
                    module.body@.len(),
                    imports,
                    exports,
                    fragments_view(fragment_definitions),
                    module_name,
                    *source_hash,
                    source_location,
                );
                &&& final(self).state() == st
                &&& final(self).module_resolutions@.contains_key(source_location.id)
                &&& final(self).module_resolutions@[source_location.id].imports@ == imports
                &&& final(self).module_resolutions@[source_location.id].exports@ == exports
                &&& final(self).module_resolutions@.remove(source_location.id) == old(
                    self,
                ).module_resolutions@.remove(source_location.id)
                &&& match r {
                    Ok(()) => errors.len() == 0,
                    Err(v) => errors.len() > 0 && v@ == errors,
                }
            },
            final(self).custom_scalar_map == old(self).custom_scalar_map,
    {
        let location_handler = LocationHandler::new(source_location);
        let module_name = file_stem(source_module_path.as_str());
        let module_resolution = extract_module_resolution(&module, source_module_path, &location_handler);
        let ghost body = module.body@;
        let ghost start = self.state();
        let ghost frags = fragments_view(fragment_definitions);
        let Module { body: statements } = module;
        let mut rest = statements;
        let mut errors: Vec<Diagnostic> = Vec::new();
        let ghost mut done: int = 0;
        assert(body.subrange(0, body.len() as int) =~= body);
        while rest.len() > 0
            invariant
                0 <= done <= body.len(),
                rest@ == body.subrange(done, body.len() as int),
                self.wf(),
                self.module_resolutions == old(self).module_resolutions,
                self.custom_scalar_map == old(self).custom_scalar_map,
                location_handler.source_location_key == source_location,
                frags == fragments_view(fragment_definitions),
                (self.state(), errors@) == spec_statements(
                    start,
                    body,
                    done as nat,
                    module_resolution.imports@,
                    module_resolution.exports@,
                    frags,
                    module_name,
                    *source_hash,
                    source_location,
                ),
                stem_matches(source_module_path@, module_name),
            decreases rest@.len(),
        {
            let statement = rest.remove(0);
            assert(statement == body[done]);
            match self.process_statement(
                statement,
                &module_resolution,
                fragment_definitions,
                &module_name,
                source_hash,
                &location_handler,
            ) {
                Ok(()) => {},
                Err(d) => {
                    errors.push(d);
                },
            }
            proof {
                done = done + 1;
                assert(rest@ =~= body.subrange(done, body.len() as int));
            }
        }
        self.module_resolutions.insert(source_location.id, module_resolution);
        proof {
            assert(self.module_resolutions@.remove(source_location.id) =~= old(self).module_resolutions@.remove(
                source_location.id,
            ));
        }
        if errors.len() == 0 {
            Ok(())
        } else {
            Err(errors)
        }
    }

    /// Registers `data` under `key`.
    fn insert_type_definition(&mut self, key: ModuleResolutionKey, data: DocblockIr) -> (r: Result<(), Diagnostic>)
        requires
            old(self).wf(),
        ensures
            final(self).wf(),
            (final(self).state(), error_of(r)) == spec_table_insert(old(self).state(), key, data),
            final(self).module_resolutions == old(self).module_resolutions,
            final(self).custom_scalar_map == old(self).custom_scalar_map,
    {
        self.type_definitions.insert(key, data)
    }
}

} // verus!
