//! The second pass of extraction: every deferred field is resolved against the
//! types that all modules declared.
use vstd::prelude::*;

use std::collections::HashMap;

use crate::diagnostics::Diagnostic;
use crate::diagnostics::SchemaGenerationError;
use crate::extractor::FragmentArgument;
use crate::extractor::IrField;
use crate::extractor::TSRelayResolverExtractor;
use crate::extractor::UnresolvedTSFieldDefinition;
use crate::location::Location;
use crate::location::LocationHandler;
use crate::location::SourceLocationKey;
use crate::location::WithLocation;
use crate::resolution::ModuleResolution;
use crate::resolution::ModuleResolutionKey;
use crate::scalars::CustomScalarMap;
use crate::schema::DocblockIr;
use crate::schema::FieldArguments;
use crate::schema::Identifier;
use crate::schema::ResolverSourceHash;
use crate::schema::TypeAnnotation;
use crate::schema::TypeDefinitions;
use crate::schema::TypeView;
use crate::schema::type_view;
use crate::translate::return_type_to_type_annotation;
use crate::translate::spec_field_arguments;
use crate::translate::spec_translate;
use crate::translate::text;
use crate::translate::ts_type_to_field_arguments;
use crate::translate::ArgView;

verus! {

/// A resolver field as the schema sees it.
#[derive(Debug)]
pub struct FieldDefinition {
    pub name: Identifier,
    pub type_: TypeAnnotation,
    pub arguments: Option<FieldArguments>,
    pub description: Option<WithLocation<String>>,
}

/// A resolved resolver field and what it is declared on.
#[derive(Debug)]
pub struct TerseRelayResolverIr {
    pub field: FieldDefinition,
    /// The GraphQL type that the field belongs to.
    pub type_: WithLocation<String>,
    pub root_fragment: Option<WithLocation<String>>,
    pub location: Location,
    pub deprecated: Option<IrField>,
    pub live: Option<Location>,
    pub fragment_arguments: Option<Vec<FragmentArgument>>,
    pub source_hash: ResolverSourceHash,
    /// The depths at which the field is semantically non-null; empty when it is not.
    pub semantic_non_null_levels: Vec<u64>,
}

/// The meaning of a `TerseRelayResolverIr`.
pub struct ResolvedView {
    pub name: Identifier,
    pub type_annotation: TypeView,
    pub arguments: Option<(Seq<ArgView>, crate::location::Span)>,
    pub description: Option<WithLocation<String>>,
    pub parent_type: (Seq<char>, Location),
    pub root_fragment: Option<WithLocation<String>>,
    pub location: Location,
    pub deprecated: Option<IrField>,
    pub live: Option<Location>,
    pub fragment_arguments: Option<Seq<FragmentArgument>>,
    pub source_hash: ResolverSourceHash,
    pub semantic_non_null_levels: Seq<u64>,
}

pub open spec fn resolved_view(r: TerseRelayResolverIr) -> ResolvedView {
    ResolvedView {
        name: r.field.name,
        type_annotation: type_view(r.field.type_),
        arguments: match r.field.arguments {
            Some(a) => Some((a.items@.map_values(|i: crate::schema::InputValueDefinition| crate::translate::arg_view(i)), a.span)),
            None => None,
        },
        description: r.field.description,
        parent_type: (r.type_.item@, r.type_.location),
        root_fragment: r.root_fragment,
        location: r.location,
        deprecated: r.deprecated,
        live: r.live,
        fragment_arguments: match r.fragment_arguments {
            Some(v) => Some(v@),
            None => None,
        },
        source_hash: r.source_hash,
        semantic_non_null_levels: r.semantic_non_null_levels@,
    }
}

/// A type annotation with spans left out.
pub enum TypeShape {
    Named(Seq<char>),
    List(Box<TypeShape>),
    NonNull(Box<TypeShape>),
}

pub open spec fn type_shape(t: TypeView) -> TypeShape
    decreases t,
{
    match t {
        TypeView::Named { name, .. } => TypeShape::Named(name),
        TypeView::List { item, .. } => TypeShape::List(Box::new(type_shape(*item))),
        TypeView::NonNull { item, .. } => TypeShape::NonNull(Box::new(type_shape(*item))),
    }
}

pub fn same_type(a: &TypeAnnotation, b: &TypeAnnotation) -> (r: bool)
    ensures
        r == (type_shape(type_view(*a)) == type_shape(type_view(*b))),
    decreases a,
{
    match (a, b) {
        (TypeAnnotation::Named(x), TypeAnnotation::Named(y)) => x.value == y.value,
        (TypeAnnotation::List { item: x, .. }, TypeAnnotation::List { item: y, .. }) => same_type(x, y),
        (TypeAnnotation::NonNull { item: x, .. }, TypeAnnotation::NonNull { item: y, .. }) => same_type(x, y),
        _ => false,
    }
}

/// The index of the first fragment argument named `name` among the first `n`.
pub open spec fn first_named_argument(arguments: Seq<FragmentArgument>, name: Seq<char>, n: nat) -> Option<int>
    decreases n,
{
    if n == 0 {
        None
    } else {
        match first_named_argument(arguments, name, (n - 1) as nat) {
            Some(i) => Some(i),
            None => if arguments[n - 1].name.value@ == name {
                Some(n - 1)
            } else {
                None
            },
        }
    }
}

/// A field argument conflicts with the fragment's argument of the same name
/// when their types differ.
pub open spec fn argument_conflicts(argument: ArgView, fragment_arguments: Seq<FragmentArgument>) -> bool {
    match first_named_argument(fragment_arguments, argument.name, fragment_arguments.len()) {
        Some(k) => type_shape(type_view(fragment_arguments[k].type_)) != type_shape(argument.type_),
        None => false,
    }
}

/// The index of the first conflicting field argument among the first `n`.
pub open spec fn first_conflict(arguments: Seq<ArgView>, fragment_arguments: Seq<FragmentArgument>, n: nat) -> Option<
    int,
>
    decreases n,
{
    if n == 0 {
        None
    } else {
        match first_conflict(arguments, fragment_arguments, (n - 1) as nat) {
            Some(i) => Some(i),
            None => if argument_conflicts(arguments[n - 1], fragment_arguments) {
                Some(n - 1)
            } else {
                None
            },
        }
    }
}

proof fn lemma_first_named_stays(arguments: Seq<FragmentArgument>, name: Seq<char>, n: nat, m: nat)
    requires
        n <= m,
        first_named_argument(arguments, name, n) is Some,
    ensures
        first_named_argument(arguments, name, m) == first_named_argument(arguments, name, n),
    decreases m - n,
{
    if n < m {
        lemma_first_named_stays(arguments, name, n, (m - 1) as nat);
    }
}

proof fn lemma_first_conflict_stays(
    arguments: Seq<ArgView>,
    fragment_arguments: Seq<FragmentArgument>,
    n: nat,
    m: nat,
)
    requires
        n <= m,
        first_conflict(arguments, fragment_arguments, n) is Some,
    ensures
        first_conflict(arguments, fragment_arguments, m) == first_conflict(arguments, fragment_arguments, n),
    decreases m - n,
{
    if n < m {
        lemma_first_conflict_stays(arguments, fragment_arguments, n, (m - 1) as nat);
    }
}

/// The index of the fragment argument that `argument` conflicts with, if any.
fn argument_conflicts_exec(argument: &crate::schema::InputValueDefinition, fragment_arguments: &Vec<FragmentArgument>) -> (r: Option<usize>)
    ensures
        r is Some == argument_conflicts(crate::translate::arg_view(*argument), fragment_arguments@),
        r matches Some(k) ==> first_named_argument(
            fragment_arguments@,
            argument.name.value@,
            fragment_arguments@.len(),
        ) == Some(k as int) && k < fragment_arguments@.len(),
{
    let mut k: usize = 0;
    while k < fragment_arguments.len()
        invariant
            k <= fragment_arguments@.len(),
            first_named_argument(fragment_arguments@, argument.name.value@, k as nat) is None,
        decreases fragment_arguments@.len() - k,
    {
        if fragment_arguments[k].name.value == argument.name.value {
            proof {
                lemma_first_named_stays(
                    fragment_arguments@,
                    argument.name.value@,
                    (k + 1) as nat,
                    fragment_arguments@.len(),
                );
            }
            if same_type(&fragment_arguments[k].type_, &argument.type_) {
                return None;
            } else {
                return Some(k);
            }
        }
        k = k + 1;
    }
    None
}

/// The diagnostic for the conflicting field argument `args[i]`, which names
/// the fragment's argument.
pub open spec fn spec_conflict_error(
    source_location: SourceLocationKey,
    args: Seq<ArgView>,
    fragment_arguments: Seq<FragmentArgument>,
    i: int,
) -> Diagnostic {
    let k = first_named_argument(fragment_arguments, args[i].name, fragment_arguments.len())->Some_0;
    Diagnostic::spec_error(
        SchemaGenerationError::FragmentArgumentMismatch { name: fragment_arguments[k].name.value },
        Location { source_location, span: args[i].name_span },
    )
}

/// Checks the field's arguments against the arguments of its root fragment: an
/// argument that both declare must have the same type in both.
pub fn validate_fragment_arguments(
    source_location: SourceLocationKey,
    field_arguments: &FieldArguments,
    fragment_arguments: &Vec<FragmentArgument>,
) -> (r: Result<(), Diagnostic>)
    ensures
        ({
            let args = field_arguments.items@.map_values(|i: crate::schema::InputValueDefinition| crate::translate::arg_view(i));
            match first_conflict(args, fragment_arguments@, args.len()) {
                Some(i) => r == Err::<(), Diagnostic>(spec_conflict_error(source_location, args, fragment_arguments@, i)),
                None => r is Ok,
            }
        }),
{
    let ghost args = field_arguments.items@.map_values(|i: crate::schema::InputValueDefinition| crate::translate::arg_view(i));
    let mut i: usize = 0;
    while i < field_arguments.items.len()
        invariant
            i <= field_arguments.items@.len(),
            args == field_arguments.items@.map_values(|i: crate::schema::InputValueDefinition| crate::translate::arg_view(i)),
            first_conflict(args, fragment_arguments@, i as nat) is None,
        decreases field_arguments.items@.len() - i,
    {
        let argument = &field_arguments.items[i];
        if let Some(k) = argument_conflicts_exec(argument, fragment_arguments) {
            proof {
                lemma_first_conflict_stays(args, fragment_arguments@, (i + 1) as nat, args.len());
            }
            return Err(
                Diagnostic::error(
                    SchemaGenerationError::FragmentArgumentMismatch { name: fragment_arguments[k].name.value.clone() },
                    Location { source_location, span: argument.name.span },
                ),
            );
        }
        i = i + 1;
    }
    Ok(())
}

} // verus!

verus! {

/// The GraphQL type that a deferred field belongs to: the entity type when it
/// is known, else the type registered for its entity name, else `Query`.
pub open spec fn spec_parent_type(
    td: TypeDefinitions,
    mr: ModuleResolution,
    u: UnresolvedTSFieldDefinition,
) -> Result<(Seq<char>, Location), Diagnostic> {
    match u.entity_type {
        Some(t) => Ok((t.item@, t.location)),
        None => match u.entity_name {
            Some(entity) => match mr.spec_get(entity.spec_text()) {
                None => Err(
                    Diagnostic::spec_error(
                        SchemaGenerationError::ExpectedFlowDefinitionForEntity { entity },
                        entity.spec_location(),
                    ),
                ),
                Some(key) => match td.spec_get(key) {
                    Some(DocblockIr::StrongObject(o)) => Ok(
                        (o.name.value@, Location { source_location: o.location.source_location, span: o.name.span }),
                    ),
                    Some(DocblockIr::WeakObject(o)) => Ok(
                        (o.name.value@, Location { source_location: o.location.source_location, span: o.name.span }),
                    ),
                    None => Err(
                        Diagnostic::spec_error(
                            SchemaGenerationError::EntityModuleNotFound {
                                entity,
                                export_type: key.import_type,
                                module_name: key.module_name,
                            },
                            entity.spec_location(),
                        ),
                    ),
                },
            },
            None => Ok(("Query"@, u.field_name.location)),
        },
    }
}

/// The resolution of one deferred field declared in the module `source`: its
/// parent type, its arguments (checked against its root fragment's), and its
/// return type translated with semantic non-null tracking.
pub open spec fn spec_resolve_field(
    td: TypeDefinitions,
    csm: CustomScalarMap,
    resolutions: Map<u64, ModuleResolution>,
    u: UnresolvedTSFieldDefinition,
    source: SourceLocationKey,
) -> Result<ResolvedView, Diagnostic> {
    if !resolutions.contains_key(source.id) {
        Err(
            Diagnostic::spec_error(
                SchemaGenerationError::UnexpectedFailedToFindModuleResolution { source_location: source },
                u.field_name.location,
            ),
        )
    } else {
        let mr = resolutions[source.id];
        let arguments = match u.arguments {
            Some(a) => match spec_field_arguments(csm, a, mr, td, source) {
                Ok(args) => Ok(Some(args)),
                Err(d) => Err(d),
            },
            None => Ok(None),
        };
        let conflict = match (arguments, u.root_fragment) {
            (Ok(Some((args, _))), Some(rf)) => match first_conflict(args, rf.arguments@, args.len()) {
                Some(i) => Some(spec_conflict_error(source, args, rf.arguments@, i)),
                None => None,
            },
            _ => None,
        };
        match spec_parent_type(td, mr, u) {
            Err(d) => Err(d),
            Ok(parent_type) => match arguments {
                Err(d) => Err(d),
                Ok(arguments) => match conflict {
                    Some(d) => Err(d),
                    None => match spec_translate(csm, u.return_type, mr, td, true, source) {
                        Err(d) => Err(d),
                        Ok((type_annotation, levels)) => Ok(
                            ResolvedView {
                                name: Identifier { value: u.field_name.item, span: u.field_name.location.span },
                                type_annotation,
                                arguments,
                                description: u.description,
                                parent_type,
                                root_fragment: match u.root_fragment {
                                    Some(rf) => Some(rf.name),
                                    None => None,
                                },
                                location: u.field_name.location,
                                deprecated: u.deprecated,
                                live: u.is_live,
                                fragment_arguments: match u.root_fragment {
                                    Some(rf) => Some(rf.arguments@),
                                    None => None,
                                },
                                source_hash: u.source_hash,
                                semantic_non_null_levels: levels,
                            },
                        ),
                    },
                },
            },
        }
    }
}

/// Resolves one deferred field.
pub fn resolve_field(
    type_definitions: &TypeDefinitions,
    custom_scalar_map: &CustomScalarMap,
    module_resolutions: &HashMap<u64, ModuleResolution>,
    field: UnresolvedTSFieldDefinition,
    source_location: SourceLocationKey,
) -> (r: Result<TerseRelayResolverIr, Diagnostic>)
    ensures
        match r {
            Ok(ir) => spec_resolve_field(
                *type_definitions,
                *custom_scalar_map,
                module_resolutions@,
                field,
                source_location,
            ) == Ok::<ResolvedView, Diagnostic>(resolved_view(ir)),
            Err(d) => spec_resolve_field(
                *type_definitions,
                *custom_scalar_map,
                module_resolutions@,
                field,
                source_location,
            ) == Err::<ResolvedView, Diagnostic>(d),
        },
{
    let module_resolution = match module_resolutions.get(&source_location.id) {
        Some(m) => m,
        None => {
            return Err(
                Diagnostic::error(
                    SchemaGenerationError::UnexpectedFailedToFindModuleResolution { source_location },
                    field.field_name.location,
                ),
            );
        },
    };
    let location_handler = LocationHandler::new(source_location);
    let UnresolvedTSFieldDefinition {
        entity_name,
        field_name,
        return_type,
        arguments,
        source_hash,
        is_live,
        description,
        deprecated,
        root_fragment,
        entity_type,
    } = field;
    let parent_type = match entity_type {
        Some(t) => t,
        None => match &entity_name {
            Some(entity) => {
                let key = match module_resolution.get(&entity.text()) {
                    Some(k) => k,
                    None => {
                        return Err(
                            Diagnostic::error(
                                SchemaGenerationError::ExpectedFlowDefinitionForEntity { entity: entity.clone() },
                                entity.location(),
                            ),
                        );
                    },
                };
                match type_definitions.get(key) {
                    Some(DocblockIr::StrongObject(o)) => WithLocation {
                        item: o.name.value.clone(),
                        location: Location { source_location: o.location.source_location, span: o.name.span },
                    },
                    Some(DocblockIr::WeakObject(o)) => WithLocation {
                        item: o.name.value.clone(),
                        location: Location { source_location: o.location.source_location, span: o.name.span },
                    },
                    None => {
                        return Err(
                            Diagnostic::error(
                                SchemaGenerationError::EntityModuleNotFound {
                                    entity: entity.clone(),
                                    export_type: key.import_type.clone(),
                                    module_name: key.module_name.clone(),
                                },
                                entity.location(),
                            ),
                        );
                    },
                }
            },
            None => WithLocation { item: text("Query"), location: field_name.location },
        },
    };
    let field_arguments = match &arguments {
        Some(a) => match ts_type_to_field_arguments(
            custom_scalar_map,
            a,
            module_resolution,
            type_definitions,
            &location_handler,
        ) {
            Ok(args) => Some(args),
            Err(d) => return Err(d),
        },
        None => None,
    };
    match (&field_arguments, &root_fragment) {
        (Some(args), Some(rf)) => {
            match validate_fragment_arguments(source_location, args, &rf.arguments) {
                Ok(()) => {},
                Err(d) => return Err(d),
            }
        },
        _ => {},
    }
    let (type_annotation, levels) = match return_type_to_type_annotation(
        custom_scalar_map,
        &return_type,
        module_resolution,
        type_definitions,
        true,
        &location_handler,
    ) {
        Ok(p) => p,
        Err(d) => return Err(d),
    };
    let (root_fragment_name, fragment_arguments) = match root_fragment {
        Some(rf) => (Some(rf.name), Some(rf.arguments)),
        None => (None, None),
    };
    Ok(
        TerseRelayResolverIr {
            field: FieldDefinition {
                name: Identifier { value: field_name.item, span: field_name.location.span },
                type_: type_annotation,
                arguments: field_arguments,
                description,
            },
            type_: parent_type,
            root_fragment: root_fragment_name,
            location: field_name.location,
            deprecated,
            live: is_live,
            fragment_arguments,
            source_hash,
            semantic_non_null_levels: levels,
        },
    )
}

} // verus!

verus! {

/// The resolutions of the first `n` deferred fields, in order, and the
/// diagnostics of those that failed.
pub open spec fn spec_resolve_all(
    td: TypeDefinitions,
    csm: CustomScalarMap,
    resolutions: Map<u64, ModuleResolution>,
    fields: Seq<(UnresolvedTSFieldDefinition, SourceLocationKey)>,
    n: nat,
) -> (Seq<ResolvedView>, Seq<Diagnostic>)
    decreases n,
{
    if n == 0 {
        (Seq::empty(), Seq::empty())
    } else {
        let (resolved, errors) = spec_resolve_all(td, csm, resolutions, fields, (n - 1) as nat);
        match spec_resolve_field(td, csm, resolutions, fields[n - 1].0, fields[n - 1].1) {
            Ok(v) => (resolved.push(v), errors),
            Err(d) => (resolved, errors.push(d)),
        }
    }
}

pub open spec fn resolved_views(rs: Seq<TerseRelayResolverIr>) -> Seq<ResolvedView> {
    rs.map_values(|r: TerseRelayResolverIr| resolved_view(r))
}

impl TSRelayResolverExtractor {
    /// Resolves every deferred field against the types of all modules read. All
    /// fields are attempted; if any fails, the diagnostics of all that failed
    /// are returned, else the registered types and the resolved fields.
    pub fn resolve(self) -> (r: Result<(Vec<DocblockIr>, Vec<TerseRelayResolverIr>), Vec<Diagnostic>>)
        ensures
            ({
                let (resolved, errors) = spec_resolve_all(
                    self.type_definitions,
                    self.custom_scalar_map,
                    self.module_resolutions@,
                    self.unresolved_field_definitions@,
                    self.unresolved_field_definitions@.len(),
                );
                match r {
                    Ok((types, fields)) => {
                        &&& errors.len() == 0
                        &&& types@ == self.type_definitions.entries@.map_values(
                            |e: (ModuleResolutionKey, DocblockIr)| e.1,
                        )
                        &&& resolved_views(fields@) == resolved
                    },
                    Err(v) => errors.len() > 0 && v@ == errors,
                }
            }),
    {
        let TSRelayResolverExtractor {
            type_definitions,
            unresolved_field_definitions,
            module_resolutions,
            custom_scalar_map,
        } = self;
        let ghost all = unresolved_field_definitions@;
        let mut rest = unresolved_field_definitions;
        let mut resolved: Vec<TerseRelayResolverIr> = Vec::new();
        let mut errors: Vec<Diagnostic> = Vec::new();
        let ghost mut done: int = 0;
        assert(all.subrange(0, all.len() as int) =~= all);
        assert(resolved_views(resolved@) =~= Seq::<ResolvedView>::empty());
        while rest.len() > 0
            invariant
                0 <= done <= all.len(),
                rest@ == all.subrange(done, all.len() as int),
                (resolved_views(resolved@), errors@) == spec_resolve_all(
                    type_definitions,
                    custom_scalar_map,
                    module_resolutions@,
                    all,
                    done as nat,
                ),
            decreases rest@.len(),
        {
            let (field, source_location) = rest.remove(0);
            assert((field, source_location) == all[done]);
            let ghost before = resolved@;
            match resolve_field(&type_definitions, &custom_scalar_map, &module_resolutions, field, source_location) {
                Ok(ir) => {
                    resolved.push(ir);
                    assert(resolved_views(resolved@) =~= resolved_views(before).push(resolved_view(ir)));
                },
                Err(d) => {
                    errors.push(d);
                },
            }
            proof {
                done = done + 1;
                assert(rest@ =~= all.subrange(done, all.len() as int));
            }
        }
        if errors.len() > 0 {
            return Err(errors);
        }
        let TypeDefinitions { entries } = type_definitions;
        let ghost entries_all = entries@;
        let mut remaining = entries;
        let mut types: Vec<DocblockIr> = Vec::new();
        let ghost mut taken: int = 0;
        assert(entries_all.subrange(0, entries_all.len() as int) =~= entries_all);
        assert(types@ =~= entries_all.take(0).map_values(|e: (ModuleResolutionKey, DocblockIr)| e.1));
        while remaining.len() > 0
            invariant
                0 <= taken <= entries_all.len(),
                remaining@ == entries_all.subrange(taken, entries_all.len() as int),
                types@ == entries_all.take(taken).map_values(|e: (ModuleResolutionKey, DocblockIr)| e.1),
            decreases remaining@.len(),
        {
            let (_, data) = remaining.remove(0);
            types.push(data);
            proof {
                assert(entries_all.take(taken + 1) =~= entries_all.take(taken).push(entries_all[taken]));
                assert(types@ =~= entries_all.take(taken + 1).map_values(|e: (ModuleResolutionKey, DocblockIr)| e.1));
                taken = taken + 1;
                assert(remaining@ =~= entries_all.subrange(taken, entries_all.len() as int));
            }
        }
        assert(entries_all.take(taken) =~= entries_all);
        Ok((types, resolved))
    }
}

} // verus!
