//! The shape of a resolver declaration: the parts of a function or type alias
//! that declare a field or an object type.
use vstd::prelude::*;

use crate::ast::Decl;
use crate::ast::FnDecl;
use crate::ast::ModuleItem;
use crate::ast::TypeAliasDecl;
use crate::ast::Param;
use crate::ast::TsEntityName;
use crate::ast::TsKeywordKind;
use crate::ast::TsType;
use crate::diagnostics::Diagnostic;
use crate::extractor::TSRelayResolverExtractor;
use crate::diagnostics::SchemaGenerationError;
use crate::diagnostics::UnsupportedShape;
use crate::location::Location;
use crate::location::LocationHandler;
use crate::location::SourceLocationKey;
use crate::location::Span;
use crate::location::WithLocation;
use crate::translate::err;
use crate::translate::is_text;
use crate::translate::loc;
use crate::translate::shape_of;
use crate::translate::spec_shape_of;
use crate::translate::text;
use crate::text::before_dot;
use crate::text::before_first_dot;
use crate::text::contains_char;

verus! {

/// The data of a function declaration: a field, or a strong object type.
#[derive(Debug)]
pub struct FieldData {
    pub field_name: WithLocation<String>,
    pub return_type: TsType,
    pub entity_type: Option<TsType>,
    pub arguments: Option<TsType>,
    /// The declaration's location when it returns `LiveState<T>`.
    pub is_live: Option<Location>,
}

/// The data of a type alias declaration: a weak object type.
#[derive(Debug)]
pub struct WeakObjectData {
    pub field_name: WithLocation<String>,
    pub type_alias: TsType,
}

/// What a resolver declaration declares.
#[derive(Debug)]
pub enum ResolverTypescriptData {
    Strong(FieldData),
    Weak(WeakObjectData),
}

/// A keyword type that names a GraphQL scalar.
#[derive(Clone, Copy, Debug, PartialEq, Eq, Structural)]
pub enum KeywordScalar {
    /// `number`
    Float,
    /// `string`
    String,
}

/// The type that a resolver field is declared on.
#[derive(Debug)]
pub enum EntityName {
    /// A referenced type name.
    Reference(WithLocation<String>),
    /// A keyword type, which stands for the scalar of that name.
    Keyword { scalar: KeywordScalar, location: Location },
    /// A resolver name of the form `Type.field`: the type is the part before
    /// the first dot.
    DottedName(WithLocation<String>),
}

impl EntityName {
    /// The name under which the entity type is looked up.
    pub open spec fn spec_text(&self) -> Seq<char> {
        match self {
            EntityName::Reference(w) => w.item@,
            EntityName::Keyword { scalar: KeywordScalar::Float, .. } => "Float"@,
            EntityName::Keyword { scalar: KeywordScalar::String, .. } => "String"@,
            EntityName::DottedName(w) => if w.item@.contains('.') {
                before_dot(w.item@)
            } else {
                w.item@
            },
        }
    }

    pub open spec fn spec_location(&self) -> Location {
        match self {
            EntityName::Reference(w) => w.location,
            EntityName::Keyword { location, .. } => *location,
            EntityName::DottedName(w) => w.location,
        }
    }

    pub fn text(&self) -> (r: String)
        ensures
            r@ == self.spec_text(),
    {
        match self {
            EntityName::Reference(w) => w.item.clone(),
            EntityName::Keyword { scalar: KeywordScalar::Float, .. } => text("Float"),
            EntityName::Keyword { scalar: KeywordScalar::String, .. } => text("String"),
            EntityName::DottedName(w) => if contains_char(w.item.as_str(), '.') {
                before_first_dot(w.item.as_str())
            } else {
                w.item.clone()
            },
        }
    }

    pub fn location(&self) -> (r: Location)
        ensures
            r == self.spec_location(),
    {
        match self {
            EntityName::Reference(w) => w.location,
            EntityName::Keyword { location, .. } => *location,
            EntityName::DottedName(w) => w.location,
        }
    }
}

impl Clone for EntityName {
    fn clone(&self) -> (r: Self)
        ensures
            r == *self,
    {
        match self {
            EntityName::Reference(w) => EntityName::Reference(WithLocation { item: w.item.clone(), location: w.location }),
            EntityName::Keyword { scalar, location } => EntityName::Keyword { scalar: *scalar, location: *location },
            EntityName::DottedName(w) => EntityName::DottedName(WithLocation { item: w.item.clone(), location: w.location }),
        }
    }
}

/// The return type of a resolver function; `LiveState<T>` gives `T`, with the
/// declaration's location as the live marker.
pub open spec fn spec_return_type(node_span: Span, return_type: Option<TsType>, source: SourceLocationKey) -> Result<
    (TsType, Option<Location>),
    Diagnostic,
> {
    match return_type {
        None => err(SchemaGenerationError::MissingReturnType, source, node_span),
        Some(rt) => match rt {
            TsType::TypeRef { entity, type_params, span } => match entity {
                TsEntityName::Qualified { right, .. } => err(
                    SchemaGenerationError::UnsupportedType { shape: UnsupportedShape::QualifiedName(right.name) },
                    source,
                    span,
                ),
                TsEntityName::Ident(id) => if type_params matches Some(ps) && ps@.len() > 1 {
                    err(
                        SchemaGenerationError::UnsupportedType { shape: UnsupportedShape::MultipleTypeParameters },
                        source,
                        span,
                    )
                } else if id.name@ == "LiveState"@ {
                    match type_params {
                        Some(ps) if ps@.len() == 1 => Ok((ps@[0], Some(loc(source, node_span)))),
                        _ => err(SchemaGenerationError::LiveStateExpectedSingleGeneric, source, span),
                    }
                } else {
                    Ok((rt, None))
                },
            },
            _ => Ok((rt, None)),
        },
    }
}

/// The entity type of a resolver function: the annotation of its first parameter.
pub open spec fn spec_entity_type(node_span: Span, first: Option<Param>, source: SourceLocationKey) -> Result<
    Option<TsType>,
    Diagnostic,
> {
    match first {
        None => Ok(None),
        Some(Param::Ident { type_ann, span, .. }) => match type_ann {
            None => err(SchemaGenerationError::MissingParamType, source, span),
            Some(t) => Ok(Some(t)),
        },
        Some(Param::Other { printed, .. }) => err(
            SchemaGenerationError::UnsupportedType { shape: UnsupportedShape::Pattern(printed) },
            source,
            node_span,
        ),
    }
}

/// The arguments type of a resolver function: the annotation of its second
/// parameter, when that is a plain identifier.
pub open spec fn spec_arguments_type(second: Option<Param>, source: SourceLocationKey) -> Result<
    Option<TsType>,
    Diagnostic,
> {
    match second {
        Some(Param::Ident { type_ann, span, .. }) => match type_ann {
            None => err(SchemaGenerationError::MissingParamType, source, span),
            Some(t) => Ok(Some(t)),
        },
        _ => Ok(None),
    }
}

pub open spec fn spec_extract_function(node: FnDecl, source: SourceLocationKey) -> Result<FieldData, Diagnostic> {
    let field_name = WithLocation { item: node.ident.name, location: loc(source, node.ident.span) };
    let params = node.params@;
    let first = if params.len() > 0 { Some(params[0]) } else { None };
    let second = if params.len() > 1 { Some(params[1]) } else { None };
    match spec_return_type(node.span, node.return_type, source) {
        Err(d) => Err(d),
        Ok((return_type, is_live)) => match spec_entity_type(node.span, first, source) {
            Err(d) => Err(d),
            Ok(entity_type) => match spec_arguments_type(second, source) {
                Err(d) => Err(d),
                Ok(arguments) => Ok(FieldData { field_name, return_type, entity_type, arguments, is_live }),
            },
        },
    }
}

/// The declaration that a statement of a module holds, or why it holds none.
pub open spec fn spec_extract_graphql_types(item: ModuleItem, range: Span, source: SourceLocationKey) -> Result<
    ResolverTypescriptData,
    Diagnostic,
> {
    match item {
        ModuleItem::ExportDecl { decl, .. } => match decl {
            Decl::Fn(f) => match spec_extract_function(f, source) {
                Ok(d) => Ok(ResolverTypescriptData::Strong(d)),
                Err(d) => Err(d),
            },
            Decl::TypeAlias(a) => Ok(
                ResolverTypescriptData::Weak(
                    WeakObjectData {
                        field_name: WithLocation { item: a.id.name, location: loc(source, a.span) },
                        type_alias: a.type_ann,
                    },
                ),
            ),
            Decl::Other { .. } => err(SchemaGenerationError::ExpectedFunctionOrTypeAlias, source, range),
        },
        _ => err(SchemaGenerationError::ExpectedNamedExport, source, range),
    }
}

/// The type that an entity annotation names: a type reference, or `number` and
/// `string` for their scalars.
pub open spec fn spec_entity_name(entity_type: TsType, source: SourceLocationKey) -> Result<EntityName, Diagnostic> {
    match entity_type {
        TsType::TypeRef { entity: TsEntityName::Ident(id), .. } => Ok(
            EntityName::Reference(WithLocation { item: id.name, location: loc(source, id.span) }),
        ),
        TsType::Keyword { kind: TsKeywordKind::Number, span } => Ok(
            EntityName::Keyword { scalar: KeywordScalar::Float, location: loc(source, span) },
        ),
        TsType::Keyword { kind: TsKeywordKind::String, span } => Ok(
            EntityName::Keyword { scalar: KeywordScalar::String, location: loc(source, span) },
        ),
        _ => err(
            SchemaGenerationError::UnsupportedType { shape: spec_shape_of(entity_type) },
            source,
            entity_type.spec_span(),
        ),
    }
}

/// Takes the return type out of a resolver function's declaration.
pub fn extract_return_type_from_resolver_function(
    node_span: Span,
    return_type: Option<TsType>,
    location_handler: &LocationHandler,
) -> (r: Result<(TsType, Option<Location>), Diagnostic>)
    ensures
        r == spec_return_type(node_span, return_type, location_handler.source_location_key),
{
    let rt = match return_type {
        Some(rt) => rt,
        None => {
            return Err(
                Diagnostic::error(SchemaGenerationError::MissingReturnType, location_handler.to_location(node_span)),
            )
        },
    };
    match rt {
        TsType::TypeRef { entity, type_params, span } => match entity {
            TsEntityName::Qualified { right, .. } => Err(
                Diagnostic::error(
                    SchemaGenerationError::UnsupportedType { shape: UnsupportedShape::QualifiedName(right.name) },
                    location_handler.to_location(span),
                ),
            ),
            TsEntityName::Ident(id) => {
                let n_params: usize = match &type_params {
                    Some(ps) => ps.len(),
                    None => 0,
                };
                if type_params.is_some() && n_params > 1 {
                    Err(
                        Diagnostic::error(
                            SchemaGenerationError::UnsupportedType {
                                shape: UnsupportedShape::MultipleTypeParameters,
                            },
                            location_handler.to_location(span),
                        ),
                    )
                } else if is_text(&id.name, "LiveState") {
                    match type_params {
                        Some(mut ps) => {
                            if ps.len() == 1 {
                                let param = ps.remove(0);
                                Ok((param, Some(location_handler.to_location(node_span))))
                            } else {
                                Err(
                                    Diagnostic::error(
                                        SchemaGenerationError::LiveStateExpectedSingleGeneric,
                                        location_handler.to_location(span),
                                    ),
                                )
                            }
                        },
                        None => Err(
                            Diagnostic::error(
                                SchemaGenerationError::LiveStateExpectedSingleGeneric,
                                location_handler.to_location(span),
                            ),
                        ),
                    }
                } else {
                    Ok((TsType::TypeRef { entity: TsEntityName::Ident(id), type_params, span }, None))
                }
            },
        },
        _ => Ok((rt, None)),
    }
}

/// The entity type of a resolver function, from its first parameter.
pub fn extract_entity_type_from_resolver_function(
    node_span: Span,
    first: Option<Param>,
    location_handler: &LocationHandler,
) -> (r: Result<Option<TsType>, Diagnostic>)
    ensures
        r == spec_entity_type(node_span, first, location_handler.source_location_key),
{
    match first {
        None => Ok(None),
        Some(Param::Ident { type_ann, span, .. }) => match type_ann {
            None => Err(Diagnostic::error(SchemaGenerationError::MissingParamType, location_handler.to_location(span))),
            Some(t) => Ok(Some(t)),
        },
        Some(Param::Other { printed, .. }) => Err(
            Diagnostic::error(
                SchemaGenerationError::UnsupportedType { shape: UnsupportedShape::Pattern(printed) },
                location_handler.to_location(node_span),
            ),
        ),
    }
}

/// The arguments type of a resolver function, from its second parameter.
pub fn extract_params_from_second_argument(
    second: Option<Param>,
    location_handler: &LocationHandler,
) -> (r: Result<Option<TsType>, Diagnostic>)
    ensures
        r == spec_arguments_type(second, location_handler.source_location_key),
{
    match second {
        Some(Param::Ident { type_ann, span, .. }) => match type_ann {
            None => Err(
                Diagnostic::error(SchemaGenerationError::MissingParamType, location_handler.to_location(span)),
            ),
            Some(t) => Ok(Some(t)),
        },
        _ => Ok(None),
    }
}

impl TSRelayResolverExtractor {
    /// Reads a function declaration as a field (or strong object) declaration.
    pub fn extract_function(&self, node: FnDecl, location_handler: &LocationHandler) -> (r: Result<FieldData, Diagnostic>)
        ensures
            r == spec_extract_function(node, location_handler.source_location_key),
    {
        let FnDecl { ident, mut params, return_type, span } = node;
        let field_name = WithLocation { item: ident.name, location: location_handler.to_location(ident.span) };
        let (return_type, is_live) = match extract_return_type_from_resolver_function(
            span,
            return_type,
            location_handler,
        ) {
            Ok(p) => p,
            Err(d) => return Err(d),
        };
        let ghost all = params@;
        let second = if params.len() > 1 {
            Some(params.remove(1))
        } else {
            None
        };
        let first = if params.len() > 0 {
            Some(params.remove(0))
        } else {
            None
        };
        let entity_type = match extract_entity_type_from_resolver_function(span, first, location_handler) {
            Ok(e) => e,
            Err(d) => return Err(d),
        };
        let arguments = match extract_params_from_second_argument(second, location_handler) {
            Ok(a) => a,
            Err(d) => return Err(d),
        };
        Ok(FieldData { field_name, return_type, entity_type, arguments, is_live })
    }

    /// Reads a type alias as a weak object declaration.
    pub fn extract_type_alias(&self, node: TypeAliasDecl, location_handler: &LocationHandler) -> (r: WeakObjectData)
        ensures
            r == (WeakObjectData {
                field_name: WithLocation { item: node.id.name, location: loc(location_handler.source_location_key, node.span) },
                type_alias: node.type_ann,
            }),
    {
        WeakObjectData {
            field_name: WithLocation { item: node.id.name, location: location_handler.to_location(node.span) },
            type_alias: node.type_ann,
        }
    }

    /// Reads a statement as a resolver declaration: an exported function or type alias.
    pub fn extract_graphql_types(&self, item: ModuleItem, range: Span, location_handler: &LocationHandler) -> (r: Result<
        ResolverTypescriptData,
        Diagnostic,
    >)
        ensures
            r == spec_extract_graphql_types(item, range, location_handler.source_location_key),
    {
        match item {
            ModuleItem::ExportDecl { decl, .. } => match decl {
                Decl::Fn(f) => match self.extract_function(f, location_handler) {
                    Ok(d) => Ok(ResolverTypescriptData::Strong(d)),
                    Err(d) => Err(d),
                },
                Decl::TypeAlias(a) => Ok(ResolverTypescriptData::Weak(self.extract_type_alias(a, location_handler))),
                Decl::Other { .. } => Err(
                    Diagnostic::error(
                        SchemaGenerationError::ExpectedFunctionOrTypeAlias,
                        location_handler.to_location(range),
                    ),
                ),
            },
            _ => Err(Diagnostic::error(SchemaGenerationError::ExpectedNamedExport, location_handler.to_location(range))),
        }
    }

    /// The type that a field's entity annotation names.
    pub fn extract_entity_name(&self, entity_type: TsType, location_handler: &LocationHandler) -> (r: Result<
        EntityName,
        Diagnostic,
    >)
        ensures
            r == spec_entity_name(entity_type, location_handler.source_location_key),
    {
        let span = entity_type.span();
        let shape = shape_of(&entity_type);
        match entity_type {
            TsType::TypeRef { entity: TsEntityName::Ident(id), .. } => Ok(
                EntityName::Reference(WithLocation { item: id.name, location: location_handler.to_location(id.span) }),
            ),
            TsType::Keyword { kind: TsKeywordKind::Number, span } => Ok(
                EntityName::Keyword { scalar: KeywordScalar::Float, location: location_handler.to_location(span) },
            ),
            TsType::Keyword { kind: TsKeywordKind::String, span } => Ok(
                EntityName::Keyword { scalar: KeywordScalar::String, location: location_handler.to_location(span) },
            ),
            _ => Err(
                Diagnostic::error(
                    SchemaGenerationError::UnsupportedType { shape },
                    location_handler.to_location(span),
                ),
            ),
        }
    }
}

} // verus!
