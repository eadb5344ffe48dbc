//! Diagnostics reported by resolver extraction.
use vstd::prelude::*;

use crate::location::Location;
use crate::location::SourceLocationKey;
use crate::resolution::JSImportType;
use crate::extract::EntityName;

verus! {

/// Which kind of type annotation an `UnsupportedType` diagnostic refers to.
#[derive(Debug)]
pub enum UnsupportedShape {
    /// A qualified name `A.B`; holds the right-hand identifier.
    QualifiedName(String),
    Intersection,
    ObjectLiteral,
    /// A keyword type other than `string`, `number` and `boolean`.
    Keyword,
    /// A union with no member but `null` and `undefined`.
    OnlyNullable,
    /// A string literal type where a type was expected.
    StringLiteral,
    /// A generic reference with more than one type parameter.
    MultipleTypeParameters,
    /// A parameter that is not a plain identifier, printed back as source.
    Pattern(String),
    /// Any other kind of type.
    Other,
}

/// What went wrong.
#[derive(Debug)]
pub enum SchemaGenerationError {
    UnsupportedType { shape: UnsupportedShape },
    UnexpectedNullableStrongType,
    ExpectedFunctionOrTypeAlias,
    ExpectedNamedExport,
    ExpectedFlowDefinitionForType { name: String },
    /// The entity type of a resolver field is not declared in its module.
    ExpectedFlowDefinitionForEntity { entity: EntityName },
    UseNamedOrDefaultImport,
    ObjectNotSupported,
    ExpectedWeakObjectToHaveFields,
    ExpectedTypeAliasToBeObject,
    /// A second definition for the same module key; the diagnostic's annotation
    /// points at the first one.
    DuplicateTypeDefinitions { module_name: String, import_type: JSImportType },
    UnexpectedFailedToFindModuleResolution { source_location: SourceLocationKey },
    ModuleNotFound { entity_name: String, export_type: JSImportType, module_name: String },
    /// The entity type of a resolver field names no declared resolver type.
    EntityModuleNotFound { entity: EntityName, export_type: JSImportType, module_name: String },
    StrongReturnTypeNotAllowed { typename: String },
    UnsupportedGeneric { name: String },
    /// A generic reference with no type parameter or with more than one.
    ExpectedSingleTypeParameter,
    /// `IdOf` whose type parameter is not a string literal type.
    ExpectedStringLiteralTypeParameter,
    /// Semantic non-null levels nested deeper than the level counter holds.
    NestingTooDeep,
    IncorrectArgumentsDefinition,
    MissingParamType,
    MissingReturnType,
    LiveStateExpectedSingleGeneric,
    /// A module path with no file name, so no module name can be derived from it.
    InvalidModulePath,
    MissingResolverName,
    /// The `$key` type of an entity names no fragment of the module.
    FragmentNotFound { entity: EntityName },
    /// The resolver's field arguments do not declare a fragment argument, or
    /// declare it with another type.
    FragmentArgumentMismatch { name: String },
}

/// A secondary location attached to a diagnostic.
#[derive(Debug)]
pub enum AnnotationKind {
    PreviousTypeDefinition,
    /// The place where the named identifier is imported.
    ImportedFrom { name: String },
}

#[derive(Debug)]
pub struct Annotation {
    pub kind: AnnotationKind,
    pub location: Location,
}

/// An error at a location of the source, with at most one related location.
#[derive(Debug)]
pub struct Diagnostic {
    pub error: SchemaGenerationError,
    pub location: Location,
    pub annotation: Option<Annotation>,
}

impl Diagnostic {
    pub open spec fn spec_error(error: SchemaGenerationError, location: Location) -> Diagnostic {
        Diagnostic { error, location, annotation: None }
    }

    pub fn error(error: SchemaGenerationError, location: Location) -> (r: Diagnostic)
        ensures
            r == Diagnostic::spec_error(error, location),
    {
        Diagnostic { error, location, annotation: None }
    }
}

} // verus!
