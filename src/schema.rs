//! The schema IR that extraction produces: GraphQL type annotations, resolver
//! object types, and the tables that map source types to them.
use vstd::prelude::*;

use crate::diagnostics::Annotation;
use crate::diagnostics::AnnotationKind;
use crate::diagnostics::Diagnostic;
use crate::diagnostics::SchemaGenerationError;
use crate::location::Location;
use crate::location::SourceLocationKey;
use crate::location::Span;
use crate::location::WithLocation;
use crate::resolution::key_matches;
use crate::resolution::keys_match;
use crate::resolution::ModuleResolutionKey;

verus! {

/// A GraphQL name with its span.
#[derive(Debug)]
pub struct Identifier {
    pub value: String,
    pub span: Span,
}

impl Clone for Identifier {
    fn clone(&self) -> (r: Self)
        ensures
            r == *self,
    {
        Identifier { value: self.value.clone(), span: self.span }
    }
}

impl Identifier {
    /// The name as a located value in the given source.
    pub open spec fn spec_name_with_location(&self, source: SourceLocationKey) -> (Seq<char>, Location) {
        (self.value@, Location { source_location: source, span: self.span })
    }
}

/// A GraphQL type annotation: `T`, `[T]` or `T!`.
#[derive(Debug)]
pub enum TypeAnnotation {
    Named(Identifier),
    List { span: Span, item: Box<TypeAnnotation> },
    NonNull { span: Span, item: Box<TypeAnnotation> },
}

/// The meaning of a `TypeAnnotation`, with names as character sequences.
pub enum TypeView {
    Named { name: Seq<char>, span: Span },
    List { span: Span, item: Box<TypeView> },
    NonNull { span: Span, item: Box<TypeView> },
}

pub open spec fn type_view(t: TypeAnnotation) -> TypeView
    decreases t,
{
    match t {
        TypeAnnotation::Named(i) => TypeView::Named { name: i.value@, span: i.span },
        TypeAnnotation::List { span, item } => TypeView::List { span, item: Box::new(type_view(*item)) },
        TypeAnnotation::NonNull { span, item } => TypeView::NonNull {
            span,
            item: Box::new(type_view(*item)),
        },
    }
}

/// An argument of a resolver field.
#[derive(Debug)]
pub struct InputValueDefinition {
    pub name: Identifier,
    pub type_: TypeAnnotation,
    /// The span of the whole property that declares the argument.
    pub span: Span,
}

/// The arguments of a resolver field, with the span of the object type that declares them.
#[derive(Debug)]
pub struct FieldArguments {
    pub items: Vec<InputValueDefinition>,
    pub span: Span,
}

/// The hash of the source text that declares a resolver.
#[derive(Debug)]
pub struct ResolverSourceHash {
    pub value: String,
}

impl Clone for ResolverSourceHash {
    fn clone(&self) -> (r: Self)
        ensures
            r == *self,
    {
        ResolverSourceHash { value: self.value.clone() }
    }
}

/// A located string value, such as a description.
pub type LocatedString = WithLocation<String>;

pub fn clone_located(s: &LocatedString) -> (r: LocatedString)
    ensures
        r == *s,
{
    WithLocation { item: s.item.clone(), location: s.location }
}

pub fn clone_opt_located(s: &Option<LocatedString>) -> (r: Option<LocatedString>)
    ensures
        r == *s,
{
    match s {
        Some(v) => Some(clone_located(v)),
        None => None,
    }
}

/// A GraphQL object type with server-resolvable identity, declared by a resolver.
#[derive(Debug)]
pub struct StrongObjectIr {
    pub name: Identifier,
    pub rhs_location: Location,
    pub description: Option<LocatedString>,
    /// Where the declaration is marked live, if it is.
    pub live: Option<Location>,
    pub location: Location,
    pub source_hash: ResolverSourceHash,
}

impl StrongObjectIr {
    /// The synthesized fragment `<Name>__id` that reads the object's identity.
    pub fn root_fragment(&self) -> (r: LocatedString)
        ensures
            r.item@ == self.name.value@ + "__id"@,
            r.location == self.location,
    {
        let mut item = self.name.value.clone();
        item.append("__id");
        WithLocation { item, location: self.location }
    }
}

/// A GraphQL object type that is a plain value shape.
#[derive(Debug)]
pub struct WeakObjectIr {
    pub name: Identifier,
    pub rhs_location: Location,
    pub description: Option<LocatedString>,
    pub location: Location,
    pub source_hash: ResolverSourceHash,
}

/// A type declared by a resolver.
#[derive(Debug)]
pub enum DocblockIr {
    StrongObject(StrongObjectIr),
    WeakObject(WeakObjectIr),
}

impl DocblockIr {
    pub open spec fn spec_location(&self) -> Location {
        match self {
            DocblockIr::StrongObject(o) => o.location,
            DocblockIr::WeakObject(o) => o.location,
        }
    }

    pub fn location(&self) -> (r: Location)
        ensures
            r == self.spec_location(),
    {
        match self {
            DocblockIr::StrongObject(o) => o.location,
            DocblockIr::WeakObject(o) => o.location,
        }
    }
}

/// The index of the last entry whose key matches `key`.
pub open spec fn last_match<V>(entries: Seq<(ModuleResolutionKey, V)>, key: ModuleResolutionKey) -> Option<
    int,
>
    decreases entries.len(),
{
    if entries.len() == 0 {
        None
    } else if key_matches(entries.last().0, key) {
        Some(entries.len() - 1)
    } else {
        last_match(entries.drop_last(), key)
    }
}

/// The table of declared types, by the module key that names them. No two
/// entries have matching keys.
#[derive(Debug)]
pub struct TypeDefinitions {
    pub entries: Vec<(ModuleResolutionKey, DocblockIr)>,
}

impl TypeDefinitions {
    pub open spec fn wf(&self) -> bool {
        forall|i: int, j: int|
            0 <= i < j < self.entries@.len() ==> !key_matches(
                #[trigger] self.entries@[i].0,
                #[trigger] self.entries@[j].0,
            )
    }

    /// The definition registered under `key`.
    pub open spec fn spec_get(&self, key: ModuleResolutionKey) -> Option<DocblockIr> {
        match last_match(self.entries@, key) {
            Some(i) => Some(self.entries@[i].1),
            None => None,
        }
    }

    pub fn new() -> (r: TypeDefinitions)
        ensures
            r.entries@.len() == 0,
            r.wf(),
    {
        TypeDefinitions { entries: Vec::new() }
    }

    pub fn find(&self, key: &ModuleResolutionKey) -> (r: Option<usize>)
        ensures
            r matches Some(i) ==> last_match(self.entries@, *key) == Some(i as int) && i
                < self.entries@.len(),
            r is None ==> last_match(self.entries@, *key) is None,
            r is None ==> forall|j: int|
                0 <= j < self.entries@.len() ==> !key_matches(#[trigger] self.entries@[j].0, *key),
    {
        let mut i: usize = self.entries.len();
        assert(self.entries@.take(i as int) =~= self.entries@);
        while i > 0
            invariant
                i <= self.entries@.len(),
                last_match(self.entries@, *key) == last_match(self.entries@.take(i as int), *key),
                forall|j: int|
                    i <= j < self.entries@.len() ==> !key_matches(#[trigger] self.entries@[j].0, *key),
            decreases i,
        {
            proof {
                assert(self.entries@.take(i as int).drop_last() =~= self.entries@.take(i - 1));
            }
            if keys_match(&self.entries[i - 1].0, key) {
                return Some(i - 1);
            }
            i = i - 1;
        }
        None
    }

    pub fn get(&self, key: &ModuleResolutionKey) -> (r: Option<&DocblockIr>)
        ensures
            crate::resolution::deref_option(r) == self.spec_get(*key),
    {
        match self.find(key) {
            Some(i) => Some(&self.entries[i].1),
            None => None,
        }
    }

    /// Registers `data` under `key`. A key that matches a registered one is an
    /// error that points at both definitions, and leaves the table as it was.
    pub fn insert(&mut self, key: ModuleResolutionKey, data: DocblockIr) -> (r: Result<(), Diagnostic>)
        requires
            old(self).wf(),
        ensures
            final(self).wf(),
            match last_match(old(self).entries@, key) {
                Some(i) => {
                    &&& r == Err::<(), Diagnostic>(Diagnostic {
                        error: SchemaGenerationError::DuplicateTypeDefinitions {
                            module_name: old(self).entries@[i].0.module_name,
                            import_type: old(self).entries@[i].0.import_type,
                        },
                        location: data.spec_location(),
                        annotation: Some(Annotation {
                            kind: AnnotationKind::PreviousTypeDefinition,
                            location: old(self).entries@[i].1.spec_location(),
                        }),
                    })
                    &&& final(self).entries@ == old(self).entries@
                },
                None => {
                    &&& r is Ok
                    &&& final(self).entries@ == old(self).entries@.push((key, data))
                },
            },
    {
        match self.find(&key) {
            Some(i) => {
                let existing = &self.entries[i];
                Err(Diagnostic {
                    error: SchemaGenerationError::DuplicateTypeDefinitions {
                        module_name: existing.0.module_name.clone(),
                        import_type: existing.0.import_type.clone(),
                    },
                    location: data.location(),
                    annotation: Some(Annotation {
                        kind: AnnotationKind::PreviousTypeDefinition,
                        location: existing.1.location(),
                    }),
                })
            },
            None => {
                self.entries.push((key, data));
                Ok(())
            },
        }
    }
}

} // verus!
