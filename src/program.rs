//! A model of the compiled IR programs that artifact generation reads: for each
//! definition, its name, where it comes from, and the metadata directives that
//! decide which artifact it becomes.
use vstd::prelude::*;

use crate::location::SourceLocationKey;

verus! {

/// An interned name.
#[derive(Clone, Copy, Debug, PartialEq, Eq, Structural)]
pub struct StringKey {
    pub id: u64,
}

/// The name of an operation or of a fragment.
#[derive(Clone, Copy, Debug, PartialEq, Eq, Structural)]
pub enum ExecutableDefinitionName {
    OperationDefinitionName(StringKey),
    FragmentDefinitionName(StringKey),
}

/// How the raw response type of a split operation is generated.
#[derive(Clone, Copy, Debug, PartialEq, Eq, Structural)]
pub enum RawResponseGenerationMode {
    AllFieldsRequired,
    OptionalFields,
}

/// Marks a normalization operation that was split out of other documents.
#[derive(Debug)]
pub struct SplitOperationMetadata {
    /// Where the generated file belongs.
    pub location: SourceLocationKey,
    /// The documents that the operation was split from, in order.
    pub parent_documents: Vec<ExecutableDefinitionName>,
    pub raw_response_type_generation_mode: Option<RawResponseGenerationMode>,
    /// The fragment that the operation derives from, if any.
    pub derived_from: Option<StringKey>,
}

/// Marks a query generated for a client edge.
#[derive(Clone, Copy, Debug)]
pub struct ClientEdgeGeneratedQueryMetadata {
    pub source_name: ExecutableDefinitionName,
    pub source_location: SourceLocationKey,
}

/// The metadata directives of a definition that artifact generation reads.
#[derive(Debug)]
pub struct Directives {
    pub split_operation: Option<SplitOperationMetadata>,
    /// The hash of the resolver source that the definition was generated from.
    pub artifact_source: Option<String>,
    /// The fragment that a refetch query was derived from.
    pub refetchable_derived_from: Option<StringKey>,
    pub client_edge_generated_query: Option<ClientEdgeGeneratedQueryMetadata>,
    /// The `@updatable` directive.
    pub updatable: bool,
}

/// An operation or a fragment of a program.
#[derive(Debug)]
pub struct Definition {
    pub name: StringKey,
    /// The source document that the name was declared in.
    pub source_location: SourceLocationKey,
    pub directives: Directives,
}

/// The operations and fragments of one program.
#[derive(Debug)]
pub struct Program {
    pub operations: Vec<Definition>,
    pub fragments: Vec<Definition>,
}

/// The index of the last definition named `name`.
pub open spec fn last_named(defs: Seq<Definition>, name: StringKey) -> Option<int>
    decreases defs.len(),
{
    if defs.len() == 0 {
        None
    } else if defs.last().name == name {
        Some(defs.len() - 1)
    } else {
        last_named(defs.drop_last(), name)
    }
}

impl Program {
    pub open spec fn spec_fragment(&self, name: StringKey) -> Option<int> {
        last_named(self.fragments@, name)
    }

    /// The index of the fragment named `name`.
    pub fn fragment(&self, name: StringKey) -> (r: Option<usize>)
        ensures
            match r {
                Some(i) => self.spec_fragment(name) == Some(i as int) && i < self.fragments@.len(),
                None => self.spec_fragment(name) is None,
            },
    {
        let mut i: usize = self.fragments.len();
        assert(self.fragments@.take(i as int) =~= self.fragments@);
        while i > 0
            invariant
                i <= self.fragments@.len(),
                self.spec_fragment(name) == last_named(self.fragments@.take(i as int), name),
            decreases i,
        {
            proof {
                assert(self.fragments@.take(i as int).drop_last() =~= self.fragments@.take(i - 1));
            }
            if self.fragments[i - 1].name == name {
                return Some(i - 1);
            }
            i = i - 1;
        }
        None
    }
}

/// The programs that the compiler produced for a project: the source documents
/// and the four forms derived from them.
#[derive(Debug)]
pub struct Programs {
    pub source: Program,
    pub normalization: Program,
    pub operation_text: Program,
    pub reader: Program,
    pub typegen: Program,
}

/// The program without its fragments: they are compiled elsewhere.
pub fn remove_imported_fragments(program: Program) -> (r: Program)
    ensures
        r.operations@ == program.operations@,
        r.fragments@.len() == 0,
{
    Program { operations: program.operations, fragments: Vec::new() }
}

} // verus!
