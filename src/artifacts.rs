//! Grouping of the definitions of the IR programs by document, and the artifact
//! descriptors generated for each group and each reader fragment.
use vstd::prelude::*;

use std::collections::HashMap;

use crate::location::SourceLocationKey;
use crate::program::Definition;
use crate::program::ExecutableDefinitionName;
use crate::program::Programs;
use crate::program::RawResponseGenerationMode;
use crate::program::StringKey;

verus! {

/// The content hash of each source document, by its name.
#[derive(Debug)]
pub struct SourceHashes {
    pub operations: HashMap<u64, String>,
    pub fragments: HashMap<u64, String>,
}

impl SourceHashes {
    pub open spec fn spec_get(&self, name: ExecutableDefinitionName) -> Option<String> {
        let (m, key) = match name {
            ExecutableDefinitionName::OperationDefinitionName(k) => (self.operations@, k.id),
            ExecutableDefinitionName::FragmentDefinitionName(k) => (self.fragments@, k.id),
        };
        if m.contains_key(key) {
            Some(m[key])
        } else {
            None
        }
    }

    pub fn new() -> (r: SourceHashes)
        ensures
            r.operations@ == Map::<u64, String>::empty(),
            r.fragments@ == Map::<u64, String>::empty(),
    {
        SourceHashes { operations: HashMap::new(), fragments: HashMap::new() }
    }

    pub fn insert(&mut self, name: ExecutableDefinitionName, hash: String)
        ensures
            forall|n: ExecutableDefinitionName|
                #[trigger] final(self).spec_get(n) == if n == name {
                    Some(hash)
                } else {
                    old(self).spec_get(n)
                },
    {
        match name {
            ExecutableDefinitionName::OperationDefinitionName(k) => {
                self.operations.insert(k.id, hash);
            },
            ExecutableDefinitionName::FragmentDefinitionName(k) => {
                self.fragments.insert(k.id, hash);
            },
        }
    }

    /// The hash of the document `name`.
    pub fn get(&self, name: ExecutableDefinitionName) -> (r: Option<String>)
        ensures
            r == self.spec_get(name),
    {
        let found = match name {
            ExecutableDefinitionName::OperationDefinitionName(k) => self.operations.get(&k.id),
            ExecutableDefinitionName::FragmentDefinitionName(k) => self.fragments.get(&k.id),
        };
        match found {
            Some(h) => Some(h.clone()),
            None => None,
        }
    }
}

/// Why an artifact exists: a source document, or the hash of a resolver's source.
#[derive(Debug)]
pub enum ArtifactSourceKey {
    ExecutableDefinition(ExecutableDefinitionName),
    ResolverHash(String),
}

/// What the output path of an artifact is built from: the source file and the
/// name of the definition.
#[derive(Clone, Copy, Debug, PartialEq, Eq, Structural)]
pub struct ArtifactPath {
    pub source_file: SourceLocationKey,
    pub name: StringKey,
}

/// The content of an artifact. Definitions are given by their index among the
/// operations or fragments of the program named in each field.
#[derive(Debug)]
pub enum ArtifactContent {
    Operation {
        /// In the normalization program.
        normalization_operation: usize,
        /// In the reader program.
        reader_operation: usize,
        /// In the typegen program.
        typegen_operation: usize,
        /// In the operation text program.
        operation_text: Option<usize>,
        source_hash: String,
    },
    SplitOperation {
        /// In the normalization program.
        normalization_operation: usize,
        /// The normalization operation again, where a raw response type is generated.
        typegen_operation: Option<usize>,
        no_optional_fields_in_raw_response_type: bool,
        source_hash: Option<String>,
    },
    UpdatableQuery {
        /// In the reader program.
        reader_operation: usize,
        /// In the typegen program.
        typegen_operation: usize,
        source_hash: String,
    },
    Fragment {
        /// Among the fragments of the reader program.
        reader_fragment: usize,
        /// Among the fragments of the typegen program.
        typegen_fragment: usize,
        source_hash: Option<String>,
    },
    /// The contents of all artifacts of one source file, in order.
    MixedGraphQL { artifacts: Vec<ArtifactContent> },
}

/// A generated output file.
#[derive(Debug)]
pub struct Artifact {
    /// The source documents or resolver hashes that this artifact is generated from.
    pub artifact_source_keys: Vec<ArtifactSourceKey>,
    pub path: ArtifactPath,
    pub content: ArtifactContent,
    /// The source file responsible for generating this file.
    pub source_file: SourceLocationKey,
}

/// An `Artifact` with its keys as a sequence.
pub struct ArtifactView {
    pub keys: Seq<ArtifactSourceKey>,
    pub path: ArtifactPath,
    pub content: ArtifactContent,
    pub source_file: SourceLocationKey,
}

impl Artifact {
    pub open spec fn view(&self) -> ArtifactView {
        ArtifactView {
            keys: self.artifact_source_keys@,
            path: self.path,
            content: self.content,
            source_file: self.source_file,
        }
    }
}

pub open spec fn artifact_result_view(r: Result<Artifact, InternalError>) -> Result<ArtifactView, InternalError> {
    match r {
        Ok(a) => Ok(a.view()),
        Err(e) => Err(e),
    }
}

/// A broken invariant of the IR programs: the pipeline that built them is at fault.
#[derive(Clone, Copy, Debug, PartialEq, Eq, Structural)]
pub enum InternalError {
    /// A group with neither a normalization operation nor an `@updatable` reader.
    NoNormalizationOrUpdatableReader { source_location: SourceLocationKey },
    /// The fragment that a refetch query derives from is not in the source program.
    MissingSourceFragment { name: StringKey },
    MissingSourceHash { name: ExecutableDefinitionName },
    /// The reader operation for the named normalization operation is missing.
    MissingReader { name: StringKey },
    MissingTypegen { name: StringKey },
    MissingTypegenFragment { name: StringKey },
}

/// The definitions of one document (a name declared in a source) in the different programs, as indices among
/// the operations of each program.
#[derive(Clone, Copy, Debug, PartialEq, Eq, Structural)]
pub struct OperationGroup {
    /// The name of the document.
    pub name: StringKey,
    /// The source that declares the document.
    pub source_location: SourceLocationKey,
    pub normalization: Option<usize>,
    pub operation_text: Option<usize>,
    pub reader: Option<usize>,
    pub typegen: Option<usize>,
}

pub open spec fn index_in(i: Option<usize>, defs: Seq<Definition>) -> bool {
    i matches Some(k) ==> k < defs.len()
}

impl OperationGroup {
    /// Every index points at an operation of its program.
    pub open spec fn valid_for(&self, p: Programs) -> bool {
        &&& index_in(self.normalization, p.normalization.operations@)
        &&& index_in(self.operation_text, p.operation_text.operations@)
        &&& index_in(self.reader, p.reader.operations@)
        &&& index_in(self.typegen, p.typegen.operations@)
    }
}

/// The artifact of a normalization operation with its reader and typegen forms.
pub open spec fn spec_normalization_artifact(
    p: Programs,
    g: OperationGroup,
    artifact_source: ExecutableDefinitionName,
    source_hash: String,
    source_file: SourceLocationKey,
) -> Result<ArtifactView, InternalError> {
    let ni = g.normalization->Some_0;
    let n = p.normalization.operations@[ni as int];
    match g.reader {
        None => Err(InternalError::MissingReader { name: n.name }),
        Some(ri) => match g.typegen {
            None => Err(InternalError::MissingTypegen { name: n.name }),
            Some(ti) => Ok(
                ArtifactView {
                    keys: seq![ArtifactSourceKey::ExecutableDefinition(artifact_source)],
                    path: ArtifactPath { source_file, name: n.name },
                    content: ArtifactContent::Operation {
                        normalization_operation: ni,
                        reader_operation: ri,
                        typegen_operation: ti,
                        operation_text: g.operation_text,
                        source_hash,
                    },
                    source_file: n.source_location,
                },
            ),
        },
    }
}

/// The attribution of a split operation: the resolver hash if there is one,
/// else the parent documents in order.
pub open spec fn spec_split_keys(n: Definition) -> Seq<ArtifactSourceKey> {
    match n.directives.artifact_source {
        Some(hash) => seq![ArtifactSourceKey::ResolverHash(hash)],
        None => n.directives.split_operation->Some_0.parent_documents@.map_values(
            |d: ExecutableDefinitionName| ArtifactSourceKey::ExecutableDefinition(d),
        ),
    }
}

/// The artifact generated for a group of operations.
pub open spec fn spec_operation_artifact(p: Programs, h: SourceHashes, g: OperationGroup) -> Result<
    ArtifactView,
    InternalError,
> {
    match g.normalization {
        Some(ni) => {
            let n = p.normalization.operations@[ni as int];
            match n.directives.split_operation {
                Some(m) => Ok(
                    ArtifactView {
                        keys: spec_split_keys(n),
                        path: ArtifactPath { source_file: m.location, name: n.name },
                        content: ArtifactContent::SplitOperation {
                            normalization_operation: ni,
                            typegen_operation: if m.raw_response_type_generation_mode is Some {
                                Some(ni)
                            } else {
                                None
                            },
                            no_optional_fields_in_raw_response_type: m.raw_response_type_generation_mode
                                == Some(RawResponseGenerationMode::AllFieldsRequired),
                            source_hash: match m.derived_from {
                                Some(d) => h.spec_get(ExecutableDefinitionName::FragmentDefinitionName(d)),
                                None => None,
                            },
                        },
                        source_file: m.location,
                    },
                ),
                None => match n.directives.refetchable_derived_from {
                    Some(source_name) => {
                        let key = ExecutableDefinitionName::FragmentDefinitionName(source_name);
                        match p.source.spec_fragment(source_name) {
                            None => Err(InternalError::MissingSourceFragment { name: source_name }),
                            Some(fi) => match h.spec_get(key) {
                                None => Err(InternalError::MissingSourceHash { name: key }),
                                Some(hash) => spec_normalization_artifact(
                                    p,
                                    g,
                                    key,
                                    hash,
                                    p.source.fragments@[fi].source_location,
                                ),
                            },
                        }
                    },
                    None => match n.directives.client_edge_generated_query {
                        Some(ce) => match h.spec_get(ce.source_name) {
                            None => Err(InternalError::MissingSourceHash { name: ce.source_name }),
                            Some(hash) => spec_normalization_artifact(
                                p,
                                g,
                                ce.source_name,
                                hash,
                                ce.source_location,
                            ),
                        },
                        None => {
                            let key = ExecutableDefinitionName::OperationDefinitionName(n.name);
                            match h.spec_get(key) {
                                None => Err(InternalError::MissingSourceHash { name: key }),
                                Some(hash) => spec_normalization_artifact(p, g, key, hash, n.source_location),
                            }
                        },
                    },
                },
            }
        },
        None => match g.reader {
            Some(ri) => {
                let r = p.reader.operations@[ri as int];
                let key = ExecutableDefinitionName::OperationDefinitionName(r.name);
                if !r.directives.updatable {
                    Err(InternalError::NoNormalizationOrUpdatableReader { source_location: g.source_location })
                } else {
                    match h.spec_get(key) {
                        None => Err(InternalError::MissingSourceHash { name: key }),
                        Some(hash) => match g.typegen {
                            None => Err(InternalError::MissingTypegen { name: r.name }),
                            Some(ti) => Ok(
                                ArtifactView {
                                    keys: seq![ArtifactSourceKey::ExecutableDefinition(key)],
                                    path: ArtifactPath { source_file: r.source_location, name: r.name },
                                    content: ArtifactContent::UpdatableQuery {
                                        reader_operation: ri,
                                        typegen_operation: ti,
                                        source_hash: hash,
                                    },
                                    source_file: r.source_location,
                                },
                            ),
                        },
                    }
                }
            },
            None => Err(InternalError::NoNormalizationOrUpdatableReader { source_location: g.source_location }),
        },
    }
}

/// The artifact generated for the reader fragment at index `fi`.
pub open spec fn spec_fragment_artifact(p: Programs, h: SourceHashes, fi: int) -> Result<
    ArtifactView,
    InternalError,
> {
    let f = p.reader.fragments@[fi];
    let source_name = match f.directives.client_edge_generated_query {
        Some(ce) => ce.source_name,
        None => ExecutableDefinitionName::FragmentDefinitionName(f.name),
    };
    let keys = match f.directives.artifact_source {
        Some(hash) => seq![ArtifactSourceKey::ResolverHash(hash)],
        None => seq![ArtifactSourceKey::ExecutableDefinition(source_name)],
    };
    match p.typegen.spec_fragment(f.name) {
        None => Err(InternalError::MissingTypegenFragment { name: f.name }),
        Some(ti) => Ok(
            ArtifactView {
                keys,
                path: ArtifactPath { source_file: f.source_location, name: f.name },
                content: ArtifactContent::Fragment {
                    reader_fragment: fi as usize,
                    typegen_fragment: ti as usize,
                    source_hash: h.spec_get(source_name),
                },
                source_file: f.source_location,
            },
        ),
    }
}

fn clone_opt_string(s: &Option<String>) -> (r: Option<String>)
    ensures
        r == *s,
{
    match s {
        Some(v) => Some(v.clone()),
        None => None,
    }
}

fn generate_normalization_artifact(
    programs: &Programs,
    operations: &OperationGroup,
    artifact_source: ExecutableDefinitionName,
    source_hash: String,
    source_file: SourceLocationKey,
) -> (r: Result<Artifact, InternalError>)
    requires
        operations.valid_for(*programs),
        operations.normalization is Some,
    ensures
        artifact_result_view(r) == spec_normalization_artifact(
            *programs,
            *operations,
            artifact_source,
            source_hash,
            source_file,
        ),
{
    let ni = operations.normalization.unwrap();
    let normalization = &programs.normalization.operations[ni];
    let reader_operation = match operations.reader {
        Some(ri) => ri,
        None => return Err(InternalError::MissingReader { name: normalization.name }),
    };
    let typegen_operation = match operations.typegen {
        Some(ti) => ti,
        None => return Err(InternalError::MissingTypegen { name: normalization.name }),
    };
    let artifact = Artifact {
        artifact_source_keys: vec![ArtifactSourceKey::ExecutableDefinition(artifact_source)],
        path: ArtifactPath { source_file, name: normalization.name },
        content: ArtifactContent::Operation {
            normalization_operation: ni,
            reader_operation,
            typegen_operation,
            operation_text: operations.operation_text,
            source_hash,
        },
        source_file: normalization.source_location,
    };
    proof {
        assert(artifact.artifact_source_keys@ =~= seq![ArtifactSourceKey::ExecutableDefinition(artifact_source)]);
    }
    Ok(artifact)
}

/// The artifact of an `@updatable` reader query.
fn generate_updatable_query_artifact(
    programs: &Programs,
    operations: &OperationGroup,
    artifact_source: ExecutableDefinitionName,
    source_hash: String,
) -> (r: Result<Artifact, InternalError>)
    requires
        operations.valid_for(*programs),
        operations.reader is Some,
    ensures
        ({
            let ri = operations.reader->Some_0;
            let reader = programs.reader.operations@[ri as int];
            artifact_result_view(r) == match operations.typegen {
                None => Err(InternalError::MissingTypegen { name: reader.name }),
                Some(ti) => Ok(
                    ArtifactView {
                        keys: seq![ArtifactSourceKey::ExecutableDefinition(artifact_source)],
                        path: ArtifactPath { source_file: reader.source_location, name: reader.name },
                        content: ArtifactContent::UpdatableQuery {
                            reader_operation: ri,
                            typegen_operation: ti,
                            source_hash,
                        },
                        source_file: reader.source_location,
                    },
                ),
            }
        }),
{
    let ri = operations.reader.unwrap();
    let reader = &programs.reader.operations[ri];
    let typegen_operation = match operations.typegen {
        Some(ti) => ti,
        None => return Err(InternalError::MissingTypegen { name: reader.name }),
    };
    let artifact = Artifact {
        artifact_source_keys: vec![ArtifactSourceKey::ExecutableDefinition(artifact_source)],
        path: ArtifactPath { source_file: reader.source_location, name: reader.name },
        content: ArtifactContent::UpdatableQuery { reader_operation: ri, typegen_operation, source_hash },
        source_file: reader.source_location,
    };
    proof {
        assert(artifact.artifact_source_keys@ =~= seq![ArtifactSourceKey::ExecutableDefinition(artifact_source)]);
    }
    Ok(artifact)
}

fn split_keys(normalization: &Definition) -> (r: Vec<ArtifactSourceKey>)
    requires
        normalization.directives.split_operation is Some,
    ensures
        r@ == spec_split_keys(*normalization),
{
    match &normalization.directives.artifact_source {
        Some(hash) => {
            let r = vec![ArtifactSourceKey::ResolverHash(hash.clone())];
            assert(r@ =~= spec_split_keys(*normalization));
            r
        },
        None => {
            let parents = &normalization.directives.split_operation.as_ref().unwrap().parent_documents;
            let mut keys: Vec<ArtifactSourceKey> = Vec::new();
            let mut i: usize = 0;
            while i < parents.len()
                invariant
                    i <= parents@.len(),
                    keys@ =~= parents@.take(i as int).map_values(
                        |d: ExecutableDefinitionName| ArtifactSourceKey::ExecutableDefinition(d),
                    ),
                decreases parents@.len() - i,
            {
                keys.push(ArtifactSourceKey::ExecutableDefinition(parents[i]));
                proof {
                    assert(parents@.take(i + 1) =~= parents@.take(i as int).push(parents@[i as int]));
                }
                i = i + 1;
            }
            assert(parents@.take(i as int) =~= parents@);
            keys
        },
    }
}

/// Generates the artifact of a group of operations: a split operation, a
/// normalization operation attributed to the document it derives from, or an
/// updatable query.
pub fn generate_operation_artifact(
    programs: &Programs,
    source_hashes: &SourceHashes,
    operations: &OperationGroup,
) -> (r: Result<Artifact, InternalError>)
    requires
        operations.valid_for(*programs),
    ensures
        artifact_result_view(r) == spec_operation_artifact(*programs, *source_hashes, *operations),
{
    match operations.normalization {
        Some(ni) => {
            let normalization = &programs.normalization.operations[ni];
            match &normalization.directives.split_operation {
                Some(metadata) => {
                    let source_file = metadata.location;
                    let source_hash = match metadata.derived_from {
                        Some(d) => source_hashes.get(ExecutableDefinitionName::FragmentDefinitionName(d)),
                        None => None,
                    };
                    let typegen_operation = if metadata.raw_response_type_generation_mode.is_some() {
                        Some(ni)
                    } else {
                        None
                    };
                    let no_optional = match metadata.raw_response_type_generation_mode {
                        Some(RawResponseGenerationMode::AllFieldsRequired) => true,
                        _ => false,
                    };
                    Ok(
                        Artifact {
                            artifact_source_keys: split_keys(normalization),
                            path: ArtifactPath { source_file, name: normalization.name },
                            content: ArtifactContent::SplitOperation {
                                normalization_operation: ni,
                                typegen_operation,
                                no_optional_fields_in_raw_response_type: no_optional,
                                source_hash,
                            },
                            source_file,
                        },
                    )
                },
                None => match normalization.directives.refetchable_derived_from {
                    Some(source_name) => {
                        let key = ExecutableDefinitionName::FragmentDefinitionName(source_name);
                        let fi = match programs.source.fragment(source_name) {
                            Some(fi) => fi,
                            None => return Err(InternalError::MissingSourceFragment { name: source_name }),
                        };
                        let source_hash = match source_hashes.get(key) {
                            Some(h) => h,
                            None => return Err(InternalError::MissingSourceHash { name: key }),
                        };
                        generate_normalization_artifact(
                            programs,
                            operations,
                            key,
                            source_hash,
                            programs.source.fragments[fi].source_location,
                        )
                    },
                    None => match normalization.directives.client_edge_generated_query {
                        Some(ce) => {
                            let source_hash = match source_hashes.get(ce.source_name) {
                                Some(h) => h,
                                None => return Err(InternalError::MissingSourceHash { name: ce.source_name }),
                            };
                            generate_normalization_artifact(
                                programs,
                                operations,
                                ce.source_name,
                                source_hash,
                                ce.source_location,
                            )
                        },
                        None => {
                            let key = ExecutableDefinitionName::OperationDefinitionName(normalization.name);
                            let source_hash = match source_hashes.get(key) {
                                Some(h) => h,
                                None => return Err(InternalError::MissingSourceHash { name: key }),
                            };
                            generate_normalization_artifact(
                                programs,
                                operations,
                                key,
                                source_hash,
                                normalization.source_location,
                            )
                        },
                    },
                },
            }
        },
        None => match operations.reader {
            Some(ri) => {
                let reader = &programs.reader.operations[ri];
                let key = ExecutableDefinitionName::OperationDefinitionName(reader.name);
                if !reader.directives.updatable {
                    return Err(
                        InternalError::NoNormalizationOrUpdatableReader {
                            source_location: operations.source_location,
                        },
                    );
                }
                let source_hash = match source_hashes.get(key) {
                    Some(h) => h,
                    None => return Err(InternalError::MissingSourceHash { name: key }),
                };
                generate_updatable_query_artifact(programs, operations, key, source_hash)
            },
            None => Err(
                InternalError::NoNormalizationOrUpdatableReader { source_location: operations.source_location },
            ),
        },
    }
}

/// Generates the artifact of the reader fragment at `index`.
pub fn generate_reader_artifact(programs: &Programs, source_hashes: &SourceHashes, index: usize) -> (r:
    Result<Artifact, InternalError>)
    requires
        index < programs.reader.fragments@.len(),
    ensures
        artifact_result_view(r) == spec_fragment_artifact(*programs, *source_hashes, index as int),
{
    let reader_fragment = &programs.reader.fragments[index];
    let source_name = match reader_fragment.directives.client_edge_generated_query {
        Some(ce) => ce.source_name,
        None => ExecutableDefinitionName::FragmentDefinitionName(reader_fragment.name),
    };
    let source_hash = source_hashes.get(source_name);
    let artifact_source_keys = match &reader_fragment.directives.artifact_source {
        Some(hash) => vec![ArtifactSourceKey::ResolverHash(hash.clone())],
        None => vec![ArtifactSourceKey::ExecutableDefinition(source_name)],
    };
    let typegen_fragment = match programs.typegen.fragment(reader_fragment.name) {
        Some(ti) => ti,
        None => return Err(InternalError::MissingTypegenFragment { name: reader_fragment.name }),
    };
    let artifact = Artifact {
        artifact_source_keys,
        path: ArtifactPath { source_file: reader_fragment.source_location, name: reader_fragment.name },
        content: ArtifactContent::Fragment { reader_fragment: index, typegen_fragment, source_hash },
        source_file: reader_fragment.source_location,
    };
    proof {
        assert(artifact.view().keys =~= spec_fragment_artifact(*programs, *source_hashes, index as int)->Ok_0.keys);
    }
    Ok(artifact)
}

} // verus!
