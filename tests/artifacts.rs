use relay_core::artifacts::generate_operation_artifact;
use relay_core::artifacts::generate_reader_artifact;
use relay_core::artifacts::Artifact;
use relay_core::artifacts::ArtifactContent;
use relay_core::artifacts::ArtifactPath;
use relay_core::artifacts::ArtifactSourceKey;
use relay_core::artifacts::InternalError;
use relay_core::artifacts::OperationGroup;
use relay_core::artifacts::SourceHashes;
use relay_core::grouping::generate_artifacts;
use relay_core::grouping::group_operations;
use relay_core::grouping::merge_artifacts_by_source_file;
use relay_core::grouping::ProjectConfig;
use relay_core::grouping::TypegenLanguage;
use relay_core::program::remove_imported_fragments;
use relay_core::program::ClientEdgeGeneratedQueryMetadata;
use relay_core::program::Definition;
use relay_core::program::Directives;
use relay_core::program::ExecutableDefinitionName;
use relay_core::program::Program;
use relay_core::program::Programs;
use relay_core::program::RawResponseGenerationMode;
use relay_core::program::SplitOperationMetadata;
use relay_core::program::StringKey;
use relay_core::SourceLocationKey;

fn name(id: u64) -> StringKey {
    StringKey { id }
}

fn src(id: u64) -> SourceLocationKey {
    SourceLocationKey { id }
}

fn op(id: u64) -> ExecutableDefinitionName {
    ExecutableDefinitionName::OperationDefinitionName(name(id))
}

fn frag(id: u64) -> ExecutableDefinitionName {
    ExecutableDefinitionName::FragmentDefinitionName(name(id))
}

fn no_directives() -> Directives {
    Directives {
        split_operation: None,
        artifact_source: None,
        refetchable_derived_from: None,
        client_edge_generated_query: None,
        updatable: false,
    }
}

fn def(n: u64, s: u64) -> Definition {
    Definition { name: name(n), source_location: src(s), directives: no_directives() }
}

fn def_with(n: u64, s: u64, directives: Directives) -> Definition {
    Definition { name: name(n), source_location: src(s), directives }
}

fn program(operations: Vec<Definition>, fragments: Vec<Definition>) -> Program {
    Program { operations, fragments }
}

fn empty() -> Program {
    program(vec![], vec![])
}

fn programs(normalization: Vec<Definition>, reader: Vec<Definition>, typegen: Vec<Definition>) -> Programs {
    Programs {
        source: empty(),
        normalization: program(normalization, vec![]),
        operation_text: empty(),
        reader: program(reader, vec![]),
        typegen: program(typegen, vec![]),
    }
}

fn hashes(entries: Vec<(ExecutableDefinitionName, &str)>) -> SourceHashes {
    let mut h = SourceHashes::new();
    for (n, v) in entries {
        h.insert(n, v.to_string());
    }
    h
}

fn group(s: u64, normalization: Option<usize>, reader: Option<usize>, typegen: Option<usize>) -> OperationGroup {
    OperationGroup { name: name(1), source_location: src(s), normalization, operation_text: None, reader, typegen }
}

fn keys_of(a: &Artifact) -> Vec<String> {
    a.artifact_source_keys
        .iter()
        .map(|k| match k {
            ArtifactSourceKey::ExecutableDefinition(ExecutableDefinitionName::OperationDefinitionName(n)) => {
                format!("op{}", n.id)
            }
            ArtifactSourceKey::ExecutableDefinition(ExecutableDefinitionName::FragmentDefinitionName(n)) => {
                format!("frag{}", n.id)
            }
            ArtifactSourceKey::ResolverHash(h) => format!("hash:{}", h),
        })
        .collect()
}

#[test]
fn plain_normalization_is_one_operation_artifact() {
    let p = programs(vec![def(1, 10)], vec![def(1, 10)], vec![def(1, 10)]);
    let h = hashes(vec![(op(1), "abc")]);
    let a = generate_operation_artifact(&p, &h, &group(10, Some(0), Some(0), Some(0))).unwrap();
    assert_eq!(keys_of(&a), vec!["op1"]);
    assert_eq!(a.path, ArtifactPath { source_file: src(10), name: name(1) });
    assert_eq!(a.source_file, src(10));
    match a.content {
        ArtifactContent::Operation { normalization_operation, reader_operation, typegen_operation, operation_text, source_hash } => {
            assert_eq!((normalization_operation, reader_operation, typegen_operation), (0, 0, 0));
            assert_eq!(operation_text, None);
            assert_eq!(source_hash, "abc");
        }
        _ => panic!("expected an operation"),
    }
}

fn split(parents: Vec<ExecutableDefinitionName>, mode: Option<RawResponseGenerationMode>, hash: Option<&str>) -> Directives {
    Directives {
        split_operation: Some(SplitOperationMetadata {
            location: src(99),
            parent_documents: parents,
            raw_response_type_generation_mode: mode,
            derived_from: Some(name(5)),
        }),
        artifact_source: hash.map(|h| h.to_string()),
        refetchable_derived_from: None,
        client_edge_generated_query: None,
        updatable: false,
    }
}

#[test]
fn split_operation_with_resolver_hash_is_attributed_to_the_hash() {
    let p = programs(vec![def_with(1, 10, split(vec![op(7), frag(8)], None, Some("r123")))], vec![], vec![]);
    let h = hashes(vec![(frag(5), "parent-hash")]);
    let a = generate_operation_artifact(&p, &h, &group(10, Some(0), None, None)).unwrap();
    assert_eq!(keys_of(&a), vec!["hash:r123"]);
    assert_eq!(a.source_file, src(99));
    match a.content {
        ArtifactContent::SplitOperation { typegen_operation, no_optional_fields_in_raw_response_type, source_hash, .. } => {
            assert_eq!(typegen_operation, None);
            assert!(!no_optional_fields_in_raw_response_type);
            assert_eq!(source_hash, Some("parent-hash".to_string()));
        }
        _ => panic!("expected a split operation"),
    }
}

#[test]
fn split_operation_is_attributed_to_its_parents_in_order() {
    let p = programs(
        vec![def_with(1, 10, split(vec![frag(9), op(3), frag(4)], Some(RawResponseGenerationMode::AllFieldsRequired), None))],
        vec![],
        vec![],
    );
    let a = generate_operation_artifact(&p, &SourceHashes::new(), &group(10, Some(0), None, None)).unwrap();
    assert_eq!(keys_of(&a), vec!["frag9", "op3", "frag4"]);
    match a.content {
        ArtifactContent::SplitOperation { typegen_operation, no_optional_fields_in_raw_response_type, source_hash, .. } => {
            assert_eq!(typegen_operation, Some(0));
            assert!(no_optional_fields_in_raw_response_type);
            assert_eq!(source_hash, None);
        }
        _ => panic!("expected a split operation"),
    }
}

#[test]
fn refetch_query_is_attributed_to_its_source_fragment() {
    let mut d = no_directives();
    d.refetchable_derived_from = Some(name(20));
    let mut p = programs(vec![def_with(1, 10, d)], vec![def(1, 10)], vec![def(1, 10)]);
    p.source = program(vec![], vec![def(21, 40), def(20, 30)]);
    let h = hashes(vec![(frag(20), "f")]);
    let a = generate_operation_artifact(&p, &h, &group(10, Some(0), Some(0), Some(0))).unwrap();
    assert_eq!(keys_of(&a), vec!["frag20"]);
    assert_eq!(a.path, ArtifactPath { source_file: src(30), name: name(1) });
    assert_eq!(a.source_file, src(10));
}

#[test]
fn refetch_query_without_its_fragment_is_an_internal_error() {
    let mut d = no_directives();
    d.refetchable_derived_from = Some(name(20));
    let p = programs(vec![def_with(1, 10, d)], vec![def(1, 10)], vec![def(1, 10)]);
    let r = generate_operation_artifact(&p, &hashes(vec![(frag(20), "f")]), &group(10, Some(0), Some(0), Some(0)));
    assert_eq!(r.err(), Some(InternalError::MissingSourceFragment { name: name(20) }));
}

#[test]
fn client_edge_query_is_attributed_to_its_source() {
    let mut d = no_directives();
    d.client_edge_generated_query = Some(ClientEdgeGeneratedQueryMetadata { source_name: frag(33), source_location: src(50) });
    let p = programs(vec![def_with(1, 10, d)], vec![def(1, 10)], vec![def(1, 10)]);
    let a = generate_operation_artifact(&p, &hashes(vec![(frag(33), "x")]), &group(10, Some(0), Some(0), Some(0))).unwrap();
    assert_eq!(keys_of(&a), vec!["frag33"]);
    assert_eq!(a.path.source_file, src(50));
}

#[test]
fn updatable_reader_without_normalization() {
    let mut d = no_directives();
    d.updatable = true;
    let p = programs(vec![], vec![def_with(2, 11, d)], vec![def(2, 11)]);
    let a = generate_operation_artifact(&p, &hashes(vec![(op(2), "u")]), &group(11, None, Some(0), Some(0))).unwrap();
    assert_eq!(keys_of(&a), vec!["op2"]);
    assert!(matches!(a.content, ArtifactContent::UpdatableQuery { reader_operation: 0, typegen_operation: 0, .. }));
}

#[test]
fn reader_without_updatable_or_normalization_is_an_internal_error() {
    let p = programs(vec![], vec![def(2, 11)], vec![]);
    let r = generate_operation_artifact(&p, &SourceHashes::new(), &group(11, None, Some(0), None));
    assert_eq!(r.err(), Some(InternalError::NoNormalizationOrUpdatableReader { source_location: src(11) }));
}

#[test]
fn missing_reader_or_hash_is_an_internal_error() {
    let p = programs(vec![def(1, 10)], vec![], vec![def(1, 10)]);
    let r = generate_operation_artifact(&p, &hashes(vec![(op(1), "a")]), &group(10, Some(0), None, Some(0)));
    assert_eq!(r.err(), Some(InternalError::MissingReader { name: name(1) }));
    let r = generate_operation_artifact(&p, &SourceHashes::new(), &group(10, Some(0), None, Some(0)));
    assert_eq!(r.err(), Some(InternalError::MissingSourceHash { name: op(1) }));
}

#[test]
fn fragment_artifacts() {
    let mut with_hash = no_directives();
    with_hash.artifact_source = Some("res".to_string());
    let mut p = programs(vec![], vec![], vec![]);
    p.reader = program(vec![], vec![def(4, 40), def_with(5, 50, with_hash)]);
    p.typegen = program(vec![], vec![def(5, 50), def(4, 40)]);
    let h = hashes(vec![(frag(4), "four")]);
    let a = generate_reader_artifact(&p, &h, 0).unwrap();
    assert_eq!(keys_of(&a), vec!["frag4"]);
    assert!(matches!(a.content, ArtifactContent::Fragment { reader_fragment: 0, typegen_fragment: 1, .. }));
    let b = generate_reader_artifact(&p, &h, 1).unwrap();
    assert_eq!(keys_of(&b), vec!["hash:res"]);
    p.typegen = program(vec![], vec![]);
    assert_eq!(generate_reader_artifact(&p, &h, 0).err(), Some(InternalError::MissingTypegenFragment { name: name(4) }));
}

#[test]
fn groups_follow_first_occurrence_and_keep_the_last_definition() {
    let mut p = programs(vec![def(1, 10), def(2, 20)], vec![def(3, 30), def(1, 10)], vec![def(2, 20), def(9, 20)]);
    p.operation_text = program(vec![def(1, 10)], vec![]);
    let groups = group_operations(&p);
    assert_eq!(groups.len(), 4);
    assert_eq!(groups[0], OperationGroup { name: name(1), source_location: src(10), normalization: Some(0), operation_text: Some(0), reader: Some(1), typegen: None });
    assert_eq!(groups[1], OperationGroup { name: name(2), source_location: src(20), normalization: Some(1), operation_text: None, reader: None, typegen: Some(0) });
    assert_eq!(groups[2], OperationGroup { name: name(3), source_location: src(30), normalization: None, operation_text: None, reader: Some(0), typegen: None });
    assert_eq!(groups[3], OperationGroup { name: name(9), source_location: src(20), normalization: None, operation_text: None, reader: None, typegen: Some(1) });
}

#[test]
fn two_operations_of_one_file_keep_their_own_groups() {
    let p = programs(vec![def(1, 10), def(2, 10)], vec![def(1, 10), def(2, 10)], vec![def(2, 10), def(1, 10)]);
    let groups = group_operations(&p);
    assert_eq!(groups.len(), 2);
    assert_eq!(groups[0], OperationGroup { name: name(1), source_location: src(10), normalization: Some(0), operation_text: None, reader: Some(0), typegen: Some(1) });
    assert_eq!(groups[1], OperationGroup { name: name(2), source_location: src(10), normalization: Some(1), operation_text: None, reader: Some(1), typegen: Some(0) });
    let h = hashes(vec![(op(1), "a"), (op(2), "b")]);
    let arts = generate_artifacts(&ProjectConfig { typegen_language: TypegenLanguage::TypeScript }, &p, &h).unwrap();
    let keys: Vec<Vec<String>> = arts.iter().map(keys_of).collect();
    assert_eq!(keys, vec![vec!["op1"], vec!["op2"]]);
}

fn project() -> Programs {
    let mut p = programs(vec![def(1, 10), def(2, 20)], vec![def(1, 10), def(2, 20)], vec![def(1, 10), def(2, 20)]);
    p.reader.fragments = vec![def(6, 10)];
    p.typegen.fragments = vec![def(6, 10)];
    p
}

#[test]
fn all_artifacts_one_to_one() {
    let h = hashes(vec![(op(1), "a"), (op(2), "b")]);
    let arts = generate_artifacts(&ProjectConfig { typegen_language: TypegenLanguage::TypeScript }, &project(), &h).unwrap();
    let keys: Vec<Vec<String>> = arts.iter().map(keys_of).collect();
    assert_eq!(keys, vec![vec!["op1"], vec!["op2"], vec!["frag6"]]);
}

#[test]
fn mixed_mode_merges_by_source_file() {
    let h = hashes(vec![(op(1), "a"), (op(2), "b")]);
    let arts = generate_artifacts(
        &ProjectConfig { typegen_language: TypegenLanguage::MixedGraphQLToTypeScript },
        &project(),
        &h,
    )
    .unwrap();
    assert_eq!(arts.len(), 2);
    assert_eq!(arts[0].source_file, src(10));
    assert_eq!(keys_of(&arts[0]), vec!["op1", "frag6"]);
    assert_eq!(arts[0].path, ArtifactPath { source_file: src(10), name: name(6) });
    match &arts[0].content {
        ArtifactContent::MixedGraphQL { artifacts } => assert_eq!(artifacts.len(), 2),
        _ => panic!("expected merged content"),
    }
    assert_eq!(keys_of(&arts[1]), vec!["op2"]);
}

#[test]
fn merging_n_artifacts_of_one_file_concatenates_their_keys() {
    let make = |key: ArtifactSourceKey, n: u64| Artifact {
        artifact_source_keys: vec![key],
        path: ArtifactPath { source_file: src(1), name: name(n) },
        content: ArtifactContent::Fragment { reader_fragment: n as usize, typegen_fragment: 0, source_hash: None },
        source_file: src(1),
    };
    let merged = merge_artifacts_by_source_file(vec![
        make(ArtifactSourceKey::ExecutableDefinition(frag(1)), 1),
        make(ArtifactSourceKey::ResolverHash("h".to_string()), 2),
        make(ArtifactSourceKey::ExecutableDefinition(op(3)), 3),
    ]);
    assert_eq!(merged.len(), 1);
    assert_eq!(keys_of(&merged[0]), vec!["frag1", "hash:h", "op3"]);
    assert_eq!(merged[0].path.name, name(3));
    match &merged[0].content {
        ArtifactContent::MixedGraphQL { artifacts } => {
            let order: Vec<usize> = artifacts
                .iter()
                .map(|c| match c {
                    ArtifactContent::Fragment { reader_fragment, .. } => *reader_fragment,
                    _ => panic!("unexpected content"),
                })
                .collect();
            assert_eq!(order, vec![1, 2, 3]);
        }
        _ => panic!("expected merged content"),
    }
}

#[test]
fn merged_artifacts_are_ordered_by_source_file() {
    let mut p = programs(vec![], vec![], vec![]);
    p.reader = program(vec![], vec![def(4, 9), def(5, 3), def(6, 9), def(7, 5)]);
    p.typegen = program(vec![], vec![def(4, 9), def(5, 3), def(6, 9), def(7, 5)]);
    let arts = generate_artifacts(
        &ProjectConfig { typegen_language: TypegenLanguage::MixedGraphQLToTypeScript },
        &p,
        &SourceHashes::new(),
    )
    .unwrap();
    let files: Vec<u64> = arts.iter().map(|a| a.source_file.id).collect();
    assert_eq!(files, vec![3, 5, 9]);
    assert_eq!(keys_of(&arts[2]), vec!["frag4", "frag6"]);
}

#[test]
fn generation_stops_at_an_internal_error() {
    let p = programs(vec![def(1, 10)], vec![def(1, 10)], vec![def(1, 10)]);
    let r = generate_artifacts(&ProjectConfig { typegen_language: TypegenLanguage::Flow }, &p, &SourceHashes::new());
    assert_eq!(r.err(), Some(InternalError::MissingSourceHash { name: op(1) }));
}

#[test]
fn removing_imported_fragments_keeps_operations() {
    let p = remove_imported_fragments(program(vec![def(1, 10)], vec![def(2, 20)]));
    assert_eq!(p.operations.len(), 1);
    assert!(p.fragments.is_empty());
}
