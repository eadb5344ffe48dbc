//! Laws of artifact generation, of the type table and of the type annotation
//! translator.
use vstd::prelude::*;

use crate::artifacts::spec_operation_artifact;
use crate::artifacts::ArtifactContent;
use crate::artifacts::ArtifactPath;
use crate::artifacts::ArtifactSourceKey;
use crate::artifacts::ArtifactView;
use crate::artifacts::InternalError;
use crate::artifacts::OperationGroup;
use crate::artifacts::SourceHashes;
use crate::grouping::spec_merge;
use crate::grouping::MergedView;
use crate::program::ExecutableDefinitionName;
use crate::program::Programs;
use crate::ast::Ident;
use crate::diagnostics::Annotation;
use crate::diagnostics::AnnotationKind;
use crate::diagnostics::Diagnostic;
use crate::diagnostics::SchemaGenerationError;
use crate::extractor::spec_table_insert;
use crate::schema::last_match;
use crate::resolution::ModuleResolutionKey;
use crate::extractor::ExtractorState;
use crate::schema::DocblockIr;
use crate::schema::StrongObjectIr;
use crate::ast::TsEntityName;
use crate::ast::TsKeywordKind;
use crate::ast::TsType;
use crate::location::SourceLocationKey;
use crate::location::Span;
use crate::resolution::ModuleResolution;
use crate::scalars::CustomScalarMap;
use crate::schema::TypeDefinitions;
use crate::schema::TypeView;
use crate::translate::has_null_marker;
use crate::translate::is_array_name;
use crate::translate::is_first_non_null;
use crate::translate::spec_translate;
use crate::translate::spec_translate_effective;

verus! {

/// A group with a normalization operation that carries no metadata directive,
/// and whose reader, typegen form and source hash are there, yields exactly one
/// operation artifact, attributed to the operation's own name.
pub proof fn lemma_plain_normalization_is_operation(p: Programs, h: SourceHashes, g: OperationGroup)
    requires
        g.valid_for(p),
        g.normalization is Some,
        g.reader is Some,
        g.typegen is Some,
        p.normalization.operations@[g.normalization->Some_0 as int].directives.split_operation is None,
        p.normalization.operations@[g.normalization->Some_0 as int].directives.refetchable_derived_from is None,
        p.normalization.operations@[g.normalization->Some_0 as int].directives.client_edge_generated_query is None,
        h.spec_get(
            ExecutableDefinitionName::OperationDefinitionName(
                p.normalization.operations@[g.normalization->Some_0 as int].name,
            ),
        ) is Some,
    ensures
        ({
            let n = p.normalization.operations@[g.normalization->Some_0 as int];
            let key = ExecutableDefinitionName::OperationDefinitionName(n.name);
            spec_operation_artifact(p, h, g) == Ok::<ArtifactView, InternalError>(
                ArtifactView {
                    keys: seq![ArtifactSourceKey::ExecutableDefinition(key)],
                    path: ArtifactPath { source_file: n.source_location, name: n.name },
                    content: ArtifactContent::Operation {
                        normalization_operation: g.normalization->Some_0,
                        reader_operation: g.reader->Some_0,
                        typegen_operation: g.typegen->Some_0,
                        operation_text: g.operation_text,
                        source_hash: h.spec_get(key)->Some_0,
                    },
                    source_file: n.source_location,
                },
            )
        }),
{
}

/// A split operation with a resolver hash is attributed to that hash alone.
pub proof fn lemma_split_operation_with_resolver_hash(p: Programs, h: SourceHashes, g: OperationGroup)
    requires
        g.valid_for(p),
        g.normalization is Some,
        p.normalization.operations@[g.normalization->Some_0 as int].directives.split_operation is Some,
        p.normalization.operations@[g.normalization->Some_0 as int].directives.artifact_source is Some,
    ensures
        spec_operation_artifact(p, h, g) matches Ok(a) && a.keys == seq![
            ArtifactSourceKey::ResolverHash(
                p.normalization.operations@[g.normalization->Some_0 as int].directives.artifact_source->Some_0,
            ),
        ] && a.content is SplitOperation,
{
}

/// A split operation without a resolver hash is attributed to its parent
/// documents, in their order.
pub proof fn lemma_split_operation_parent_documents(p: Programs, h: SourceHashes, g: OperationGroup)
    requires
        g.valid_for(p),
        g.normalization is Some,
        p.normalization.operations@[g.normalization->Some_0 as int].directives.split_operation is Some,
        p.normalization.operations@[g.normalization->Some_0 as int].directives.artifact_source is None,
    ensures
        ({
            let n = p.normalization.operations@[g.normalization->Some_0 as int];
            let parents = n.directives.split_operation->Some_0.parent_documents@;
            spec_operation_artifact(p, h, g) matches Ok(a) && a.content is SplitOperation && a.keys.len()
                == parents.len() && forall|i: int|
                0 <= i < parents.len() ==> a.keys[i] == ArtifactSourceKey::ExecutableDefinition(
                    #[trigger] parents[i],
                )
        }),
{
}

/// Registering two strong objects under one key keeps the first: the second
/// registration changes nothing and yields one diagnostic that names the key
/// and points at the second object and, as its annotation, at the first.
pub proof fn lemma_duplicate_strong_objects(
    st: ExtractorState,
    key: ModuleResolutionKey,
    first: StrongObjectIr,
    second: StrongObjectIr,
)
    requires
        last_match(st.table, key) is None,
    ensures
        ({
            let (st1, e1) = spec_table_insert(st, key, DocblockIr::StrongObject(first));
            let (st2, e2) = spec_table_insert(st1, key, DocblockIr::StrongObject(second));
            &&& e1 is None
            &&& st1.table == st.table.push((key, DocblockIr::StrongObject(first)))
            &&& st2 == st1
            &&& e2 == Some(
                Diagnostic {
                    error: SchemaGenerationError::DuplicateTypeDefinitions {
                        module_name: key.module_name,
                        import_type: key.import_type,
                    },
                    location: second.location,
                    annotation: Some(
                        Annotation { kind: AnnotationKind::PreviousTypeDefinition, location: first.location },
                    ),
                },
            )
        }),
{
    let (st1, e1) = spec_table_insert(st, key, DocblockIr::StrongObject(first));
    assert(st1.table.last() == (key, DocblockIr::StrongObject(first)));
    assert(crate::resolution::import_type_matches(key.import_type, key.import_type));
    assert(last_match(st1.table, key) == Some(st1.table.len() - 1));
}

/// The keys of the artifacts `arts`, concatenated in order.
pub open spec fn concat_keys(arts: Seq<ArtifactView>) -> Seq<ArtifactSourceKey>
    decreases arts.len(),
{
    if arts.len() == 0 {
        Seq::empty()
    } else {
        concat_keys(arts.drop_last()) + arts.last().keys
    }
}

/// The artifacts of `arts` whose source file is `k`, in order.
pub open spec fn of_file(arts: Seq<ArtifactView>, k: SourceLocationKey) -> Seq<ArtifactView>
    decreases arts.len(),
{
    if arts.len() == 0 {
        Seq::empty()
    } else if arts.last().source_file == k {
        of_file(arts.drop_last(), k).push(arts.last())
    } else {
        of_file(arts.drop_last(), k)
    }
}

/// A merged artifact holds the keys of the artifacts of its source file in
/// encounter order, their contents in order, and the last one's path.
pub open spec fn merges_its_file(m: MergedView, arts: Seq<ArtifactView>) -> bool {
    let g = of_file(arts, m.source_file);
    &&& g.len() > 0
    &&& m.keys == concat_keys(g)
    &&& m.contents == g.map_values(|a: ArtifactView| a.content)
    &&& m.path == g.last().path
}

proof fn lemma_insertion_point_exists(ms: Seq<MergedView>, k: SourceLocationKey)
    requires
        crate::grouping::sorted_by_source(ms),
    ensures
        exists|p: int| crate::grouping::is_insertion_point(ms, k, p),
    decreases ms.len(),
{
    if ms.len() == 0 {
        assert(crate::grouping::is_insertion_point(ms, k, 0));
    } else {
        let init = ms.drop_last();
        assert(crate::grouping::sorted_by_source(init)) by {
            assert forall|i: int, j: int| 0 <= i < j < init.len() implies (#[trigger] init[i]).source_file.id
                < (#[trigger] init[j]).source_file.id by {
                assert(ms[i].source_file.id < ms[j].source_file.id);
            }
        }
        if ms.last().source_file.id < k.id {
            assert forall|i: int| 0 <= i < ms.len() implies (#[trigger] ms[i]).source_file.id < k.id by {
                if i < ms.len() - 1 {
                    assert(ms[i].source_file.id < ms[ms.len() - 1].source_file.id);
                }
            }
            assert(crate::grouping::is_insertion_point(ms, k, ms.len() as int));
        } else {
            lemma_insertion_point_exists(init, k);
            let p = choose|p: int| crate::grouping::is_insertion_point(init, k, p);
            assert forall|i: int| 0 <= i < p implies (#[trigger] ms[i]).source_file.id < k.id by {
                assert(init[i] == ms[i]);
            }
            if p < init.len() {
                assert(init[p] == ms[p]);
            }
            assert(crate::grouping::is_insertion_point(ms, k, p));
        }
    }
}

proof fn lemma_of_file_other(arts: Seq<ArtifactView>, k: SourceLocationKey)
    requires
        arts.len() > 0,
        arts.last().source_file != k,
    ensures
        of_file(arts, k) == of_file(arts.drop_last(), k),
{
}

/// Merging puts the artifacts of each source file into one merged artifact,
/// with their keys concatenated and their contents in encounter order and the
/// last one's path; the merged artifacts are ordered by source file, and every
/// source file of the input has one.
pub proof fn lemma_merge_groups(arts: Seq<ArtifactView>)
    ensures
        crate::grouping::sorted_by_source(spec_merge(arts)),
        forall|j: int| 0 <= j < spec_merge(arts).len() ==> merges_its_file(#[trigger] spec_merge(arts)[j], arts),
        forall|k: SourceLocationKey|
            #![trigger of_file(arts, k)]
            of_file(arts, k).len() > 0 ==> exists|j: int|
                0 <= j < spec_merge(arts).len() && (#[trigger] spec_merge(arts)[j]).source_file == k,
    decreases arts.len(),
{
    if arts.len() == 0 {
        assert(spec_merge(arts) =~= Seq::<MergedView>::empty());
    } else {
        let init = arts.drop_last();
        let a = arts.last();
        let k = a.source_file;
        lemma_merge_groups(init);
        let ms = spec_merge(init);
        lemma_insertion_point_exists(ms, k);
        let p = crate::grouping::insertion_point(ms, k);
        assert(crate::grouping::is_insertion_point(ms, k, p));
        let out = spec_merge(arts);
        assert(out == crate::grouping::merge_step(ms, a));
        let g = of_file(init, k);
        assert(of_file(arts, k) == g.push(a));
        assert(g.push(a).drop_last() =~= g);
        assert(concat_keys(g.push(a)) == concat_keys(g) + a.keys);
        assert(g.push(a).map_values(|x: ArtifactView| x.content) =~= g.map_values(|x: ArtifactView| x.content).push(
            a.content,
        ));
        if p < ms.len() && ms[p].source_file == k {
            assert(merges_its_file(ms[p], init));
            assert forall|j: int| 0 <= j < out.len() implies merges_its_file(#[trigger] out[j], arts) by {
                if j != p {
                    assert(merges_its_file(ms[j], init));
                    if j < p {
                        assert(ms[j].source_file.id < ms[p].source_file.id);
                    } else {
                        assert(ms[p].source_file.id < ms[j].source_file.id);
                    }
                    lemma_of_file_other(arts, ms[j].source_file);
                }
            }
            assert forall|i: int, j: int| 0 <= i < j < out.len() implies (#[trigger] out[i]).source_file.id
                < (#[trigger] out[j]).source_file.id by {
                assert(ms[i].source_file.id < ms[j].source_file.id);
            }
            assert forall|k2: SourceLocationKey| #[trigger] of_file(arts, k2).len() > 0 implies exists|j: int|
                0 <= j < out.len() && (#[trigger] out[j]).source_file == k2 by {
                if k2 == k {
                    assert(out[p].source_file == k2);
                } else {
                    lemma_of_file_other(arts, k2);
                    assert(of_file(init, k2).len() > 0);
                    let j0 = choose|j: int| 0 <= j < ms.len() && (#[trigger] ms[j]).source_file == k2;
                    assert(out[j0].source_file == k2);
                }
            }
        } else {
            let n = MergedView { source_file: k, keys: a.keys, contents: seq![a.content], path: a.path };
            assert(out == ms.insert(p, n));
            assert forall|j: int| 0 <= j < ms.len() implies (#[trigger] ms[j]).source_file != k by {
                if j < p {
                } else if j == p {
                } else {
                    assert(ms[p].source_file.id < ms[j].source_file.id);
                    assert(ms[p].source_file.id >= k.id);
                }
            }
            assert(g.len() == 0) by {
                if g.len() > 0 {
                    let j0 = choose|j: int| 0 <= j < ms.len() && (#[trigger] ms[j]).source_file == k;
                    assert(ms[j0].source_file != k);
                }
            }
            assert(g =~= Seq::<ArtifactView>::empty());
            assert(concat_keys(g) =~= Seq::<ArtifactSourceKey>::empty());
            assert(concat_keys(g) + a.keys =~= a.keys);
            assert(g.map_values(|x: ArtifactView| x.content).push(a.content) =~= seq![a.content]);
            assert(merges_its_file(out[p], arts));
            assert forall|j: int| 0 <= j < out.len() implies merges_its_file(#[trigger] out[j], arts) by {
                if j < p {
                    assert(out[j] == ms[j]);
                    assert(merges_its_file(ms[j], init));
                    lemma_of_file_other(arts, ms[j].source_file);
                } else if j > p {
                    assert(out[j] == ms[j - 1]);
                    assert(merges_its_file(ms[j - 1], init));
                    lemma_of_file_other(arts, ms[j - 1].source_file);
                }
            }
            assert forall|i: int, j: int| 0 <= i < j < out.len() implies (#[trigger] out[i]).source_file.id
                < (#[trigger] out[j]).source_file.id by {
                if j < p {
                    assert(ms[i].source_file.id < ms[j].source_file.id);
                } else if j == p {
                    assert(ms[i].source_file.id < k.id);
                } else if i < p {
                    assert(ms[i].source_file.id < k.id);
                    assert(ms[j - 1].source_file != k);
                    assert(ms[p].source_file.id >= k.id);
                    if j - 1 > p {
                        assert(ms[p].source_file.id < ms[j - 1].source_file.id);
                    }
                } else if i == p {
                    assert(ms[j - 1].source_file != k);
                    assert(ms[p].source_file.id >= k.id);
                    if j - 1 > p {
                        assert(ms[p].source_file.id < ms[j - 1].source_file.id);
                    }
                } else {
                    assert(ms[i - 1].source_file.id < ms[j - 1].source_file.id);
                }
            }
            assert forall|k2: SourceLocationKey| #[trigger] of_file(arts, k2).len() > 0 implies exists|j: int|
                0 <= j < out.len() && (#[trigger] out[j]).source_file == k2 by {
                if k2 == k {
                    assert(out[p].source_file == k2);
                } else {
                    lemma_of_file_other(arts, k2);
                    assert(of_file(init, k2).len() > 0);
                    let j0 = choose|j: int| 0 <= j < ms.len() && (#[trigger] ms[j]).source_file == k2;
                    if j0 < p {
                        assert(out[j0].source_file == k2);
                    } else {
                        assert(out[j0 + 1].source_file == k2);
                    }
                }
            }
        }
    }
}

/// Artifacts that all share one source file merge into a single artifact whose
/// keys are all their keys in encounter order, whose contents are theirs in
/// order, and whose path is the last one's.
pub proof fn lemma_merge_one_source_file(arts: Seq<ArtifactView>)
    requires
        arts.len() > 0,
        forall|i: int| 0 <= i < arts.len() ==> (#[trigger] arts[i]).source_file == arts[0].source_file,
    ensures
        spec_merge(arts) == seq![
            MergedView {
                source_file: arts[0].source_file,
                keys: concat_keys(arts),
                contents: arts.map_values(|a: ArtifactView| a.content),
                path: arts.last().path,
            },
        ],
    decreases arts.len(),
{
    if arts.len() == 1 {
        assert(spec_merge(arts.drop_last()) =~= Seq::<MergedView>::empty());
        assert(crate::grouping::is_insertion_point(Seq::<MergedView>::empty(), arts[0].source_file, 0));
        crate::grouping::lemma_insertion_point(Seq::<MergedView>::empty(), arts[0].source_file, 0);
        assert(Seq::<MergedView>::empty().insert(
            0,
            MergedView {
                source_file: arts[0].source_file,
                keys: arts[0].keys,
                contents: seq![arts[0].content],
                path: arts[0].path,
            },
        ) =~= seq![
            MergedView {
                source_file: arts[0].source_file,
                keys: arts[0].keys,
                contents: seq![arts[0].content],
                path: arts[0].path,
            },
        ]);
        assert(concat_keys(arts.drop_last()) =~= Seq::<ArtifactSourceKey>::empty());
        assert(concat_keys(arts) =~= arts[0].keys);
        assert(arts.map_values(|a: ArtifactView| a.content) =~= seq![arts[0].content]);
    } else {
        let init = arts.drop_last();
        assert forall|i: int| 0 <= i < init.len() implies (#[trigger] init[i]).source_file
            == init[0].source_file by {
            assert(init[i] == arts[i]);
        }
        lemma_merge_one_source_file(init);
        assert(init.map_values(|a: ArtifactView| a.content).push(arts.last().content) =~= arts.map_values(
            |a: ArtifactView| a.content,
        ));
        assert(arts.last() == arts[arts.len() - 1]);
        let m = MergedView {
            source_file: arts[0].source_file,
            keys: concat_keys(init),
            contents: init.map_values(|a: ArtifactView| a.content),
            path: init.last().path,
        };
        assert(spec_merge(init) == seq![m]);
        assert(crate::grouping::is_insertion_point(seq![m], arts.last().source_file, 0));
        crate::grouping::lemma_insertion_point(seq![m], arts.last().source_file, 0);
        let x = MergedView {
            source_file: arts[0].source_file,
            keys: concat_keys(init) + arts.last().keys,
            contents: init.map_values(|a: ArtifactView| a.content).push(arts.last().content),
            path: arts.last().path,
        };
        assert(seq![m].update(0, x) =~= seq![x]);
    }
}

/// Without semantic non-null tracking a translation has no levels: `!` marks
/// every required position instead.
pub proof fn lemma_untracked_translation_has_no_levels(
    csm: CustomScalarMap,
    ty: TsType,
    mr: ModuleResolution,
    td: TypeDefinitions,
    source: SourceLocationKey,
)
    ensures
        spec_translate(csm, ty, mr, td, false, source) matches Ok((_, levels)) ==> levels.len() == 0,
    decreases ty, 1int,
{
    match ty {
        TsType::Union { types, .. } => {
            if exists|i: int| is_first_non_null(types@, i) {
                let i = choose|i: int| is_first_non_null(types@, i);
                assert(decreases_to!(types => types[i]));
                lemma_untracked_effective_has_no_levels(csm, types@[i], has_null_marker(types@), mr, td, source);
            }
        },
        TsType::Intersection { .. } => {},
        _ => {
            lemma_untracked_effective_has_no_levels(csm, ty, false, mr, td, source);
        },
    }
}

proof fn lemma_untracked_effective_has_no_levels(
    csm: CustomScalarMap,
    eff: TsType,
    optional: bool,
    mr: ModuleResolution,
    td: TypeDefinitions,
    source: SourceLocationKey,
)
    ensures
        spec_translate_effective(csm, eff, optional, mr, td, false, source) matches Ok((_, levels))
            ==> levels.len() == 0,
    decreases eff, 0int,
{
    if let TsType::TypeRef { entity: TsEntityName::Ident(id), type_params: Some(params), .. } = eff {
        if params@.len() == 1 && is_array_name(id.name@) {
            lemma_untracked_translation_has_no_levels(csm, params@[0], mr, td, source);
        }
    }
}

/// A required `number` is a `Float`: wrapped in `!` without semantic non-null
/// tracking, and at level 0 with it.
pub proof fn lemma_number_is_float(
    csm: CustomScalarMap,
    span: Span,
    mr: ModuleResolution,
    td: TypeDefinitions,
    source: SourceLocationKey,
)
    ensures
        spec_translate(csm, TsType::Keyword { kind: TsKeywordKind::Number, span }, mr, td, false, source)
            == Ok::<(TypeView, Seq<u64>), crate::diagnostics::Diagnostic>((
            TypeView::NonNull { span, item: Box::new(TypeView::Named { name: "Float"@, span }) },
            Seq::empty(),
        )),
        spec_translate(csm, TsType::Keyword { kind: TsKeywordKind::Number, span }, mr, td, true, source)
            == Ok::<(TypeView, Seq<u64>), crate::diagnostics::Diagnostic>((
            TypeView::Named { name: "Float"@, span },
            seq![0u64],
        )),
{
    assert(Seq::<u64>::empty().push(0) =~= seq![0u64]);
}

/// A union of `number` with `null` or `undefined` is an optional `Float`: no
/// `!` and no levels, with or without semantic non-null tracking.
pub proof fn lemma_nullable_number_is_optional_float(
    csm: CustomScalarMap,
    types: Vec<TsType>,
    union_span: Span,
    mr: ModuleResolution,
    td: TypeDefinitions,
    snn: bool,
    source: SourceLocationKey,
    i: int,
)
    requires
        is_first_non_null(types@, i),
        types@[i] matches TsType::Keyword { kind: TsKeywordKind::Number, .. },
        has_null_marker(types@),
    ensures
        spec_translate(csm, TsType::Union { types, span: union_span }, mr, td, snn, source) == Ok::<
            (TypeView, Seq<u64>),
            crate::diagnostics::Diagnostic,
        >((TypeView::Named { name: "Float"@, span: types@[i].spec_span() }, Seq::empty())),
{
    let c = choose|c: int| is_first_non_null(types@, c);
    if c < i {
        assert(types@[c].is_null_marker());
    } else if i < c {
        assert(types@[i].is_null_marker());
    }
}

/// An array annotation with semantic non-null tracking is a list of the
/// element's translation without tracking, and has exactly the level 0: the
/// element contributes no levels.
pub proof fn lemma_array_has_level_zero(
    csm: CustomScalarMap,
    name: Ident,
    params: Vec<TsType>,
    span: Span,
    mr: ModuleResolution,
    td: TypeDefinitions,
    source: SourceLocationKey,
)
    requires
        is_array_name(name.name@),
        params@.len() == 1,
        spec_translate(
            csm,
            TsType::TypeRef { entity: TsEntityName::Ident(name), type_params: Some(params), span },
            mr,
            td,
            true,
            source,
        ) is Ok,
    ensures
        spec_translate(csm, params@[0], mr, td, false, source) matches Ok((item, item_levels)) && item_levels
            =~= Seq::<u64>::empty() && spec_translate(
            csm,
            TsType::TypeRef { entity: TsEntityName::Ident(name), type_params: Some(params), span },
            mr,
            td,
            true,
            source,
        ) == Ok::<(TypeView, Seq<u64>), crate::diagnostics::Diagnostic>((
            TypeView::List { span, item: Box::new(item) },
            seq![0u64],
        )),
{
    lemma_untracked_translation_has_no_levels(csm, params@[0], mr, td, source);
    let item_levels = spec_translate(csm, params@[0], mr, td, false, source)->Ok_0.1;
    assert(crate::translate::shift_levels(item_levels) =~= Seq::<u64>::empty());
    assert(Seq::<u64>::empty().push(0) =~= seq![0u64]);
}

/// An element that may be `null` keeps no `!` inside a list: the element of
/// `string | null` is a bare `String`.
pub proof fn lemma_nullable_string_element(
    csm: CustomScalarMap,
    types: Vec<TsType>,
    union_span: Span,
    mr: ModuleResolution,
    td: TypeDefinitions,
    source: SourceLocationKey,
    i: int,
)
    requires
        is_first_non_null(types@, i),
        types@[i] matches TsType::Keyword { kind: TsKeywordKind::String, .. },
        has_null_marker(types@),
    ensures
        spec_translate(csm, TsType::Union { types, span: union_span }, mr, td, false, source) == Ok::<
            (TypeView, Seq<u64>),
            crate::diagnostics::Diagnostic,
        >((TypeView::Named { name: "String"@, span: types@[i].spec_span() }, Seq::empty())),
{
    let c = choose|c: int| is_first_non_null(types@, c);
    if c < i {
        assert(types@[c].is_null_marker());
    } else if i < c {
        assert(types@[i].is_null_marker());
    }
}

/// `IdOf<"T">` names the type `T` exactly as the literal spells it, at the
/// literal's span.
pub proof fn lemma_id_of_names_literal(
    csm: CustomScalarMap,
    name: Ident,
    params: Vec<TsType>,
    value: String,
    literal_span: Span,
    span: Span,
    mr: ModuleResolution,
    td: TypeDefinitions,
    source: SourceLocationKey,
)
    requires
        name.name@ == "IdOf"@,
        params@ == seq![TsType::StrLiteral { value, span: literal_span }],
    ensures
        spec_translate(
            csm,
            TsType::TypeRef { entity: TsEntityName::Ident(name), type_params: Some(params), span },
            mr,
            td,
            true,
            source,
        ) == Ok::<(TypeView, Seq<u64>), crate::diagnostics::Diagnostic>((
            TypeView::Named { name: value@, span: literal_span },
            seq![0u64],
        )),
        spec_translate(
            csm,
            TsType::TypeRef { entity: TsEntityName::Ident(name), type_params: Some(params), span },
            mr,
            td,
            false,
            source,
        ) == Ok::<(TypeView, Seq<u64>), crate::diagnostics::Diagnostic>((
            TypeView::NonNull { span, item: Box::new(TypeView::Named { name: value@, span: literal_span }) },
            Seq::empty(),
        )),
{
    reveal_strlit("IdOf");
    reveal_strlit("Array");
    reveal_strlit("ReadOnlyArray");
    assert(!is_array_name(name.name@)) by {
        assert(name.name@.len() != "Array"@.len());
        assert(name.name@.len() != "ReadOnlyArray"@.len());
    }
    assert(Seq::<u64>::empty().push(0) =~= seq![0u64]);
}

/// `RelayResolverValue<T>` is always optional: no `!` and no levels, whatever
/// the tracking, and whether or not a union makes it nullable.
pub proof fn lemma_resolver_value_is_optional(
    csm: CustomScalarMap,
    name: Ident,
    params: Vec<TsType>,
    span: Span,
    optional: bool,
    mr: ModuleResolution,
    td: TypeDefinitions,
    snn: bool,
    source: SourceLocationKey,
)
    requires
        name.name@ == "RelayResolverValue"@,
        params@.len() == 1,
    ensures
        spec_translate_effective(
            csm,
            TsType::TypeRef { entity: TsEntityName::Ident(name), type_params: Some(params), span },
            optional,
            mr,
            td,
            snn,
            source,
        ) == Ok::<(TypeView, Seq<u64>), crate::diagnostics::Diagnostic>((
            TypeView::Named { name: "RelayResolverValue"@, span },
            Seq::empty(),
        )),
        spec_translate(
            csm,
            TsType::TypeRef { entity: TsEntityName::Ident(name), type_params: Some(params), span },
            mr,
            td,
            snn,
            source,
        ) == Ok::<(TypeView, Seq<u64>), crate::diagnostics::Diagnostic>((
            TypeView::Named { name: "RelayResolverValue"@, span },
            Seq::empty(),
        )),
{
    reveal_strlit("RelayResolverValue");
    reveal_strlit("IdOf");
    reveal_strlit("Array");
    reveal_strlit("ReadOnlyArray");
    assert(!is_array_name(name.name@)) by {
        assert(name.name@.len() != "Array"@.len());
        assert(name.name@.len() != "ReadOnlyArray"@.len());
    }
    assert(name.name@ != "IdOf"@) by {
        assert(name.name@.len() != "IdOf"@.len());
    }
}

} // verus!

verus! {

/// No later operation of `defs` than `i` is the same document as `defs[i]`.
pub open spec fn last_of_its_document(defs: Seq<crate::program::Definition>, i: int) -> bool {
    forall|l: int|
        i < l < defs.len() ==> !((#[trigger] defs[l]).name == defs[i].name && defs[l].source_location
            == defs[i].source_location)
}

proof fn lemma_position_found_at(gs: Seq<OperationGroup>, n: crate::program::StringKey, k: SourceLocationKey)
    ensures
        crate::grouping::position(gs, n, k) matches Some(j) ==> 0 <= j < gs.len() && crate::grouping::is_document(
            gs[j],
            n,
            k,
        ),
    decreases gs.len(),
{
    if gs.len() > 0 {
        lemma_position_found_at(gs.drop_last(), n, k);
    }
}

proof fn lemma_normalization_stage(defs: Seq<crate::program::Definition>, n: nat, i: int)
    requires
        0 <= i < n <= defs.len(),
        forall|l: int| i < l < n ==> !((#[trigger] defs[l]).name == defs[i].name && defs[l].source_location == defs[i].source_location),
    ensures
        ({
            let gs = crate::grouping::add_all(Seq::empty(), defs, crate::grouping::Slot::Normalization, n);
            exists|j: int|
                0 <= j < gs.len() && crate::grouping::is_document(#[trigger] gs[j], defs[i].name, defs[i].source_location)
                    && gs[j].normalization == Some(i as usize)
        }),
    decreases n,
{
    let prev = crate::grouping::add_all(Seq::empty(), defs, crate::grouping::Slot::Normalization, (n - 1) as nat);
    let d = defs[n - 1];
    let gs = crate::grouping::add_all(Seq::empty(), defs, crate::grouping::Slot::Normalization, n);
    lemma_position_found_at(prev, d.name, d.source_location);
    if i == n - 1 {
        match crate::grouping::position(prev, d.name, d.source_location) {
            Some(j) => {
                assert(crate::grouping::is_document(gs[j], d.name, d.source_location));
            },
            None => {
                assert(crate::grouping::is_document(gs[prev.len() as int], d.name, d.source_location));
            },
        }
    } else {
        lemma_normalization_stage(defs, (n - 1) as nat, i);
        let j = choose|j: int|
            0 <= j < prev.len() && crate::grouping::is_document(#[trigger] prev[j], defs[i].name, defs[i].source_location)
                && prev[j].normalization == Some(i as usize);
        assert(!(d.name == defs[i].name && d.source_location == defs[i].source_location));
        assert(gs[j] == prev[j]);
    }
}

proof fn lemma_other_stage_keeps(
    gs: Seq<OperationGroup>,
    defs: Seq<crate::program::Definition>,
    slot: crate::grouping::Slot,
    n: nat,
)
    requires
        slot != crate::grouping::Slot::Normalization,
        n <= defs.len(),
    ensures
        ({
            let out = crate::grouping::add_all(gs, defs, slot, n);
            &&& out.len() >= gs.len()
            &&& forall|j: int|
                0 <= j < gs.len() ==> (#[trigger] out[j]).name == gs[j].name && out[j].source_location
                    == gs[j].source_location && out[j].normalization == gs[j].normalization
        }),
    decreases n,
{
    if n > 0 {
        lemma_other_stage_keeps(gs, defs, slot, (n - 1) as nat);
        let prev = crate::grouping::add_all(gs, defs, slot, (n - 1) as nat);
        let d = defs[n - 1];
        lemma_position_found_at(prev, d.name, d.source_location);
        let out = crate::grouping::add_all(gs, defs, slot, n);
        assert forall|j: int| 0 <= j < gs.len() implies (#[trigger] out[j]).name == gs[j].name
            && out[j].source_location == gs[j].source_location && out[j].normalization == gs[j].normalization by {
            assert(prev[j].name == gs[j].name);
        }
    }
}

/// Grouping drops no normalization operation: each one that is the last of its
/// document (its name in its source) in the normalization program is the
/// normalization form of a group of that document.
pub proof fn lemma_no_normalization_dropped(p: Programs, i: int)
    requires
        0 <= i < p.normalization.operations@.len(),
        last_of_its_document(p.normalization.operations@, i),
    ensures
        ({
            let gs = crate::grouping::spec_group_operations(p);
            let d = p.normalization.operations@[i];
            exists|j: int|
                0 <= j < gs.len() && crate::grouping::is_document(#[trigger] gs[j], d.name, d.source_location)
                    && gs[j].normalization == Some(i as usize)
        }),
{
    let defs = p.normalization.operations@;
    let d = defs[i];
    lemma_normalization_stage(defs, defs.len(), i);
    let g1 = crate::grouping::add_all(Seq::empty(), defs, crate::grouping::Slot::Normalization, defs.len());
    let j = choose|j: int|
        0 <= j < g1.len() && crate::grouping::is_document(#[trigger] g1[j], d.name, d.source_location)
            && g1[j].normalization == Some(i as usize);
    let t = p.operation_text.operations@;
    let r = p.reader.operations@;
    let y = p.typegen.operations@;
    lemma_other_stage_keeps(g1, t, crate::grouping::Slot::OperationText, t.len());
    let g2 = crate::grouping::add_all(g1, t, crate::grouping::Slot::OperationText, t.len());
    lemma_other_stage_keeps(g2, r, crate::grouping::Slot::Reader, r.len());
    let g3 = crate::grouping::add_all(g2, r, crate::grouping::Slot::Reader, r.len());
    lemma_other_stage_keeps(g3, y, crate::grouping::Slot::Typegen, y.len());
    let g4 = crate::grouping::add_all(g3, y, crate::grouping::Slot::Typegen, y.len());
    assert(g4 == crate::grouping::spec_group_operations(p));
    assert(crate::grouping::is_document(g4[j], d.name, d.source_location));
}

} // verus!
