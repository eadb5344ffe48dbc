//! Grouping of the operations of the four programs by the document that
//! declares them, and the generation of all artifacts of a project.
use vstd::prelude::*;

use std::collections::HashMap;

use crate::artifacts::generate_operation_artifact;
use crate::artifacts::generate_reader_artifact;
use crate::artifacts::spec_fragment_artifact;
use crate::artifacts::spec_operation_artifact;
use crate::artifacts::Artifact;
use crate::artifacts::ArtifactContent;
use crate::artifacts::ArtifactPath;
use crate::artifacts::ArtifactSourceKey;
use crate::artifacts::ArtifactView;
use crate::artifacts::InternalError;
use crate::artifacts::OperationGroup;
use crate::artifacts::SourceHashes;
use crate::location::SourceLocationKey;
use crate::program::Definition;
use crate::program::Programs;
use crate::program::StringKey;

verus! {

/// Which program a definition of a group comes from.
#[derive(Clone, Copy, Debug, PartialEq, Eq, Structural)]
pub enum Slot {
    Normalization,
    OperationText,
    Reader,
    Typegen,
}

pub open spec fn set_slot(g: OperationGroup, slot: Slot, i: usize) -> OperationGroup {
    match slot {
        Slot::Normalization => OperationGroup { normalization: Some(i), ..g },
        Slot::OperationText => OperationGroup { operation_text: Some(i), ..g },
        Slot::Reader => OperationGroup { reader: Some(i), ..g },
        Slot::Typegen => OperationGroup { typegen: Some(i), ..g },
    }
}

pub open spec fn empty_group(name: StringKey, k: SourceLocationKey) -> OperationGroup {
    OperationGroup {
        name,
        source_location: k,
        normalization: None,
        operation_text: None,
        reader: None,
        typegen: None,
    }
}

/// The group is the one of the document named `name` in the source `k`.
pub open spec fn is_document(g: OperationGroup, name: StringKey, k: SourceLocationKey) -> bool {
    g.name == name && g.source_location == k
}

/// The index of the last group of the document `name` in the source `k`.
pub open spec fn position(gs: Seq<OperationGroup>, name: StringKey, k: SourceLocationKey) -> Option<int>
    decreases gs.len(),
{
    if gs.len() == 0 {
        None
    } else if is_document(gs.last(), name, k) {
        Some(gs.len() - 1)
    } else {
        position(gs.drop_last(), name, k)
    }
}

/// Records definition `i` of a program in the group of its document, which is
/// created at the end when the document has none yet.
pub open spec fn upsert(gs: Seq<OperationGroup>, name: StringKey, k: SourceLocationKey, slot: Slot, i: usize) -> Seq<
    OperationGroup,
> {
    match position(gs, name, k) {
        Some(j) => gs.update(j, set_slot(gs[j], slot, i)),
        None => gs.push(set_slot(empty_group(name, k), slot, i)),
    }
}

/// The groups after recording the first `n` definitions of `defs`, in order.
pub open spec fn add_all(gs: Seq<OperationGroup>, defs: Seq<Definition>, slot: Slot, n: nat) -> Seq<
    OperationGroup,
>
    decreases n,
{
    if n == 0 {
        gs
    } else {
        upsert(
            add_all(gs, defs, slot, (n - 1) as nat),
            defs[n - 1].name,
            defs[n - 1].source_location,
            slot,
            (n - 1) as usize,
        )
    }
}

pub open spec fn slot_defs(p: Programs, slot: Slot) -> Seq<Definition> {
    match slot {
        Slot::Normalization => p.normalization.operations@,
        Slot::OperationText => p.operation_text.operations@,
        Slot::Reader => p.reader.operations@,
        Slot::Typegen => p.typegen.operations@,
    }
}

/// The operation groups of a project: one per document (a name declared in a
/// source) that has an operation in any of the programs, in the order in which
/// the documents first occur in the normalization, operation text, reader and
/// typegen programs. Each group holds, for each program, the last operation of
/// that document.
pub open spec fn spec_group_operations(p: Programs) -> Seq<OperationGroup> {
    let g1 = add_all(Seq::empty(), slot_defs(p, Slot::Normalization), Slot::Normalization, slot_defs(p, Slot::Normalization).len());
    let g2 = add_all(g1, slot_defs(p, Slot::OperationText), Slot::OperationText, slot_defs(p, Slot::OperationText).len());
    let g3 = add_all(g2, slot_defs(p, Slot::Reader), Slot::Reader, slot_defs(p, Slot::Reader).len());
    add_all(g3, slot_defs(p, Slot::Typegen), Slot::Typegen, slot_defs(p, Slot::Typegen).len())
}

/// One number for a document: its name and its source side by side.
pub open spec fn document_code(name: StringKey, k: SourceLocationKey) -> u128 {
    ((name.id as int) * 0x1_0000_0000_0000_0000 + (k.id as int)) as u128
}

pub open spec fn group_code(g: OperationGroup) -> u128 {
    document_code(g.name, g.source_location)
}

proof fn lemma_document_code_injective(n1: StringKey, k1: SourceLocationKey, n2: StringKey, k2: SourceLocationKey)
    requires
        document_code(n1, k1) == document_code(n2, k2),
    ensures
        n1 == n2,
        k1 == k2,
{
    let m: int = 0x1_0000_0000_0000_0000;
    let (a1, b1, a2, b2) = (n1.id as int, k1.id as int, n2.id as int, k2.id as int);
    assert(0 <= a1 * m + b1 < 0x1_0000_0000_0000_0000_0000_0000_0000_0000) by (nonlinear_arith)
        requires
            0 <= a1 < m,
            0 <= b1 < m,
            m == 0x1_0000_0000_0000_0000,
    ;
    assert(0 <= a2 * m + b2 < 0x1_0000_0000_0000_0000_0000_0000_0000_0000) by (nonlinear_arith)
        requires
            0 <= a2 < m,
            0 <= b2 < m,
            m == 0x1_0000_0000_0000_0000,
    ;
    assert(a1 * m + b1 == a2 * m + b2);
    assert(a1 == a2 && b1 == b2) by (nonlinear_arith)
        requires
            a1 * m + b1 == a2 * m + b2,
            0 <= b1 < m,
            0 <= b2 < m,
            0 <= a1,
            0 <= a2,
    ;
}

fn compute_document_code(name: StringKey, k: SourceLocationKey) -> (r: u128)
    ensures
        r == document_code(name, k),
{
    let a = name.id as u128;
    let b = k.id as u128;
    assert(a * 0x1_0000_0000_0000_0000u128 + b < 0x1_0000_0000_0000_0000_0000_0000_0000_0000) by (nonlinear_arith)
        requires
            a < 0x1_0000_0000_0000_0000,
            b < 0x1_0000_0000_0000_0000,
    ;
    a * 0x1_0000_0000_0000_0000u128 + b
}

/// `index` maps each group's document to the group's position; documents are distinct.
pub open spec fn index_ok(index: Map<u128, usize>, gs: Seq<OperationGroup>) -> bool {
    &&& forall|id: u128|
        #[trigger] index.contains_key(id) ==> index[id] < gs.len() && group_code(gs[index[id] as int]) == id
    &&& forall|j: int| 0 <= j < gs.len() ==> index.contains_key(#[trigger] group_code(gs[j]))
    &&& forall|j1: int, j2: int|
        0 <= j1 < j2 < gs.len() ==> !is_document(#[trigger] gs[j1], (#[trigger] gs[j2]).name, gs[j2].source_location)
}

pub open spec fn all_valid(gs: Seq<OperationGroup>, p: Programs) -> bool {
    forall|j: int| 0 <= j < gs.len() ==> (#[trigger] gs[j]).valid_for(p)
}

proof fn lemma_position_found(gs: Seq<OperationGroup>, name: StringKey, k: SourceLocationKey, j: int)
    requires
        0 <= j < gs.len(),
        is_document(gs[j], name, k),
        forall|j1: int, j2: int|
            0 <= j1 < j2 < gs.len() ==> !is_document(#[trigger] gs[j1], (#[trigger] gs[j2]).name, gs[j2].source_location),
    ensures
        position(gs, name, k) == Some(j),
    decreases gs.len(),
{
    if j < gs.len() - 1 {
        assert(!is_document(gs[j], gs[gs.len() - 1].name, gs[gs.len() - 1].source_location));
        lemma_position_found(gs.drop_last(), name, k, j);
    }
}

proof fn lemma_position_absent(gs: Seq<OperationGroup>, name: StringKey, k: SourceLocationKey)
    requires
        forall|j: int| 0 <= j < gs.len() ==> !is_document(#[trigger] gs[j], name, k),
    ensures
        position(gs, name, k) is None,
    decreases gs.len(),
{
    if gs.len() > 0 {
        lemma_position_absent(gs.drop_last(), name, k);
    }
}

fn add_operations(
    groups: &mut Vec<OperationGroup>,
    index: &mut HashMap<u128, usize>,
    programs: &Programs,
    slot: Slot,
)
    requires
        index_ok(old(index)@, old(groups)@),
        all_valid(old(groups)@, *programs),
    ensures
        index_ok(final(index)@, final(groups)@),
        all_valid(final(groups)@, *programs),
        final(groups)@ == add_all(old(groups)@, slot_defs(*programs, slot), slot, slot_defs(*programs, slot).len()),
{
    let defs = match slot {
        Slot::Normalization => &programs.normalization.operations,
        Slot::OperationText => &programs.operation_text.operations,
        Slot::Reader => &programs.reader.operations,
        Slot::Typegen => &programs.typegen.operations,
    };
    let ghost start = groups@;
    let mut i: usize = 0;
    while i < defs.len()
        invariant
            defs@ == slot_defs(*programs, slot),
            i <= defs@.len(),
            index_ok(index@, groups@),
            all_valid(groups@, *programs),
            groups@ == add_all(start, defs@, slot, i as nat),
        decreases defs@.len() - i,
    {
        let name = defs[i].name;
        let k = defs[i].source_location;
        let code = compute_document_code(name, k);
        let ghost before = groups@;
        match index.get(&code) {
            Some(j) => {
                let j = *j;
                proof {
                    lemma_document_code_injective(before[j as int].name, before[j as int].source_location, name, k);
                    lemma_position_found(before, name, k, j as int);
                }
                let mut g = groups[j];
                match slot {
                    Slot::Normalization => g.normalization = Some(i),
                    Slot::OperationText => g.operation_text = Some(i),
                    Slot::Reader => g.reader = Some(i),
                    Slot::Typegen => g.typegen = Some(i),
                }
                groups.set(j, g);
                proof {
                    assert forall|j1: int, j2: int|
                        0 <= j1 < j2 < groups@.len() implies !is_document(
                        #[trigger] groups@[j1],
                        (#[trigger] groups@[j2]).name,
                        groups@[j2].source_location,
                    ) by {
                        assert(!is_document(before[j1], before[j2].name, before[j2].source_location));
                    }
                    assert forall|j1: int| 0 <= j1 < groups@.len() implies (#[trigger] groups@[j1]).valid_for(
                        *programs,
                    ) by {
                        assert(before[j1].valid_for(*programs));
                    }
                    assert forall|id: u128| #[trigger] index@.contains_key(id) implies index@[id] < groups@.len()
                        && group_code(groups@[index@[id] as int]) == id by {
                        assert(group_code(before[index@[id] as int]) == id);
                    }
                    assert forall|j1: int| 0 <= j1 < groups@.len() implies index@.contains_key(
                        #[trigger] group_code(groups@[j1]),
                    ) by {
                        assert(index@.contains_key(group_code(before[j1])));
                    }
                }
            },
            None => {
                proof {
                    assert forall|j: int| 0 <= j < before.len() implies !is_document(#[trigger] before[j], name, k) by {
                        assert(index@.contains_key(group_code(before[j])));
                    }
                    lemma_position_absent(before, name, k);
                }
                let g = match slot {
                    Slot::Normalization => OperationGroup {
                        name,
                        source_location: k,
                        normalization: Some(i),
                        operation_text: None,
                        reader: None,
                        typegen: None,
                    },
                    Slot::OperationText => OperationGroup {
                        name,
                        source_location: k,
                        normalization: None,
                        operation_text: Some(i),
                        reader: None,
                        typegen: None,
                    },
                    Slot::Reader => OperationGroup {
                        name,
                        source_location: k,
                        normalization: None,
                        operation_text: None,
                        reader: Some(i),
                        typegen: None,
                    },
                    Slot::Typegen => OperationGroup {
                        name,
                        source_location: k,
                        normalization: None,
                        operation_text: None,
                        reader: None,
                        typegen: Some(i),
                    },
                };
                index.insert(code, groups.len());
                groups.push(g);
                proof {
                    assert forall|j1: int, j2: int|
                        0 <= j1 < j2 < groups@.len() implies !is_document(
                        #[trigger] groups@[j1],
                        (#[trigger] groups@[j2]).name,
                        groups@[j2].source_location,
                    ) by {
                        if j2 == groups@.len() - 1 {
                            assert(!is_document(before[j1], name, k));
                        } else {
                            assert(!is_document(before[j1], before[j2].name, before[j2].source_location));
                        }
                    }
                    assert forall|j1: int| 0 <= j1 < groups@.len() implies (#[trigger] groups@[j1]).valid_for(
                        *programs,
                    ) by {
                        if j1 < before.len() {
                            assert(before[j1].valid_for(*programs));
                        }
                    }
                    assert forall|id: u128| #[trigger] index@.contains_key(id) implies index@[id] < groups@.len()
                        && group_code(groups@[index@[id] as int]) == id by {
                        if id != code {
                            assert(group_code(before[index@[id] as int]) == id);
                        }
                    }
                    assert forall|j1: int| 0 <= j1 < groups@.len() implies index@.contains_key(
                        #[trigger] group_code(groups@[j1]),
                    ) by {
                        if j1 < before.len() {
                            assert(before[j1] == groups@[j1]);
                            assert(index@.contains_key(group_code(before[j1])));
                        }
                    }
                }
            },
        }
        i = i + 1;
    }
}

/// Groups the operations of the programs by the document that declares them.
pub fn group_operations(programs: &Programs) -> (r: Vec<OperationGroup>)
    ensures
        r@ == spec_group_operations(*programs),
        all_valid(r@, *programs),
{
    let mut groups: Vec<OperationGroup> = Vec::new();
    let mut index: HashMap<u128, usize> = HashMap::new();
    add_operations(&mut groups, &mut index, programs, Slot::Normalization);
    add_operations(&mut groups, &mut index, programs, Slot::OperationText);
    add_operations(&mut groups, &mut index, programs, Slot::Reader);
    add_operations(&mut groups, &mut index, programs, Slot::Typegen);
    groups
}

} // verus!

verus! {

/// The artifacts of the groups `gs[..n]`, in order, or the first error among them.
pub open spec fn spec_group_artifacts(p: Programs, h: SourceHashes, gs: Seq<OperationGroup>, n: nat) -> Result<
    Seq<ArtifactView>,
    InternalError,
>
    decreases n,
{
    if n == 0 {
        Ok(Seq::empty())
    } else {
        match spec_group_artifacts(p, h, gs, (n - 1) as nat) {
            Err(e) => Err(e),
            Ok(s) => match spec_operation_artifact(p, h, gs[n - 1]) {
                Err(e) => Err(e),
                Ok(a) => Ok(s.push(a)),
            },
        }
    }
}

/// The artifacts of the first `n` reader fragments, in order, or the first error among them.
pub open spec fn spec_fragment_artifacts(p: Programs, h: SourceHashes, n: nat) -> Result<
    Seq<ArtifactView>,
    InternalError,
>
    decreases n,
{
    if n == 0 {
        Ok(Seq::empty())
    } else {
        match spec_fragment_artifacts(p, h, (n - 1) as nat) {
            Err(e) => Err(e),
            Ok(s) => match spec_fragment_artifact(p, h, n - 1) {
                Err(e) => Err(e),
                Ok(a) => Ok(s.push(a)),
            },
        }
    }
}

/// The artifact of each operation group, then the artifact of each reader fragment.
pub open spec fn spec_unmerged_artifacts(p: Programs, h: SourceHashes) -> Result<Seq<ArtifactView>, InternalError> {
    let gs = spec_group_operations(p);
    match spec_group_artifacts(p, h, gs, gs.len()) {
        Err(e) => Err(e),
        Ok(a) => match spec_fragment_artifacts(p, h, p.reader.fragments@.len()) {
            Err(e) => Err(e),
            Ok(b) => Ok(a + b),
        },
    }
}

proof fn lemma_group_error_stays(p: Programs, h: SourceHashes, gs: Seq<OperationGroup>, n: nat, m: nat)
    requires
        n <= m,
        spec_group_artifacts(p, h, gs, n) is Err,
    ensures
        spec_group_artifacts(p, h, gs, m) == spec_group_artifacts(p, h, gs, n),
    decreases m - n,
{
    if n < m {
        lemma_group_error_stays(p, h, gs, n, (m - 1) as nat);
    }
}

proof fn lemma_fragment_error_stays(p: Programs, h: SourceHashes, n: nat, m: nat)
    requires
        n <= m,
        spec_fragment_artifacts(p, h, n) is Err,
    ensures
        spec_fragment_artifacts(p, h, m) == spec_fragment_artifacts(p, h, n),
    decreases m - n,
{
    if n < m {
        lemma_fragment_error_stays(p, h, n, (m - 1) as nat);
    }
}

pub open spec fn views(arts: Seq<Artifact>) -> Seq<ArtifactView> {
    arts.map_values(|a: Artifact| a.view())
}

/// Generates one artifact per operation group and one per reader fragment.
pub fn generate_unmerged_artifacts(programs: &Programs, source_hashes: &SourceHashes) -> (r: Result<
    Vec<Artifact>,
    InternalError,
>)
    ensures
        match r {
            Ok(v) => spec_unmerged_artifacts(*programs, *source_hashes) == Ok::<Seq<ArtifactView>, InternalError>(
                views(v@),
            ),
            Err(e) => spec_unmerged_artifacts(*programs, *source_hashes) == Err::<Seq<ArtifactView>, InternalError>(e),
        },
{
    let groups = group_operations(programs);
    let mut artifacts: Vec<Artifact> = Vec::new();
    let mut i: usize = 0;
    assert(views(artifacts@) =~= Seq::<ArtifactView>::empty());
    while i < groups.len()
        invariant
            i <= groups@.len(),
            groups@ == spec_group_operations(*programs),
            all_valid(groups@, *programs),
            spec_group_artifacts(*programs, *source_hashes, groups@, i as nat) == Ok::<
                Seq<ArtifactView>,
                InternalError,
            >(views(artifacts@)),
        decreases groups@.len() - i,
    {
        assert(groups@[i as int].valid_for(*programs));
        match generate_operation_artifact(programs, source_hashes, &groups[i]) {
            Ok(a) => {
                let ghost before = artifacts@;
                artifacts.push(a);
                assert(views(artifacts@) =~= views(before).push(a.view()));
            },
            Err(e) => {
                proof {
                    lemma_group_error_stays(*programs, *source_hashes, groups@, (i + 1) as nat, groups@.len());
                }
                return Err(e);
            },
        }
        i = i + 1;
    }
    let ghost group_views = views(artifacts@);
    let mut j: usize = 0;
    assert(group_views + Seq::<ArtifactView>::empty() =~= group_views);
    while j < programs.reader.fragments.len()
        invariant
            j <= programs.reader.fragments@.len(),
            groups@ == spec_group_operations(*programs),
            spec_group_artifacts(*programs, *source_hashes, groups@, groups@.len()) == Ok::<
                Seq<ArtifactView>,
                InternalError,
            >(group_views),
            spec_fragment_artifacts(*programs, *source_hashes, j as nat) matches Ok(fs) && views(artifacts@)
                == group_views + fs,
        decreases programs.reader.fragments@.len() - j,
    {
        match generate_reader_artifact(programs, source_hashes, j) {
            Ok(a) => {
                let ghost before = artifacts@;
                let ghost fs = spec_fragment_artifacts(*programs, *source_hashes, j as nat)->Ok_0;
                artifacts.push(a);
                assert(views(artifacts@) =~= views(before).push(a.view()));
                assert(views(artifacts@) =~= group_views + fs.push(a.view()));
            },
            Err(e) => {
                proof {
                    lemma_fragment_error_stays(
                        *programs,
                        *source_hashes,
                        (j + 1) as nat,
                        programs.reader.fragments@.len(),
                    );
                }
                return Err(e);
            },
        }
        j = j + 1;
    }
    Ok(artifacts)
}

} // verus!

verus! {

/// The artifact of one source file, made of the artifacts generated for it.
pub struct MergedView {
    pub source_file: SourceLocationKey,
    pub keys: Seq<ArtifactSourceKey>,
    pub contents: Seq<ArtifactContent>,
    pub path: ArtifactPath,
}

/// `j` is where the source file `k` belongs among `ms`: every entry before it
/// has a smaller source file, and the entry at it (if any) does not.
pub open spec fn is_insertion_point(ms: Seq<MergedView>, k: SourceLocationKey, j: int) -> bool {
    &&& 0 <= j <= ms.len()
    &&& forall|i: int| 0 <= i < j ==> (#[trigger] ms[i]).source_file.id < k.id
    &&& j < ms.len() ==> ms[j].source_file.id >= k.id
}

pub open spec fn insertion_point(ms: Seq<MergedView>, k: SourceLocationKey) -> int {
    choose|j: int| is_insertion_point(ms, k, j)
}

/// The place of a source file among merged artifacts is unique.
pub proof fn lemma_insertion_point(ms: Seq<MergedView>, k: SourceLocationKey, j: int)
    requires
        is_insertion_point(ms, k, j),
    ensures
        insertion_point(ms, k) == j,
{
    let c = insertion_point(ms, k);
    assert(is_insertion_point(ms, k, c));
    if c < j {
        assert(ms[c].source_file.id < k.id);
    } else if j < c {
        assert(ms[j].source_file.id < k.id);
    }
}

/// The merged artifacts are in increasing order of source file.
pub open spec fn sorted_by_source(ms: Seq<MergedView>) -> bool {
    forall|i: int, j: int| 0 <= i < j < ms.len() ==> (#[trigger] ms[i]).source_file.id < (#[trigger] ms[j]).source_file.id
}

/// Adds one artifact to the merged artifact of its source file, which is
/// created in its place by order of source file when there is none yet: the
/// artifact's keys and content go last, and its path is taken.
pub open spec fn merge_step(ms: Seq<MergedView>, a: ArtifactView) -> Seq<MergedView> {
    let j = insertion_point(ms, a.source_file);
    if j < ms.len() && ms[j].source_file == a.source_file {
        ms.update(
            j,
            MergedView {
                source_file: ms[j].source_file,
                keys: ms[j].keys + a.keys,
                contents: ms[j].contents.push(a.content),
                path: a.path,
            },
        )
    } else {
        ms.insert(j, MergedView { source_file: a.source_file, keys: a.keys, contents: seq![a.content], path: a.path })
    }
}

/// One artifact per source file, in increasing order of source file, with the
/// keys and contents of its artifacts in encounter order.
pub open spec fn spec_merge(arts: Seq<ArtifactView>) -> Seq<MergedView>
    decreases arts.len(),
{
    if arts.len() == 0 {
        Seq::empty()
    } else {
        merge_step(spec_merge(arts.drop_last()), arts.last())
    }
}

/// What a merged artifact holds.
pub open spec fn merged_view(a: Artifact) -> MergedView {
    MergedView {
        source_file: a.source_file,
        keys: a.artifact_source_keys@,
        contents: match a.content {
            ArtifactContent::MixedGraphQL { artifacts } => artifacts@,
            _ => seq![a.content],
        },
        path: a.path,
    }
}

pub open spec fn merged_views(out: Seq<Artifact>) -> Seq<MergedView> {
    out.map_values(|a: Artifact| merged_view(a))
}

pub open spec fn all_mixed(out: Seq<Artifact>) -> bool {
    forall|j: int| 0 <= j < out.len() ==> (#[trigger] out[j]).content is MixedGraphQL
}

/// Merges the artifacts of each source file into one artifact whose content is
/// the list of their contents; the merged artifacts are ordered by source file.
pub fn merge_artifacts_by_source_file(artifacts: Vec<Artifact>) -> (r: Vec<Artifact>)
    ensures
        merged_views(r@) == spec_merge(views(artifacts@)),
        sorted_by_source(merged_views(r@)),
        all_mixed(r@),
{
    let ghost input = views(artifacts@);
    let mut rest = artifacts;
    let mut out: Vec<Artifact> = Vec::new();
    let ghost mut done: int = 0;
    assert(input.take(0) =~= Seq::<ArtifactView>::empty());
    assert(merged_views(out@) =~= Seq::<MergedView>::empty());
    assert(views(rest@) =~= input.subrange(0, input.len() as int));
    while rest.len() > 0
        invariant
            0 <= done <= input.len(),
            views(rest@) == input.subrange(done, input.len() as int),
            merged_views(out@) == spec_merge(input.take(done)),
            sorted_by_source(merged_views(out@)),
            all_mixed(out@),
        decreases rest@.len(),
    {
        let ghost before = out@;
        let ghost mv = merged_views(before);
        let ghost old_rest = rest@;
        assert(views(old_rest).len() == old_rest.len());
        assert(views(old_rest)[0] == old_rest[0].view());
        assert(input.subrange(done, input.len() as int)[0] == input[done]);
        let mut a = rest.remove(0);
        let ghost av = a.view();
        assert(av == input[done]);
        assert(input.take(done + 1).drop_last() =~= input.take(done));
        assert(input.take(done + 1).last() == input[done]);
        let k = a.source_file;
        let mut j: usize = 0;
        while j < out.len() && out[j].source_file.id < k.id
            invariant
                out@ == before,
                mv == merged_views(before),
                j <= out@.len(),
                forall|i: int| 0 <= i < j ==> (#[trigger] mv[i]).source_file.id < k.id,
            decreases out@.len() - j,
        {
            assert(mv[j as int].source_file == out@[j as int].source_file);
            j = j + 1;
        }
        proof {
            if j < out@.len() {
                assert(mv[j as int].source_file == out@[j as int].source_file);
            }
            assert(is_insertion_point(mv, k, j as int));
            lemma_insertion_point(mv, k, j as int);
        }
        if j < out.len() && out[j].source_file.id == k.id {
            assert(mv[j as int].source_file == k);
            let mut old_entry = Artifact {
                artifact_source_keys: Vec::new(),
                path: a.path,
                content: ArtifactContent::MixedGraphQL { artifacts: Vec::new() },
                source_file: k,
            };
            core::mem::swap(&mut out[j], &mut old_entry);
            let Artifact { artifact_source_keys: mut keys, path: _, content, source_file } = old_entry;
            let mut contents = match content {
                ArtifactContent::MixedGraphQL { artifacts } => artifacts,
                other => vec![other],
            };
            keys.append(&mut a.artifact_source_keys);
            contents.push(a.content);
            let merged = Artifact {
                artifact_source_keys: keys,
                path: a.path,
                content: ArtifactContent::MixedGraphQL { artifacts: contents },
                source_file,
            };
            out.set(j, merged);
            proof {
                assert(merged_views(out@) =~= mv.update(
                    j as int,
                    MergedView {
                        source_file: mv[j as int].source_file,
                        keys: mv[j as int].keys + av.keys,
                        contents: mv[j as int].contents.push(av.content),
                        path: a.path,
                    },
                ));
                assert forall|i1: int, i2: int|
                    0 <= i1 < i2 < out@.len() implies (#[trigger] merged_views(out@)[i1]).source_file.id < (
                    #[trigger] merged_views(out@)[i2]).source_file.id by {
                    assert(mv[i1].source_file.id < mv[i2].source_file.id);
                }
                assert forall|i1: int| 0 <= i1 < out@.len() implies (#[trigger] out@[i1]).content is MixedGraphQL by {
                    assert(before[i1].content is MixedGraphQL);
                }
            }
        } else {
            proof {
                if j < out@.len() {
                    assert(mv[j as int].source_file != k);
                }
            }
            let Artifact { artifact_source_keys, path, content, source_file } = a;
            let merged = Artifact {
                artifact_source_keys,
                path,
                content: ArtifactContent::MixedGraphQL { artifacts: vec![content] },
                source_file,
            };
            out.insert(j, merged);
            proof {
                assert(merged_view(merged).contents =~= seq![content]);
                assert(merged_views(out@) =~= mv.insert(j as int, merged_view(merged)));
                assert forall|i1: int, i2: int|
                    0 <= i1 < i2 < out@.len() implies (#[trigger] merged_views(out@)[i1]).source_file.id < (
                    #[trigger] merged_views(out@)[i2]).source_file.id by {
                    let ov = merged_views(out@);
                    if i2 < j {
                        assert(mv[i1].source_file.id < mv[i2].source_file.id);
                    } else if i2 == j {
                        assert(mv[i1].source_file.id < k.id);
                    } else if i1 < j {
                        assert(mv[i1].source_file.id < k.id);
                        assert(mv[j as int].source_file.id >= k.id);
                        if i2 - 1 > j {
                            assert(mv[j as int].source_file.id < mv[i2 - 1].source_file.id);
                        }
                    } else if i1 == j {
                        assert(mv[j as int].source_file.id >= k.id);
                        assert(mv[j as int].source_file.id != k.id);
                        if i2 - 1 > j {
                            assert(mv[j as int].source_file.id < mv[i2 - 1].source_file.id);
                        }
                    } else {
                        assert(mv[i1 - 1].source_file.id < mv[i2 - 1].source_file.id);
                    }
                }
                assert forall|i1: int| 0 <= i1 < out@.len() implies (#[trigger] out@[i1]).content is MixedGraphQL by {
                    if i1 < j {
                        assert(before[i1] == out@[i1]);
                    } else if i1 > j {
                        assert(before[i1 - 1] == out@[i1]);
                    }
                }
            }
        }
        proof {
            done = done + 1;
            assert(rest@ =~= old_rest.subrange(1, old_rest.len() as int));
            assert(views(rest@) =~= views(old_rest).subrange(1, old_rest.len() as int));
            assert(views(rest@) =~= input.subrange(done, input.len() as int));
        }
    }
    assert(input.take(done) =~= input);
    out
}

/// How the generated types are written; one mode puts all artifacts of a source
/// file into one file.
#[derive(Clone, Copy, Debug, PartialEq, Eq, Structural)]
pub enum TypegenLanguage {
    JavaScript,
    TypeScript,
    Flow,
    MixedGraphQLToTypeScript,
}

/// The project settings that artifact generation reads.
#[derive(Clone, Copy, Debug)]
pub struct ProjectConfig {
    pub typegen_language: TypegenLanguage,
}

/// Generates the artifacts of a project; in the mixed mode, merged by source file.
pub fn generate_artifacts(
    project_config: &ProjectConfig,
    programs: &Programs,
    source_hashes: &SourceHashes,
) -> (r: Result<Vec<Artifact>, InternalError>)
    ensures
        match spec_unmerged_artifacts(*programs, *source_hashes) {
            Err(e) => r == Err::<Vec<Artifact>, InternalError>(e),
            Ok(arts) => r matches Ok(v) && if project_config.typegen_language
                == TypegenLanguage::MixedGraphQLToTypeScript {
                &&& merged_views(v@) == spec_merge(arts)
                &&& sorted_by_source(merged_views(v@))
                &&& all_mixed(v@)
            } else {
                views(v@) == arts
            },
        },
{
    let artifacts = match generate_unmerged_artifacts(programs, source_hashes) {
        Ok(a) => a,
        Err(e) => return Err(e),
    };
    match project_config.typegen_language {
        TypegenLanguage::MixedGraphQLToTypeScript => Ok(merge_artifacts_by_source_file(artifacts)),
        _ => Ok(artifacts),
    }
}

} // verus!
