//! Artifact packaging: collects declared local paths into a flat list of
//! archive entries, each named by its base name.
//!
//! The surrounding binary resolves every declared path against the local
//! filesystem and hands the findings in as [`ArtifactInput`] values; packaging
//! itself is pure. Name collisions across artifacts are rejected with an
//! explicit error rather than resolved silently.

use vstd::prelude::*;
use crate::text::base_name;
use crate::text::base_name_of;

verus! {

/// One archive entry: a file name (no directory part) and its raw bytes.
#[derive(Debug, PartialEq, Eq)]
pub struct ArchiveEntry {
    pub name: String,
    pub data: Vec<u8>,
}

impl View for ArchiveEntry {
    type V = (Seq<char>, Seq<u8>);

    open spec fn view(&self) -> (Seq<char>, Seq<u8>) {
        (self.name@, self.data@)
    }
}

impl DeepView for ArchiveEntry {
    type V = (Seq<char>, Seq<u8>);

    open spec fn deep_view(&self) -> (Seq<char>, Seq<u8>) {
        self.view()
    }
}

/// What the local filesystem showed for one declared artifact path.
#[derive(Debug, PartialEq, Eq)]
pub enum ArtifactSource {
    /// The path does not exist.
    Missing,
    /// The path exists but its contents could not be read.
    Unreadable,
    /// A regular file and its bytes.
    FileData { data: Vec<u8> },
    /// A directory and its direct child files, each with its own name and
    /// bytes; nested subdirectories are not represented and not descended
    /// into.
    DirEntries { children: Vec<ArchiveEntry> },
}

/// One declared artifact path together with what the filesystem showed for
/// it.
pub struct ArtifactInput {
    pub path: String,
    pub source: ArtifactSource,
}

/// Why packaging failed.
#[derive(Debug, PartialEq, Eq)]
pub enum PackagingError {
    /// The declared path does not exist.
    MissingArtifact { path: String },
    /// The declared path could not be read.
    ArtifactRead { path: String },
    /// The declared path has no base name to name its entry by.
    InvalidArtifactPath { path: String },
    /// Two entries would carry the same name.
    DuplicateEntry { name: String },
    /// The archive bytes could not be produced.
    ArchiveWrite { path: String },
}

/// Whether one input can contribute entries without failing.
pub open spec fn source_ok(inp: ArtifactInput) -> bool {
    match inp.source {
        ArtifactSource::Missing => false,
        ArtifactSource::Unreadable => false,
        ArtifactSource::FileData { data } => base_name_of(inp.path@).len() > 0,
        ArtifactSource::DirEntries { children } => true,
    }
}

/// Whether `e` is the error owed for the failing input `inp`.
pub open spec fn source_err_matches(e: PackagingError, inp: ArtifactInput) -> bool {
    match inp.source {
        ArtifactSource::Missing => e matches PackagingError::MissingArtifact { path } && path@
            == inp.path@,
        ArtifactSource::Unreadable => e matches PackagingError::ArtifactRead { path } && path@
            == inp.path@,
        ArtifactSource::FileData { data } => e matches PackagingError::InvalidArtifactPath {
            path,
        } && path@ == inp.path@,
        ArtifactSource::DirEntries { children } => false,
    }
}

/// The direct children recorded for a directory source; empty for any other
/// source.
pub open spec fn dir_children(src: ArtifactSource) -> Seq<(Seq<char>, Seq<u8>)> {
    match src {
        ArtifactSource::DirEntries { children } => children.deep_view(),
        _ => Seq::empty(),
    }
}

/// The entries one input contributes: a file gives one entry under its base
/// name; a directory gives exactly its direct children.
pub open spec fn input_entries(inp: ArtifactInput) -> Seq<(Seq<char>, Seq<u8>)> {
    match inp.source {
        ArtifactSource::FileData { data } => seq![(base_name_of(inp.path@), data@)],
        ArtifactSource::DirEntries { children } => children.deep_view(),
        _ => Seq::empty(),
    }
}

/// All entries of all inputs, in declaration order.
pub open spec fn flat_entries(inputs: Seq<ArtifactInput>) -> Seq<(Seq<char>, Seq<u8>)>
    decreases inputs.len(),
{
    if inputs.len() == 0 {
        Seq::empty()
    } else {
        input_entries(inputs[0]) + flat_entries(inputs.skip(1))
    }
}

pub proof fn lemma_flat_entries_push(inputs: Seq<ArtifactInput>, x: ArtifactInput)
    ensures
        flat_entries(inputs.push(x)) == flat_entries(inputs) + input_entries(x),
    decreases inputs.len(),
{
    assert(flat_entries(Seq::<ArtifactInput>::empty()) == Seq::<(Seq<char>, Seq<u8>)>::empty());
    if inputs.len() == 0 {
        assert(inputs.push(x)[0] == x);
        assert(inputs.push(x).skip(1) =~= Seq::<ArtifactInput>::empty());
        assert(flat_entries(inputs.push(x)) =~= flat_entries(inputs) + input_entries(x));
    } else {
        assert(inputs.push(x).skip(1) =~= inputs.skip(1).push(x));
        lemma_flat_entries_push(inputs.skip(1), x);
        assert(flat_entries(inputs.push(x)) =~= flat_entries(inputs) + input_entries(x));
    }
}

/// Index of the first input that cannot contribute, or the length when all
/// can.
pub open spec fn first_bad(inputs: Seq<ArtifactInput>) -> int
    decreases inputs.len(),
{
    if inputs.len() == 0 {
        0
    } else if !source_ok(inputs[0]) {
        0
    } else {
        1 + first_bad(inputs.skip(1))
    }
}

pub proof fn lemma_first_bad_is(inputs: Seq<ArtifactInput>, k: int)
    requires
        0 <= k <= inputs.len(),
        forall|j: int| 0 <= j < k ==> source_ok(inputs[j]),
        k < inputs.len() ==> !source_ok(inputs[k]),
    ensures
        first_bad(inputs) == k,
    decreases inputs.len(),
{
    if inputs.len() > 0 && source_ok(inputs[0]) {
        assert forall|j: int| 0 <= j < k - 1 implies source_ok(inputs.skip(1)[j]) by {
            assert(inputs.skip(1)[j] == inputs[j + 1]);
        }
        if k - 1 < inputs.skip(1).len() {
            assert(inputs.skip(1)[k - 1] == inputs[k]);
        }
        lemma_first_bad_is(inputs.skip(1), k - 1);
    }
}

/// Whether every input can contribute its entries.
pub open spec fn all_sources_ok(inputs: Seq<ArtifactInput>) -> bool {
    forall|j: int| 0 <= j < inputs.len() ==> source_ok(inputs[j])
}

/// Whether entry `j` repeats the name of an earlier entry.
pub open spec fn dup_at(es: Seq<(Seq<char>, Seq<u8>)>, j: int) -> bool {
    exists|i: int| 0 <= i < j && es[i].0 == es[j].0
}

/// Whether all entry names are pairwise distinct.
pub open spec fn names_distinct(es: Seq<(Seq<char>, Seq<u8>)>) -> bool {
    forall|i: int, j: int| 0 <= i < j < es.len() ==> es[i].0 != es[j].0
}

/// Everything `package` promises of its result.
pub open spec fn package_post(
    inputs: Seq<ArtifactInput>,
    r: Result<Vec<ArchiveEntry>, PackagingError>,
) -> bool {
    &&& (r is Ok <==> all_sources_ok(inputs) && names_distinct(flat_entries(inputs)))
    &&& (r matches Ok(es) ==> es.deep_view() == flat_entries(inputs))
    &&& (r matches Err(e) ==> {
        if first_bad(inputs) < inputs.len() {
            source_err_matches(e, inputs[first_bad(inputs)])
        } else {
            exists|j: int|
                0 <= j < flat_entries(inputs).len() && #[trigger] dup_at(flat_entries(inputs), j)
                    && (forall|j2: int| 0 <= j2 < j ==> !dup_at(flat_entries(inputs), j2)) && (
                e matches PackagingError::DuplicateEntry { name } && name@ == flat_entries(
                    inputs,
                )[j].0)
        }
    })
}

/// Copies a byte vector.
pub fn clone_bytes(v: &Vec<u8>) -> (r: Vec<u8>)
    ensures
        r@ == v@,
{
    let mut r: Vec<u8> = Vec::new();
    let mut i: usize = 0;
    while i < v.len()
        invariant
            0 <= i <= v.len(),
            r@ == v@.take(i as int),
        decreases v.len() - i,
    {
        r.push(v[i]);
        assert(r@ =~= v@.take(i as int + 1));
        i = i + 1;
    }
    assert(r@ =~= v@);
    r
}

/// Packages the declared artifacts into the ordered list of archive entries.
///
/// Each regular file contributes one entry named by its base name; each
/// directory contributes one entry per direct child file. The first path that
/// is missing, unreadable or without a base name fails packaging with an
/// error naming that exact path, and no entries are produced. When the
/// sources are all usable, a repeated entry name fails packaging with an
/// error naming the first repeated name.
pub fn package(inputs: &Vec<ArtifactInput>) -> (r: Result<Vec<ArchiveEntry>, PackagingError>)
    ensures
        package_post(inputs@, r),
{
    let mut entries: Vec<ArchiveEntry> = Vec::new();
    let mut idx: usize = 0;
    while idx < inputs.len()
        invariant
            0 <= idx <= inputs.len(),
            forall|j: int| 0 <= j < idx ==> source_ok(inputs@[j]),
            entries.deep_view() == flat_entries(inputs@.take(idx as int)),
        decreases inputs.len() - idx,
    {
        let ghost prefix = inputs@.take(idx as int);
        let inp = &inputs[idx];
        match &inp.source {
            ArtifactSource::Missing => {
                proof {
                    lemma_first_bad_is(inputs@, idx as int);
                }
                return Err(PackagingError::MissingArtifact { path: inp.path.clone() });
            },
            ArtifactSource::Unreadable => {
                proof {
                    lemma_first_bad_is(inputs@, idx as int);
                }
                return Err(PackagingError::ArtifactRead { path: inp.path.clone() });
            },
            ArtifactSource::FileData { data } => {
                match base_name(inp.path.as_str()) {
                    None => {
                        proof {
                            lemma_first_bad_is(inputs@, idx as int);
                        }
                        return Err(
                            PackagingError::InvalidArtifactPath { path: inp.path.clone() },
                        );
                    },
                    Some(nm) => {
                        let e = ArchiveEntry { name: nm, data: clone_bytes(data) };
                        entries.push(e);
                    },
                }
            },
            ArtifactSource::DirEntries { children } => {
                let mut ci: usize = 0;
                assert(entries.deep_view() =~= flat_entries(inputs@.take(idx as int))
                    + children.deep_view().take(0));
                while ci < children.len()
                    invariant
                        0 <= ci <= children.len(),
                        entries.deep_view() == flat_entries(inputs@.take(idx as int))
                            + children.deep_view().take(ci as int),
                        inputs@[idx as int].source == (ArtifactSource::DirEntries {
                            children: *children,
                        }),
                        idx < inputs@.len(),
                    decreases children.len() - ci,
                {
                    let ghost pre = entries.deep_view();
                    let c = ArchiveEntry {
                        name: children[ci].name.clone(),
                        data: clone_bytes(&children[ci].data),
                    };
                    proof {
                        assert(c.deep_view() == children.deep_view()[ci as int]);
                    }
                    entries.push(c);
                    proof {
                        assert(entries.deep_view() =~= pre.push(
                            children.deep_view()[ci as int],
                        ));
                        assert(children.deep_view().take(ci as int + 1) =~= children.deep_view()
                            .take(ci as int).push(children.deep_view()[ci as int]));
                        assert(entries.deep_view() =~= flat_entries(inputs@.take(idx as int))
                            + children.deep_view().take(ci as int + 1));
                    }
                    ci = ci + 1;
                }
            },
        }
        proof {
            lemma_flat_entries_push(prefix, inputs@[idx as int]);
            assert(inputs@.take(idx as int + 1) =~= prefix.push(inputs@[idx as int]));
            assert(entries.deep_view() =~= flat_entries(inputs@.take(idx as int + 1)));
        }
        idx = idx + 1;
    }
    proof {
        assert(inputs@.take(inputs@.len() as int) =~= inputs@);
        lemma_first_bad_is(inputs@, inputs@.len() as int);
    }
    let ghost dv = flat_entries(inputs@);
    let mut j: usize = 1;
    while j < entries.len()
        invariant
            1 <= j <= entries.len() || entries.len() == 0,
            entries.deep_view() == dv,
            dv == flat_entries(inputs@),
            all_sources_ok(inputs@),
            first_bad(inputs@) == inputs@.len(),
            forall|j2: int| 0 <= j2 < j ==> !dup_at(dv, j2),
        decreases entries.len() - j,
    {
        let mut i: usize = 0;
        while i < j
            invariant
                0 <= i <= j < entries.len(),
                entries.deep_view() == dv,
                dv == flat_entries(inputs@),
                all_sources_ok(inputs@),
                first_bad(inputs@) == inputs@.len(),
                forall|j2: int| 0 <= j2 < j ==> !dup_at(dv, j2),
                forall|i2: int| 0 <= i2 < i ==> dv[i2].0 != dv[j as int].0,
            decreases j - i,
        {
            if entries[i].name.eq(&entries[j].name) {
                proof {
                    assert(dv[i as int].0 == dv[j as int].0);
                    assert(dup_at(dv, j as int));
                    assert(!names_distinct(dv));
                    assert(0 <= j < dv.len() && dup_at(dv, j as int) && (forall|j2: int|
                        0 <= j2 < j ==> !dup_at(dv, j2)));
                }
                return Err(PackagingError::DuplicateEntry { name: entries[j].name.clone() });
            }
            i = i + 1;
        }
        assert(!dup_at(dv, j as int));
        j = j + 1;
    }
    assert forall|i2: int, j2: int| 0 <= i2 < j2 < dv.len() implies dv[i2].0 != dv[j2].0 by {
        assert(!dup_at(dv, j2));
    }
    Ok(entries)
}

/// The remote contents produced by extracting `es` in order with overwrite:
/// a later entry of the same name replaces an earlier one.
pub open spec fn extract(es: Seq<(Seq<char>, Seq<u8>)>) -> Map<Seq<char>, Seq<u8>>
    decreases es.len(),
{
    if es.len() == 0 {
        Map::empty()
    } else {
        extract(es.drop_last()).insert(es.last().0, es.last().1)
    }
}

/// Round-trip law: when no two entries share a name, extraction reproduces
/// every entry's bytes, byte for byte, under that entry's name.
pub proof fn lemma_extract_round_trip(es: Seq<(Seq<char>, Seq<u8>)>)
    requires
        names_distinct(es),
    ensures
        forall|k: int|
            0 <= k < es.len() ==> extract(es).contains_key(#[trigger] es[k].0) && extract(
                es,
            )[es[k].0] == es[k].1,
    decreases es.len(),
{
    if es.len() > 0 {
        let prev = es.drop_last();
        assert(names_distinct(prev)) by {
            assert(forall|i: int|
                0 <= i < prev.len() ==> prev[i] == es[i]);
        }
        lemma_extract_round_trip(prev);
        assert forall|k: int|
            0 <= k < es.len() implies extract(es).contains_key(#[trigger] es[k].0) && extract(
            es,
        )[es[k].0] == es[k].1 by {
            if k < es.len() - 1 {
                assert(prev[k] == es[k]);
                assert(es[k].0 != es[es.len() - 1].0);
            }
        }
    }
}

/// Round-trip law at the packaging boundary: whenever packaging succeeds, its
/// entry names are distinct, and extracting what it produced reproduces every
/// artifact's bytes under that entry's base name.
pub proof fn lemma_package_round_trip(
    inputs: Seq<ArtifactInput>,
    r: Result<Vec<ArchiveEntry>, PackagingError>,
)
    requires
        package_post(inputs, r),
        r is Ok,
    ensures
        ({
            let es = flat_entries(inputs);
            forall|k: int|
                0 <= k < es.len() ==> extract(es).contains_key(#[trigger] es[k].0) && extract(
                    es,
                )[es[k].0] == es[k].1
        }),
{
    lemma_extract_round_trip(flat_entries(inputs));
}

/// Non-recursive law: a directory artifact contributes exactly its direct
/// child files, in order, and nothing else.
pub proof fn lemma_dir_packaging(inp: ArtifactInput)
    requires
        inp.source matches ArtifactSource::DirEntries { .. },
    ensures
        flat_entries(seq![inp]) == dir_children(inp.source),
{
    assert(flat_entries(Seq::<ArtifactInput>::empty()) == Seq::<(Seq<char>, Seq<u8>)>::empty());
    assert(seq![inp][0] == inp);
    assert(seq![inp].skip(1) =~= Seq::<ArtifactInput>::empty());
    assert(flat_entries(seq![inp]) =~= dir_children(inp.source));
}

/// Missing-artifact law: when a declared path does not exist and every
/// earlier artifact is usable, packaging returns the missing-artifact error
/// naming exactly that path, and no entries.
pub proof fn lemma_missing_artifact(
    inputs: Seq<ArtifactInput>,
    i: int,
    r: Result<Vec<ArchiveEntry>, PackagingError>,
)
    requires
        package_post(inputs, r),
        0 <= i < inputs.len(),
        inputs[i].source is Missing,
        forall|j: int| 0 <= j < i ==> source_ok(inputs[j]),
    ensures
        r matches Err(e) && e matches PackagingError::MissingArtifact { path } && path@
            == inputs[i].path@,
{
    lemma_first_bad_is(inputs, i);
    assert(!source_ok(inputs[i]));
    assert(!all_sources_ok(inputs));
}

} // verus!
