//! Model of the remote host's state over one deploy run, and the idempotence
//! of re-running it.
//!
//! The remote tree is modelled as a map from full paths to file bytes, plus
//! the set of paths carrying execute permission. Uploading inserts a file,
//! extraction places the archive's entries under the destination directory
//! with overwrite, the permission change inserts into the set, and every
//! other step — directory creation is create-if-absent — leaves the state
//! unchanged.

use vstd::prelude::*;
use crate::plan::DeployStepSpec;
use crate::text::join_of;

verus! {

/// Places extracted entries under `dest`, in order, overwriting entries of
/// the same name.
pub open spec fn place_entries(
    files: Map<Seq<char>, Seq<u8>>,
    dest: Seq<char>,
    es: Seq<(Seq<char>, Seq<u8>)>,
) -> Map<Seq<char>, Seq<u8>>
    decreases es.len(),
{
    if es.len() == 0 {
        files
    } else {
        place_entries(files, dest, es.drop_last()).insert(
            join_of(dest, es.last().0),
            es.last().1,
        )
    }
}

/// The remote files after one step; `es` are the entries of the uploaded
/// archive, which extraction places.
pub open spec fn step_files(
    files: Map<Seq<char>, Seq<u8>>,
    s: DeployStepSpec,
    es: Seq<(Seq<char>, Seq<u8>)>,
) -> Map<Seq<char>, Seq<u8>> {
    match s {
        DeployStepSpec::UploadFile { remote_path, bytes } => files.insert(remote_path, bytes),
        DeployStepSpec::ExtractArchive { archive_path, dest_dir } => place_entries(
            files,
            dest_dir,
            es,
        ),
        _ => files,
    }
}

/// The remote files after running the steps in order.
pub open spec fn run_files(
    files: Map<Seq<char>, Seq<u8>>,
    steps: Seq<DeployStepSpec>,
    es: Seq<(Seq<char>, Seq<u8>)>,
) -> Map<Seq<char>, Seq<u8>>
    decreases steps.len(),
{
    if steps.len() == 0 {
        files
    } else {
        step_files(run_files(files, steps.drop_last(), es), steps.last(), es)
    }
}

/// The paths carrying execute permission after one step.
pub open spec fn step_execs(execs: Set<Seq<char>>, s: DeployStepSpec) -> Set<Seq<char>> {
    match s {
        DeployStepSpec::SetExecutable { remote_path } => execs.insert(remote_path),
        _ => execs,
    }
}

/// The paths carrying execute permission after running the steps in order.
pub open spec fn run_execs(execs: Set<Seq<char>>, steps: Seq<DeployStepSpec>) -> Set<Seq<char>>
    decreases steps.len(),
{
    if steps.len() == 0 {
        execs
    } else {
        step_execs(run_execs(execs, steps.drop_last()), steps.last())
    }
}

proof fn lemma_place_entries_union(
    m: Map<Seq<char>, Seq<u8>>,
    dest: Seq<char>,
    es: Seq<(Seq<char>, Seq<u8>)>,
)
    ensures
        place_entries(m, dest, es) == m.union_prefer_right(
            place_entries(Map::empty(), dest, es),
        ),
    decreases es.len(),
{
    if es.len() == 0 {
        assert(place_entries(m, dest, es) =~= m.union_prefer_right(
            place_entries(Map::empty(), dest, es),
        ));
    } else {
        lemma_place_entries_union(m, dest, es.drop_last());
        assert(place_entries(m, dest, es) =~= m.union_prefer_right(
            place_entries(Map::empty(), dest, es),
        ));
    }
}

proof fn lemma_step_files_union(
    m: Map<Seq<char>, Seq<u8>>,
    w: Map<Seq<char>, Seq<u8>>,
    s: DeployStepSpec,
    es: Seq<(Seq<char>, Seq<u8>)>,
)
    ensures
        step_files(m.union_prefer_right(w), s, es) == m.union_prefer_right(
            step_files(w, s, es),
        ),
{
    match s {
        DeployStepSpec::ExtractArchive { archive_path, dest_dir } => {
            lemma_place_entries_union(m.union_prefer_right(w), dest_dir, es);
            lemma_place_entries_union(w, dest_dir, es);
            assert(step_files(m.union_prefer_right(w), s, es) =~= m.union_prefer_right(
                step_files(w, s, es),
            ));
        },
        _ => {
            assert(step_files(m.union_prefer_right(w), s, es) =~= m.union_prefer_right(
                step_files(w, s, es),
            ));
        },
    }
}

/// A run's effect on the files splits into what was there and what the run
/// writes, with the run's writes preferred.
pub proof fn lemma_run_files_union(
    m: Map<Seq<char>, Seq<u8>>,
    steps: Seq<DeployStepSpec>,
    es: Seq<(Seq<char>, Seq<u8>)>,
)
    ensures
        run_files(m, steps, es) == m.union_prefer_right(run_files(Map::empty(), steps, es)),
    decreases steps.len(),
{
    if steps.len() == 0 {
        assert(run_files(m, steps, es) =~= m.union_prefer_right(
            run_files(Map::empty(), steps, es),
        ));
    } else {
        lemma_run_files_union(m, steps.drop_last(), es);
        lemma_step_files_union(m, run_files(Map::empty(), steps.drop_last(), es), steps.last(), es);
    }
}

proof fn lemma_step_execs_union(e: Set<Seq<char>>, w: Set<Seq<char>>, s: DeployStepSpec)
    ensures
        step_execs(e.union(w), s) == e.union(step_execs(w, s)),
{
    assert(step_execs(e.union(w), s) =~= e.union(step_execs(w, s)));
}

/// A run's effect on the permissions splits the same way.
pub proof fn lemma_run_execs_union(e: Set<Seq<char>>, steps: Seq<DeployStepSpec>)
    ensures
        run_execs(e, steps) == e.union(run_execs(Set::empty(), steps)),
    decreases steps.len(),
{
    if steps.len() == 0 {
        assert(run_execs(e, steps) =~= e.union(run_execs(Set::empty(), steps)));
    } else {
        lemma_run_execs_union(e, steps.drop_last());
        lemma_step_execs_union(e, run_execs(Set::empty(), steps.drop_last()), steps.last());
    }
}

/// Idempotence law: running the same step list a second time, over the same
/// archive entries, leaves the remote files and permissions exactly as the
/// first run left them — extraction overwrites, directory creation is
/// create-if-absent, and each upload and permission change writes the same
/// values again.
pub proof fn lemma_run_idempotent(
    files: Map<Seq<char>, Seq<u8>>,
    execs: Set<Seq<char>>,
    steps: Seq<DeployStepSpec>,
    es: Seq<(Seq<char>, Seq<u8>)>,
)
    ensures
        run_files(run_files(files, steps, es), steps, es) == run_files(files, steps, es),
        run_execs(run_execs(execs, steps), steps) == run_execs(execs, steps),
{
    let w = run_files(Map::empty(), steps, es);
    lemma_run_files_union(files, steps, es);
    lemma_run_files_union(files.union_prefer_right(w), steps, es);
    assert(files.union_prefer_right(w).union_prefer_right(w) =~= files.union_prefer_right(w));
    let we = run_execs(Set::empty(), steps);
    lemma_run_execs_union(execs, steps);
    lemma_run_execs_union(execs.union(we), steps);
    assert(execs.union(we).union(we) =~= execs.union(we));
}

} // verus!
