//! A model of the machine that the snapshot and restore procedures drive, and
//! what they achieve on it.
//!
//! The model holds the settings tree, the directories and the files. The tree
//! tool's two directions are parameters: `dump` prints a tree, `load` builds a
//! tree from text. The procedures are run against the model by feeding each
//! action's modelled outcome back as the next event.
use vstd::prelude::*;
use crate::machine::{ActionView, EventView};
use crate::paths::parent_fits;
use crate::snapshot::{RestoreView, SnapshotView, restore_init, restore_next, snapshot_next, snapshot_start};

verus! {

/// The settings tree, the directories that exist, and the files that exist
/// with their contents.
pub ghost struct Env<T> {
    pub tree: T,
    pub dirs: Set<Seq<char>>,
    pub files: Map<Seq<char>, Seq<char>>,
}

pub open spec fn exists_at<T>(env: Env<T>, p: Seq<char>) -> bool {
    env.dirs.contains(p) || env.files.contains_key(p)
}

/// A missing file at `p` can be created: its directory exists, and `p` is no
/// directory. An existing file can always be overwritten.
pub open spec fn can_create<T>(env: Env<T>, p: Seq<char>, parent: Option<Seq<char>>) -> bool {
    !env.dirs.contains(p) && match parent {
        Some(d) => env.dirs.contains(d),
        None => true,
    }
}

/// How the modelled machine answers an action of a procedure on `path`,
/// whose directory is `parent`.
pub open spec fn respond<T>(
    env: Env<T>,
    parent: Option<Seq<char>>,
    a: ActionView,
    dump: spec_fn(T) -> Seq<char>,
    load: spec_fn(Seq<char>) -> T,
) -> (Env<T>, EventView) {
    match a {
        ActionView::Dump => (env, EventView::Ran { success: true, output: dump(env.tree) }),
        ActionView::Load(p) => if env.files.contains_key(p) {
            (Env { tree: load(env.files[p]), ..env }, EventView::Ran { success: true, output: Seq::empty() })
        } else {
            (env, EventView::Ran { success: false, output: Seq::empty() })
        },
        ActionView::CheckPath(p) => (env, EventView::Exists(exists_at(env, p))),
        ActionView::CreateDirAll(p) => (Env { dirs: env.dirs.insert(p), ..env }, EventView::Done(true)),
        ActionView::Touch(p) => if env.files.contains_key(p) {
            (env, EventView::Done(true))
        } else if can_create(env, p, parent) {
            (Env { files: env.files.insert(p, Seq::empty()), ..env }, EventView::Done(true))
        } else {
            (env, EventView::Done(false))
        },
        ActionView::Write { path, contents } => if env.files.contains_key(path) || can_create(env, path, parent) {
            (Env { files: env.files.insert(path, contents), ..env }, EventView::Done(true))
        } else {
            (env, EventView::Done(false))
        },
        _ => (env, EventView::Begin),
    }
}

pub open spec fn ends(a: ActionView) -> bool {
    a is Finish || a is Abort
}

/// Runs a snapshot against the model for at most `fuel` actions: the final
/// model and every action asked for.
pub open spec fn run_snapshot<T>(
    m: SnapshotView,
    env: Env<T>,
    e: EventView,
    fuel: nat,
    dump: spec_fn(T) -> Seq<char>,
    load: spec_fn(Seq<char>) -> T,
) -> (Env<T>, Seq<ActionView>)
    decreases fuel,
{
    let (m2, s) = snapshot_next(m, e);
    if fuel == 0 || ends(s.action) {
        (env, seq![s.action])
    } else {
        let (env2, e2) = respond(env, m.parent, s.action, dump, load);
        let (env3, rest) = run_snapshot(m2, env2, e2, (fuel - 1) as nat, dump, load);
        (env3, seq![s.action] + rest)
    }
}

/// Runs a restore against the model for at most `fuel` actions: the final
/// model and every action asked for.
pub open spec fn run_restore<T>(
    m: RestoreView,
    env: Env<T>,
    e: EventView,
    fuel: nat,
    dump: spec_fn(T) -> Seq<char>,
    load: spec_fn(Seq<char>) -> T,
) -> (Env<T>, Seq<ActionView>)
    decreases fuel,
{
    let (m2, s) = restore_next(m, e);
    if fuel == 0 || ends(s.action) {
        (env, seq![s.action])
    } else {
        let (env2, e2) = respond(env, None, s.action, dump, load);
        let (env3, rest) = run_restore(m2, env2, e2, (fuel - 1) as nat, dump, load);
        (env3, seq![s.action] + rest)
    }
}

/// A snapshot into `path` run to its end.
pub open spec fn snapshot_run<T>(
    path: Seq<char>,
    parent: Option<Seq<char>>,
    silent: bool,
    env: Env<T>,
    dump: spec_fn(T) -> Seq<char>,
    load: spec_fn(Seq<char>) -> T,
) -> (Env<T>, Seq<ActionView>) {
    run_snapshot(snapshot_start(path, parent, silent), env, EventView::Begin, 8, dump, load)
}

/// A restore from `path` run to its end.
pub open spec fn restore_run<T>(
    path: Seq<char>,
    env: Env<T>,
    dump: spec_fn(T) -> Seq<char>,
    load: spec_fn(Seq<char>) -> T,
) -> (Env<T>, Seq<ActionView>) {
    run_restore(restore_init(path), env, EventView::Begin, 4, dump, load)
}

/// The directory of the snapshot file is no plain file.
pub open spec fn parent_not_file<T>(env: Env<T>, parent: Option<Seq<char>>) -> bool {
    match parent {
        Some(d) => !env.files.contains_key(d),
        None => true,
    }
}

/// A restore from a path where nothing exists runs no command and changes
/// nothing: it checks the path and finishes.
pub proof fn lemma_restore_missing_is_noop<T>(
    path: Seq<char>,
    env: Env<T>,
    dump: spec_fn(T) -> Seq<char>,
    load: spec_fn(Seq<char>) -> T,
)
    requires
        !exists_at(env, path),
    ensures
        restore_run(path, env, dump, load) == (env, seq![ActionView::CheckPath(path), ActionView::Finish]),
{
    reveal_with_fuel(run_restore, 3);
    assert(seq![ActionView::CheckPath(path)] + seq![ActionView::Finish] =~= seq![
        ActionView::CheckPath(path),
        ActionView::Finish,
    ]);
}

/// A snapshot into a file followed by a restore from it, with nothing changed
/// in between, leaves the settings tree as it was before the snapshot,
/// provided that loading the dump of a tree gives that tree back; a second
/// restore changes nothing more. The snapshot itself finishes, changes no
/// setting and leaves the dump in the file.
pub proof fn lemma_snapshot_restore_round_trip<T>(
    path: Seq<char>,
    parent: Option<Seq<char>>,
    silent: bool,
    env: Env<T>,
    dump: spec_fn(T) -> Seq<char>,
    load: spec_fn(Seq<char>) -> T,
)
    requires
        forall|t: T| #[trigger] load(dump(t)) == t,
        parent_fits(path, parent),
        !env.dirs.contains(path),
        parent_not_file(env, parent),
    ensures
        ({
            let (env1, acts1) = snapshot_run(path, parent, silent, env, dump, load);
            let (env2, acts2) = restore_run(path, env1, dump, load);
            let (env3, acts3) = restore_run(path, env2, dump, load);
            &&& acts1.last() == ActionView::Finish
            &&& env1.tree == env.tree
            &&& env1.files.contains_key(path)
            &&& env1.files[path] == dump(env.tree)
            &&& acts2.last() == ActionView::Finish
            &&& env2.tree == env.tree
            &&& acts3.last() == ActionView::Finish
            &&& env3.tree == env.tree
        }),
{
    reveal_with_fuel(run_snapshot, 9);
    reveal_with_fuel(run_restore, 4);
    let (env1, acts1) = snapshot_run(path, parent, silent, env, dump, load);
    assert(env1.files[path] == dump(env.tree));
    let (env2, acts2) = restore_run(path, env1, dump, load);
    assert(env2.tree == load(dump(env.tree)));
}

/// A snapshot into a path whose directory does not exist creates the
/// directory and the file and finishes with the dump in the file; a second
/// snapshot into the same path creates no directory and overwrites the file.
pub proof fn lemma_snapshot_bootstrap<T>(
    path: Seq<char>,
    dir: Seq<char>,
    silent: bool,
    env: Env<T>,
    dump: spec_fn(T) -> Seq<char>,
    load: spec_fn(Seq<char>) -> T,
)
    requires
        parent_fits(path, Some(dir)),
        !exists_at(env, dir),
        !exists_at(env, path),
    ensures
        ({
            let (env1, acts1) = snapshot_run(path, Some(dir), silent, env, dump, load);
            let (env2, acts2) = snapshot_run(path, Some(dir), silent, env1, dump, load);
            &&& acts1.contains(ActionView::CreateDirAll(dir))
            &&& acts1.last() == ActionView::Finish
            &&& env1.dirs.contains(dir)
            &&& env1.files.contains_key(path)
            &&& env1.files[path] == dump(env.tree)
            &&& forall|i: int| 0 <= i < acts2.len() ==> !(#[trigger] acts2[i] is CreateDirAll)
            &&& acts2.last() == ActionView::Finish
            &&& env2.files.contains_key(path)
            &&& env2.files[path] == dump(env1.tree)
        }),
{
    reveal_with_fuel(run_snapshot, 9);
    let (env1, acts1) = snapshot_run(path, Some(dir), silent, env, dump, load);
    assert(acts1[3] == ActionView::CreateDirAll(dir));
}

} // verus!
