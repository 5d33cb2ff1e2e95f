//! Saving the whole settings tree to a file, and loading it back.
use vstd::prelude::*;
use crate::machine::{
    Action,
    ActionView,
    Event,
    EventView,
    Note,
    Step,
    StepView,
    failure_note,
    failure_notes,
    no_notes,
    step_view,
};
use crate::paths::{opt_view, parent_dir, parent_fits, parent_of};

verus! {

/// Where a snapshot stands.
#[derive(Clone, Copy, Debug, PartialEq, Eq, Structural)]
pub enum SnapshotPhase {
    Start,
    Dumping,
    CheckingPath,
    CheckingParent,
    CreatingDir,
    Touching,
    Writing,
    Finished,
}

/// The snapshot procedure: dump the tree, make sure the file can be written
/// (creating its directory and an empty file where they are missing), then
/// overwrite the file with the dump.
pub struct Snapshot {
    pub path: String,
    pub parent: Option<String>,
    pub silent: bool,
    pub phase: SnapshotPhase,
    pub dump: String,
    pub dump_ok: bool,
}

pub ghost struct SnapshotView {
    pub path: Seq<char>,
    pub parent: Option<Seq<char>>,
    pub silent: bool,
    pub phase: SnapshotPhase,
    pub dump: Seq<char>,
    pub dump_ok: bool,
}

impl View for Snapshot {
    type V = SnapshotView;

    open spec fn view(&self) -> SnapshotView {
        SnapshotView {
            path: self.path@,
            parent: opt_view(self.parent),
            silent: self.silent,
            phase: self.phase,
            dump: self.dump@,
            dump_ok: self.dump_ok,
        }
    }
}

/// A snapshot of the tree into `path`, whose directory is `parent`, that has
/// not started yet.
pub open spec fn snapshot_start(path: Seq<char>, parent: Option<Seq<char>>, silent: bool) -> SnapshotView {
    SnapshotView {
        path,
        parent,
        silent,
        phase: SnapshotPhase::Start,
        dump: Seq::empty(),
        dump_ok: false,
    }
}

/// A snapshot of the tree into `path` that has not started yet.
pub open spec fn snapshot_init(path: Seq<char>, silent: bool) -> SnapshotView {
    snapshot_start(path, parent_of(path), silent)
}

pub open spec fn in_phase(m: SnapshotView, phase: SnapshotPhase) -> SnapshotView {
    SnapshotView { phase, ..m }
}

/// The write of the dump, after the notes gathered so far and, for a user who
/// listens, a note on how the dump went.
pub open spec fn write_stage(m: SnapshotView, notes: Seq<Note>) -> (SnapshotView, StepView) {
    let shown = if m.silent {
        notes
    } else if m.dump_ok {
        notes.push(Note::Saving)
    } else {
        notes.push(Note::DumpFailed)
    };
    (
        in_phase(m, SnapshotPhase::Writing),
        step_view(shown, ActionView::Write { path: m.path, contents: m.dump }),
    )
}

pub open spec fn snapshot_stop(m: SnapshotView) -> (SnapshotView, StepView) {
    (in_phase(m, SnapshotPhase::Finished), step_view(Seq::empty(), ActionView::Finish))
}

/// One move of the snapshot procedure. An event that does not answer the
/// last action ends it.
pub open spec fn snapshot_next(m: SnapshotView, e: EventView) -> (SnapshotView, StepView) {
    match m.phase {
        SnapshotPhase::Start => match e {
            EventView::Begin => (
                in_phase(m, SnapshotPhase::Dumping),
                step_view(Seq::empty(), ActionView::Dump),
            ),
            _ => snapshot_stop(m),
        },
        SnapshotPhase::Dumping => match e {
            EventView::Ran { success, output } => (
                SnapshotView { phase: SnapshotPhase::CheckingPath, dump: output, dump_ok: success, ..m },
                step_view(Seq::empty(), ActionView::CheckPath(m.path)),
            ),
            _ => snapshot_stop(m),
        },
        SnapshotPhase::CheckingPath => match e {
            EventView::Exists(true) => write_stage(m, Seq::empty()),
            EventView::Exists(false) => match m.parent {
                Some(d) => (
                    in_phase(m, SnapshotPhase::CheckingParent),
                    step_view(Seq::empty(), ActionView::CheckPath(d)),
                ),
                None => (
                    in_phase(m, SnapshotPhase::Touching),
                    step_view(Seq::empty(), ActionView::Touch(m.path)),
                ),
            },
            _ => snapshot_stop(m),
        },
        SnapshotPhase::CheckingParent => match e {
            EventView::Exists(found) => match m.parent {
                Some(d) if !found => (
                    in_phase(m, SnapshotPhase::CreatingDir),
                    step_view(Seq::empty(), ActionView::CreateDirAll(d)),
                ),
                _ => (
                    in_phase(m, SnapshotPhase::Touching),
                    step_view(Seq::empty(), ActionView::Touch(m.path)),
                ),
            },
            _ => snapshot_stop(m),
        },
        SnapshotPhase::CreatingDir => match e {
            EventView::Done(ok) => (
                in_phase(m, SnapshotPhase::Touching),
                step_view(failure_notes(m.silent, ok, Note::DirFailed), ActionView::Touch(m.path)),
            ),
            _ => snapshot_stop(m),
        },
        SnapshotPhase::Touching => match e {
            EventView::Done(ok) => write_stage(m, failure_notes(m.silent, ok, Note::TouchFailed)),
            _ => snapshot_stop(m),
        },
        SnapshotPhase::Writing => match e {
            EventView::Done(true) => (
                in_phase(m, SnapshotPhase::Finished),
                step_view(if m.silent { Seq::empty() } else { seq![Note::Saved] }, ActionView::Finish),
            ),
            EventView::Done(false) => (
                in_phase(m, SnapshotPhase::Finished),
                step_view(Seq::empty(), ActionView::Abort(m.path)),
            ),
            _ => snapshot_stop(m),
        },
        SnapshotPhase::Finished => snapshot_stop(m),
    }
}

fn clone_opt(o: &Option<String>) -> (r: Option<String>)
    ensures
        opt_view(r) == opt_view(*o),
{
    match o {
        Some(s) => Some(s.clone()),
        None => None,
    }
}

impl Snapshot {
    /// A snapshot of the settings tree into `path`; `silent` keeps every note
    /// back without changing any action.
    pub fn new(path: &str, silent: bool) -> (r: Snapshot)
        ensures
            r@ == snapshot_init(path@, silent),
            parent_fits(path@, r@.parent),
    {
        Snapshot {
            path: String::from_str(path),
            parent: parent_dir(path),
            silent,
            phase: SnapshotPhase::Start,
            dump: String::new(),
            dump_ok: false,
        }
    }

    fn enter_write(&mut self, notes: Vec<Note>) -> (r: Step)
        ensures
            (final(self)@, r@) == write_stage(old(self)@, notes@),
    {
        let mut notes = notes;
        if !self.silent {
            if self.dump_ok {
                notes.push(Note::Saving);
            } else {
                notes.push(Note::DumpFailed);
            }
        }
        self.phase = SnapshotPhase::Writing;
        Step { notes, action: Action::Write { path: self.path.clone(), contents: self.dump.clone() } }
    }

    fn stop(&mut self) -> (r: Step)
        ensures
            (final(self)@, r@) == snapshot_stop(old(self)@),
    {
        self.phase = SnapshotPhase::Finished;
        Step { notes: no_notes(), action: Action::Finish }
    }

    /// Takes the outcome of the last action and says what to do next.
    pub fn step(&mut self, event: Event) -> (r: Step)
        ensures
            (final(self)@, r@) == snapshot_next(old(self)@, event@),
    {
        match self.phase {
            SnapshotPhase::Start => match event {
                Event::Begin => {
                    self.phase = SnapshotPhase::Dumping;
                    Step { notes: no_notes(), action: Action::Dump }
                },
                _ => self.stop(),
            },
            SnapshotPhase::Dumping => match event {
                Event::Ran { success, output } => {
                    self.phase = SnapshotPhase::CheckingPath;
                    self.dump = output;
                    self.dump_ok = success;
                    Step { notes: no_notes(), action: Action::CheckPath(self.path.clone()) }
                },
                _ => self.stop(),
            },
            SnapshotPhase::CheckingPath => match event {
                Event::Exists(true) => self.enter_write(no_notes()),
                Event::Exists(false) => match &self.parent {
                    Some(d) => {
                        let d = d.clone();
                        self.phase = SnapshotPhase::CheckingParent;
                        Step { notes: no_notes(), action: Action::CheckPath(d) }
                    },
                    None => {
                        self.phase = SnapshotPhase::Touching;
                        Step { notes: no_notes(), action: Action::Touch(self.path.clone()) }
                    },
                },
                _ => self.stop(),
            },
            SnapshotPhase::CheckingParent => match event {
                Event::Exists(found) => {
                    let parent = clone_opt(&self.parent);
                    match parent {
                        Some(d) if !found => {
                            self.phase = SnapshotPhase::CreatingDir;
                            Step { notes: no_notes(), action: Action::CreateDirAll(d) }
                        },
                        _ => {
                            self.phase = SnapshotPhase::Touching;
                            Step { notes: no_notes(), action: Action::Touch(self.path.clone()) }
                        },
                    }
                },
                _ => self.stop(),
            },
            SnapshotPhase::CreatingDir => match event {
                Event::Done(ok) => {
                    self.phase = SnapshotPhase::Touching;
                    Step {
                        notes: failure_note(self.silent, ok, Note::DirFailed),
                        action: Action::Touch(self.path.clone()),
                    }
                },
                _ => self.stop(),
            },
            SnapshotPhase::Touching => match event {
                Event::Done(ok) => {
                    let notes = failure_note(self.silent, ok, Note::TouchFailed);
                    self.enter_write(notes)
                },
                _ => self.stop(),
            },
            SnapshotPhase::Writing => match event {
                Event::Done(true) => {
                    self.phase = SnapshotPhase::Finished;
                    let mut notes = no_notes();
                    if !self.silent {
                        notes.push(Note::Saved);
                    }
                    assert(notes@ =~= (if self.silent { Seq::empty() } else { seq![Note::Saved] }));
                    Step { notes, action: Action::Finish }
                },
                Event::Done(false) => {
                    self.phase = SnapshotPhase::Finished;
                    Step { notes: no_notes(), action: Action::Abort(self.path.clone()) }
                },
                _ => self.stop(),
            },
            SnapshotPhase::Finished => self.stop(),
        }
    }
}

/// Where a restore stands.
#[derive(Clone, Copy, Debug, PartialEq, Eq, Structural)]
pub enum RestorePhase {
    Start,
    Checking,
    Loading,
    Finished,
}

/// The restore procedure: if the snapshot file exists, load the settings
/// tree from it; if not, tell the user that there is nothing to restore.
pub struct Restore {
    pub path: String,
    pub phase: RestorePhase,
}

pub ghost struct RestoreView {
    pub path: Seq<char>,
    pub phase: RestorePhase,
}

impl View for Restore {
    type V = RestoreView;

    open spec fn view(&self) -> RestoreView {
        RestoreView { path: self.path@, phase: self.phase }
    }
}

/// A restore from `path` that has not started yet.
pub open spec fn restore_init(path: Seq<char>) -> RestoreView {
    RestoreView { path, phase: RestorePhase::Start }
}

pub open spec fn restore_stop(m: RestoreView) -> (RestoreView, StepView) {
    (RestoreView { phase: RestorePhase::Finished, ..m }, step_view(Seq::empty(), ActionView::Finish))
}

/// One move of the restore procedure. An event that does not answer the last
/// action ends it.
pub open spec fn restore_next(m: RestoreView, e: EventView) -> (RestoreView, StepView) {
    match m.phase {
        RestorePhase::Start => match e {
            EventView::Begin => (
                RestoreView { phase: RestorePhase::Checking, ..m },
                step_view(Seq::empty(), ActionView::CheckPath(m.path)),
            ),
            _ => restore_stop(m),
        },
        RestorePhase::Checking => match e {
            EventView::Exists(true) => (
                RestoreView { phase: RestorePhase::Loading, ..m },
                step_view(seq![Note::Loading], ActionView::Load(m.path)),
            ),
            EventView::Exists(false) => (
                RestoreView { phase: RestorePhase::Finished, ..m },
                step_view(seq![Note::NotFound], ActionView::Finish),
            ),
            _ => restore_stop(m),
        },
        RestorePhase::Loading => match e {
            EventView::Ran { success, output: _ } => (
                RestoreView { phase: RestorePhase::Finished, ..m },
                step_view(seq![if success { Note::Loaded } else { Note::LoadFailed }], ActionView::Finish),
            ),
            _ => restore_stop(m),
        },
        RestorePhase::Finished => restore_stop(m),
    }
}

impl Restore {
    /// A restore of the settings tree from `path`.
    pub fn new(path: &str) -> (r: Restore)
        ensures
            r@ == restore_init(path@),
    {
        Restore { path: String::from_str(path), phase: RestorePhase::Start }
    }

    fn stop(&mut self) -> (r: Step)
        ensures
            (final(self)@, r@) == restore_stop(old(self)@),
    {
        self.phase = RestorePhase::Finished;
        Step { notes: no_notes(), action: Action::Finish }
    }

    /// Takes the outcome of the last action and says what to do next.
    pub fn step(&mut self, event: Event) -> (r: Step)
        ensures
            (final(self)@, r@) == restore_next(old(self)@, event@),
    {
        match self.phase {
            RestorePhase::Start => match event {
                Event::Begin => {
                    self.phase = RestorePhase::Checking;
                    Step { notes: no_notes(), action: Action::CheckPath(self.path.clone()) }
                },
                _ => self.stop(),
            },
            RestorePhase::Checking => match event {
                Event::Exists(found) => {
                    let mut notes = no_notes();
                    if found {
                        self.phase = RestorePhase::Loading;
                        notes.push(Note::Loading);
                        assert(notes@ =~= seq![Note::Loading]);
                        Step { notes, action: Action::Load(self.path.clone()) }
                    } else {
                        self.phase = RestorePhase::Finished;
                        notes.push(Note::NotFound);
                        assert(notes@ =~= seq![Note::NotFound]);
                        Step { notes, action: Action::Finish }
                    }
                },
                _ => self.stop(),
            },
            RestorePhase::Loading => match event {
                Event::Ran { success, output: _ } => {
                    self.phase = RestorePhase::Finished;
                    let mut notes = no_notes();
                    notes.push(if success { Note::Loaded } else { Note::LoadFailed });
                    assert(notes@ =~= seq![if success { Note::Loaded } else { Note::LoadFailed }]);
                    Step { notes, action: Action::Finish }
                },
                _ => self.stop(),
            },
            RestorePhase::Finished => self.stop(),
        }
    }
}

} // verus!
