//! The vocabulary shared by the snapshot and restore procedures: what the
//! caller reports back (events), what it is asked to do (actions) and what it
//! may tell the user (notes).
use vstd::prelude::*;

verus! {

/// What the caller hands to a procedure.
pub enum Event {
    /// The procedure starts.
    Begin,
    /// An external command exited, with its status and its standard output.
    Ran { success: bool, output: String },
    /// The answer to `Action::CheckPath`.
    Exists(bool),
    /// A filesystem action finished; `true` when it succeeded.
    Done(bool),
}

pub ghost enum EventView {
    Begin,
    Ran { success: bool, output: Seq<char> },
    Exists(bool),
    Done(bool),
}

impl View for Event {
    type V = EventView;

    open spec fn view(&self) -> EventView {
        match self {
            Event::Begin => EventView::Begin,
            Event::Ran { success, output } => EventView::Ran { success: *success, output: output@ },
            Event::Exists(b) => EventView::Exists(*b),
            Event::Done(b) => EventView::Done(*b),
        }
    }
}

/// What a procedure asks the caller to do next.
pub enum Action {
    /// Run `dconf dump /` and report its status and output.
    Dump,
    /// Load the settings tree from this file and report the status.
    Load(String),
    /// Report whether something exists at this path.
    CheckPath(String),
    /// Create this directory and its missing ancestors.
    CreateDirAll(String),
    /// Create this file, empty, if it is missing.
    Touch(String),
    /// Create or truncate the file and write the contents into it.
    Write { path: String, contents: String },
    /// Stop the process: the snapshot at this path could not be written.
    Abort(String),
    /// The procedure is over.
    Finish,
}

pub ghost enum ActionView {
    Dump,
    Load(Seq<char>),
    CheckPath(Seq<char>),
    CreateDirAll(Seq<char>),
    Touch(Seq<char>),
    Write { path: Seq<char>, contents: Seq<char> },
    Abort(Seq<char>),
    Finish,
}

impl View for Action {
    type V = ActionView;

    open spec fn view(&self) -> ActionView {
        match self {
            Action::Dump => ActionView::Dump,
            Action::Load(p) => ActionView::Load(p@),
            Action::CheckPath(p) => ActionView::CheckPath(p@),
            Action::CreateDirAll(p) => ActionView::CreateDirAll(p@),
            Action::Touch(p) => ActionView::Touch(p@),
            Action::Write { path, contents } => ActionView::Write { path: path@, contents: contents@ },
            Action::Abort(p) => ActionView::Abort(p@),
            Action::Finish => ActionView::Finish,
        }
    }
}

/// Something worth telling the user.
#[derive(Clone, Copy, Debug, PartialEq, Eq, Structural)]
pub enum Note {
    /// The snapshot is being written.
    Saving,
    /// The snapshot was written.
    Saved,
    /// The dump command failed.
    DumpFailed,
    /// The snapshot's directory could not be created.
    DirFailed,
    /// The empty snapshot file could not be created.
    TouchFailed,
    /// The snapshot file does not exist: nothing to restore.
    NotFound,
    /// The previous settings are being loaded.
    Loading,
    /// The previous settings were loaded.
    Loaded,
    /// The load command failed.
    LoadFailed,
}

/// One move of a procedure: notes to show, then the action to perform.
pub struct Step {
    pub notes: Vec<Note>,
    pub action: Action,
}

pub ghost struct StepView {
    pub notes: Seq<Note>,
    pub action: ActionView,
}

impl View for Step {
    type V = StepView;

    open spec fn view(&self) -> StepView {
        StepView { notes: self.notes@, action: self.action@ }
    }
}

pub open spec fn step_view(notes: Seq<Note>, action: ActionView) -> StepView {
    StepView { notes, action }
}

/// No note, or the one note when an action failed and the user is listening.
pub open spec fn failure_notes(silent: bool, ok: bool, note: Note) -> Seq<Note> {
    if silent || ok {
        Seq::empty()
    } else {
        seq![note]
    }
}

pub fn no_notes() -> (r: Vec<Note>)
    ensures
        r@ == Seq::<Note>::empty(),
{
    Vec::new()
}

pub fn failure_note(silent: bool, ok: bool, note: Note) -> (r: Vec<Note>)
    ensures
        r@ == failure_notes(silent, ok, note),
{
    let mut r: Vec<Note> = Vec::new();
    if !silent && !ok {
        r.push(note);
    }
    assert(r@ =~= failure_notes(silent, ok, note));
    r
}

} // verus!
