use std::collections::{HashMap, HashSet};

use nix_incognito::machine::{Action, Event, Note};
use nix_incognito::paths::check_file_exists;
use nix_incognito::snapshot::{Restore, Snapshot};

/// An in-memory desktop: a settings tree held as its dump text, directories
/// and files. Loading a dump sets the tree to it.
struct Desk {
    tree: String,
    dirs: HashSet<String>,
    files: HashMap<String, String>,
    commands: usize,
    created_dirs: Vec<String>,
}

impl Desk {
    fn new(tree: &str) -> Desk {
        Desk {
            tree: tree.to_string(),
            dirs: HashSet::new(),
            files: HashMap::new(),
            commands: 0,
            created_dirs: Vec::new(),
        }
    }

    fn can_create(&self, path: &str) -> bool {
        match parent_directory(path) {
            Some(d) => self.dirs.contains(&d),
            None => true,
        }
    }

    fn perform(&mut self, action: &Action) -> Event {
        match action {
            Action::Dump => {
                self.commands += 1;
                Event::Ran { success: true, output: self.tree.clone() }
            }
            Action::Load(p) => {
                self.commands += 1;
                match self.files.get(p) {
                    Some(text) => {
                        self.tree = text.clone();
                        Event::Ran { success: true, output: String::new() }
                    }
                    None => Event::Ran { success: false, output: String::new() },
                }
            }
            Action::CheckPath(p) => Event::Exists(self.dirs.contains(p) || self.files.contains_key(p)),
            Action::CreateDirAll(p) => {
                self.dirs.insert(p.clone());
                self.created_dirs.push(p.clone());
                Event::Done(true)
            }
            Action::Touch(p) => {
                if self.files.contains_key(p) {
                    Event::Done(true)
                } else if self.can_create(p) {
                    self.files.insert(p.clone(), String::new());
                    Event::Done(true)
                } else {
                    Event::Done(false)
                }
            }
            Action::Write { path, contents } => {
                if self.files.contains_key(path) || self.can_create(path) {
                    self.files.insert(path.clone(), contents.clone());
                    Event::Done(true)
                } else {
                    Event::Done(false)
                }
            }
            Action::Abort(_) | Action::Finish => Event::Begin,
        }
    }
}

fn parent_directory(path: &str) -> Option<String> {
    Snapshot::new(path, true).parent
}

fn ends(a: &Action) -> bool {
    matches!(a, Action::Finish | Action::Abort(_))
}

fn snapshot(desk: &mut Desk, path: &str, silent: bool) -> (Vec<Note>, Action) {
    let mut m = Snapshot::new(path, silent);
    let mut notes = Vec::new();
    let mut event = Event::Begin;
    loop {
        let step = m.step(event);
        notes.extend(step.notes);
        if ends(&step.action) {
            return (notes, step.action);
        }
        event = desk.perform(&step.action);
    }
}

fn restore(desk: &mut Desk, path: &str) -> (Vec<Note>, Action) {
    let mut m = Restore::new(path);
    let mut notes = Vec::new();
    let mut event = Event::Begin;
    loop {
        let step = m.step(event);
        notes.extend(step.notes);
        if ends(&step.action) {
            return (notes, step.action);
        }
        event = desk.perform(&step.action);
    }
}

#[test]
fn snapshot_then_restore_in_a_missing_directory() {
    let mut desk = Desk::new("[org/gnome]\ntheme='Adwaita'\n");
    let path = "/nonexistent/dir/cfg.txt";
    let (notes, end) = snapshot(&mut desk, path, true);
    assert!(notes.is_empty());
    assert!(matches!(end, Action::Finish));
    assert_eq!(desk.created_dirs, vec!["/nonexistent/dir".to_string()]);
    assert_eq!(desk.files[path], "[org/gnome]\ntheme='Adwaita'\n");

    desk.tree = String::from("[org/gnome]\ntheme='Dark'\n");
    let (notes, end) = restore(&mut desk, path);
    assert_eq!(notes, vec![Note::Loading, Note::Loaded]);
    assert!(matches!(end, Action::Finish));
    assert_eq!(desk.tree, "[org/gnome]\ntheme='Adwaita'\n");

    let commands = desk.commands;
    let (notes, _) = restore(&mut desk, path);
    assert_eq!(notes, vec![Note::Loading, Note::Loaded]);
    assert_eq!(desk.commands, commands + 1);
    assert_eq!(desk.tree, "[org/gnome]\ntheme='Adwaita'\n");
}

#[test]
fn second_snapshot_overwrites_without_creating() {
    let mut desk = Desk::new("one");
    let path = "/home/u/.config/incognito/current_system_config.txt";
    snapshot(&mut desk, path, false);
    assert_eq!(desk.created_dirs.len(), 1);
    desk.tree = String::from("two");
    let (notes, end) = snapshot(&mut desk, path, false);
    assert_eq!(notes, vec![Note::Saving, Note::Saved]);
    assert!(matches!(end, Action::Finish));
    assert_eq!(desk.created_dirs.len(), 1);
    assert_eq!(desk.files[path], "two");
}

#[test]
fn snapshot_round_trip_restores_the_tree() {
    let mut desk = Desk::new("before");
    let path = "/tmp/incognito/cfg.txt";
    snapshot(&mut desk, path, false);
    desk.tree = String::from("changed");
    restore(&mut desk, path);
    assert_eq!(desk.tree, "before");
}

#[test]
fn restore_of_missing_file_runs_nothing() {
    let mut desk = Desk::new("tree");
    let (notes, end) = restore(&mut desk, "/nowhere/cfg.txt");
    assert_eq!(notes, vec![Note::NotFound]);
    assert!(matches!(end, Action::Finish));
    assert_eq!(desk.commands, 0);
    assert_eq!(desk.tree, "tree");
}

#[test]
fn failed_load_is_reported() {
    let mut m = Restore::new("/cfg.txt");
    m.step(Event::Begin);
    let step = m.step(Event::Exists(true));
    assert!(matches!(step.action, Action::Load(ref p) if p == "/cfg.txt"));
    let step = m.step(Event::Ran { success: false, output: String::new() });
    assert_eq!(step.notes, vec![Note::LoadFailed]);
    assert!(matches!(step.action, Action::Finish));
}

#[test]
fn failed_write_aborts() {
    let mut m = Snapshot::new("/a/b.txt", false);
    assert!(matches!(m.step(Event::Begin).action, Action::Dump));
    let step = m.step(Event::Ran { success: true, output: String::from("x") });
    assert!(matches!(step.action, Action::CheckPath(ref p) if p == "/a/b.txt"));
    let step = m.step(Event::Exists(true));
    assert_eq!(step.notes, vec![Note::Saving]);
    assert!(matches!(step.action, Action::Write { ref path, ref contents } if path == "/a/b.txt" && contents == "x"));
    let step = m.step(Event::Done(false));
    assert!(matches!(step.action, Action::Abort(ref p) if p == "/a/b.txt"));
}

#[test]
fn failed_dump_and_bootstrap_are_noted_and_writing_goes_on() {
    let mut m = Snapshot::new("/a/b.txt", false);
    m.step(Event::Begin);
    m.step(Event::Ran { success: false, output: String::new() });
    let step = m.step(Event::Exists(false));
    assert!(matches!(step.action, Action::CheckPath(ref p) if p == "/a"));
    let step = m.step(Event::Exists(false));
    assert!(matches!(step.action, Action::CreateDirAll(ref p) if p == "/a"));
    let step = m.step(Event::Done(false));
    assert_eq!(step.notes, vec![Note::DirFailed]);
    assert!(matches!(step.action, Action::Touch(ref p) if p == "/a/b.txt"));
    let step = m.step(Event::Done(false));
    assert_eq!(step.notes, vec![Note::TouchFailed, Note::DumpFailed]);
    assert!(matches!(step.action, Action::Write { .. }));
}

#[test]
fn silent_snapshot_notes_nothing_on_failures() {
    let mut m = Snapshot::new("/a/b.txt", true);
    m.step(Event::Begin);
    m.step(Event::Ran { success: false, output: String::new() });
    m.step(Event::Exists(false));
    m.step(Event::Exists(false));
    let step = m.step(Event::Done(false));
    assert!(step.notes.is_empty());
    let step = m.step(Event::Done(false));
    assert!(step.notes.is_empty());
    assert!(matches!(step.action, Action::Write { .. }));
}

#[test]
fn unexpected_event_ends_the_procedure() {
    let mut m = Snapshot::new("/a/b.txt", false);
    let step = m.step(Event::Done(true));
    assert!(matches!(step.action, Action::Finish));
    let step = m.step(Event::Begin);
    assert!(matches!(step.action, Action::Finish));
}

#[test]
fn parent_directory_drops_the_last_component() {
    assert_eq!(parent_directory("/nonexistent/dir/cfg.txt"), Some(String::from("/nonexistent/dir")));
    assert_eq!(parent_directory(""), None);
    assert_eq!(parent_directory("/"), None);
}

#[test]
fn check_file_exists_looks_at_disk() {
    assert!(check_file_exists("/"));
    assert!(!check_file_exists("/nonexistent/dir/cfg.txt"));
}
