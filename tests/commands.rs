use nix_incognito::command::{
    dump_invocation, get_invocation, get_outcome, load_invocation, set_invocation, update_outcome,
    write_tree_invocation, Invocation,
};

fn argv(i: &Invocation) -> Vec<String> {
    let mut v = vec![i.program.clone()];
    v.extend(i.args.iter().cloned());
    v
}

#[test]
fn get_invocation_reads_one_field() {
    let i = get_invocation("org.gnome.desktop.interface", "gtk-theme");
    assert_eq!(argv(&i), vec!["gsettings", "get", "org.gnome.desktop.interface", "gtk-theme"]);
}

#[test]
fn set_invocation_writes_one_field() {
    let i = set_invocation("org.gnome.desktop.interface", "icon-theme", "Mono");
    assert_eq!(
        argv(&i),
        vec!["gsettings", "set", "org.gnome.desktop.interface", "icon-theme", "Mono"]
    );
}

#[test]
fn write_tree_invocation_writes_one_path() {
    let i = write_tree_invocation("/org/gnome/shell/extensions/dash-to-dock/extend-height", "true");
    assert_eq!(
        argv(&i),
        vec!["dconf", "write", "/org/gnome/shell/extensions/dash-to-dock/extend-height", "true"]
    );
}

#[test]
fn dump_invocation_dumps_whole_tree() {
    assert_eq!(argv(&dump_invocation()), vec!["dconf", "dump", "/"]);
}

#[test]
fn load_invocation_pipes_the_file() {
    let i = load_invocation("/home/u/.config/incognito/current_system_config.txt");
    assert_eq!(
        argv(&i),
        vec!["sh", "-c", "dconf load / < /home/u/.config/incognito/current_system_config.txt"]
    );
}

#[test]
fn duplicate_keeps_every_argument() {
    let i = set_invocation("a.b", "c", "d");
    let j = i.duplicate();
    assert_eq!(argv(&i), argv(&j));
}

#[test]
fn get_outcome_passes_output_on_success() {
    assert_eq!(get_outcome(true, "'Adwaita'\n"), "'Adwaita'\n");
}

#[test]
fn get_outcome_reports_failure() {
    assert_eq!(get_outcome(false, "ignored"), "Error retrieving field");
}

#[test]
fn update_outcome_confirms_success() {
    assert_eq!(update_outcome(true, "picture-uri"), Ok(String::from("picture-uri updated!")));
}

#[test]
fn update_outcome_reports_failure() {
    assert_eq!(update_outcome(false, "picture-uri"), Err(String::from("Error setting field value")));
}
