//! The desired look: the fixed table of settings that the tool writes, built
//! from a wallpaper path, a theme name and an icon theme name.
use vstd::prelude::*;
use crate::command::{
    Invocation,
    InvocationView,
    set_invocation,
    set_spec,
    write_tree_invocation,
    write_tree_spec,
};

verus! {

/// Namespace of the desktop background settings.
pub const BACKGROUND: &'static str = "org.gnome.desktop.background";

/// Namespace of the shell theme extension.
pub const SHELL_THEME: &'static str = "org.gnome.shell.extensions.user-theme";

/// Namespace of the desktop interface settings.
pub const INTERFACE: &'static str = "org.gnome.desktop.interface";

/// Namespace of the window manager preferences.
pub const WM_PREFERENCES: &'static str = "org.gnome.desktop.wm.preferences";

/// Tree path of the dock's extend-height flag. The tree tool wants absolute
/// paths, so this is the one form used everywhere.
pub const DOCK_EXTEND_HEIGHT: &'static str = "/org/gnome/shell/extensions/dash-to-dock/extend-height";

/// One setting: a field of a namespace and the value it is given.
pub struct Setting {
    pub key: String,
    pub field: String,
    pub value: String,
}

pub ghost struct SettingView {
    pub key: Seq<char>,
    pub field: Seq<char>,
    pub value: Seq<char>,
}

impl View for Setting {
    type V = SettingView;

    open spec fn view(&self) -> SettingView {
        SettingView { key: self.key@, field: self.field@, value: self.value@ }
    }
}

/// One write of the apply procedure: the command and the name that its
/// outcome reports.
pub struct Update {
    pub invocation: Invocation,
    pub label: String,
}

pub ghost struct UpdateView {
    pub invocation: InvocationView,
    pub label: Seq<char>,
}

impl View for Update {
    type V = UpdateView;

    open spec fn view(&self) -> UpdateView {
        UpdateView { invocation: self.invocation@, label: self.label@ }
    }
}

pub open spec fn entry(key: Seq<char>, field: Seq<char>, value: Seq<char>) -> SettingView {
    SettingView { key, field, value }
}

/// The wallpaper as a file URI.
pub open spec fn file_uri(wallpaper: Seq<char>) -> Seq<char> {
    "file://"@ + wallpaper
}

/// The table of settings for a wallpaper, a theme and an icon theme, in the
/// order in which they are written.
pub open spec fn desired_spec(wallpaper: Seq<char>, theme: Seq<char>, icons: Seq<char>) -> Seq<SettingView> {
    seq![
        entry(BACKGROUND@, "picture-uri"@, file_uri(wallpaper)),
        entry(BACKGROUND@, "picture-uri-dark"@, file_uri(wallpaper)),
        entry(BACKGROUND@, "picture-options"@, "stretched"@),
        entry(SHELL_THEME@, "name"@, theme),
        entry(INTERFACE@, "icon-theme"@, icons),
        entry(INTERFACE@, "gtk-theme"@, theme),
        entry(WM_PREFERENCES@, "theme"@, theme),
    ]
}

/// The write of one setting, reported under its field name.
pub open spec fn setting_update(s: SettingView) -> UpdateView {
    UpdateView { invocation: set_spec(s.key, s.field, s.value), label: s.field }
}

/// The write of the dock flag, reported under its tree path.
pub open spec fn dock_update() -> UpdateView {
    UpdateView { invocation: write_tree_spec(DOCK_EXTEND_HEIGHT@, "true"@), label: DOCK_EXTEND_HEIGHT@ }
}

/// Every write of the apply procedure: one per setting of the table, in its
/// order, then the dock flag.
pub open spec fn plan_spec(wallpaper: Seq<char>, theme: Seq<char>, icons: Seq<char>) -> Seq<UpdateView> {
    desired_spec(wallpaper, theme, icons).map_values(|s: SettingView| setting_update(s)).push(dock_update())
}

/// Applying a wallpaper, a theme and an icon theme writes exactly seven
/// settings, each (namespace, field) pair once, with the values of the table,
/// followed by a single tree write that turns the dock flag on.
pub proof fn lemma_apply_writes_table(wallpaper: Seq<char>, theme: Seq<char>, icons: Seq<char>)
    ensures
        desired_spec(wallpaper, theme, icons).len() == 7,
        plan_spec(wallpaper, theme, icons).len() == 8,
        forall|j: int|
            0 <= j < 7 ==> #[trigger] plan_spec(wallpaper, theme, icons)[j] == setting_update(
                desired_spec(wallpaper, theme, icons)[j],
            ),
        plan_spec(wallpaper, theme, icons)[7] == dock_update(),
        forall|j: int, k: int|
            0 <= j < k < 7 ==> {
                let a = #[trigger] desired_spec(wallpaper, theme, icons)[j];
                let b = #[trigger] desired_spec(wallpaper, theme, icons)[k];
                a.key != b.key || a.field != b.field
            },
{
    reveal_strlit("org.gnome.desktop.background");
    reveal_strlit("org.gnome.shell.extensions.user-theme");
    reveal_strlit("org.gnome.desktop.interface");
    reveal_strlit("org.gnome.desktop.wm.preferences");
    reveal_strlit("picture-uri");
    reveal_strlit("picture-uri-dark");
    reveal_strlit("picture-options");
    reveal_strlit("name");
    reveal_strlit("icon-theme");
    reveal_strlit("gtk-theme");
    reveal_strlit("theme");
    let table = desired_spec(wallpaper, theme, icons);
    assert(BACKGROUND@.len() != SHELL_THEME@.len());
    assert(BACKGROUND@.len() != WM_PREFERENCES@.len());
    assert(SHELL_THEME@.len() != INTERFACE@.len());
    assert(SHELL_THEME@.len() != WM_PREFERENCES@.len());
    assert(INTERFACE@.len() != WM_PREFERENCES@.len());
    assert(BACKGROUND@.len() != INTERFACE@.len());
    assert("picture-uri"@.len() != "picture-uri-dark"@.len());
    assert("picture-uri"@.len() != "picture-options"@.len());
    assert("picture-uri-dark"@.len() != "picture-options"@.len());
    assert("icon-theme"@ != "gtk-theme"@) by {
        assert("icon-theme"@[0] != "gtk-theme"@[0]);
    }
}

fn setting(key: &str, field: &str, value: String) -> (r: Setting)
    ensures
        r@ == entry(key@, field@, value@),
{
    Setting { key: String::from_str(key), field: String::from_str(field), value }
}

/// The table of settings for `wallpaper`, `theme` and `icons`.
pub fn desired_state(wallpaper: &str, theme: &str, icons: &str) -> (r: Vec<Setting>)
    ensures
        r@.map_values(|s: Setting| s@) == desired_spec(wallpaper@, theme@, icons@),
{
    let uri = String::from_str("file://").concat(wallpaper);
    let mut r: Vec<Setting> = Vec::new();
    r.push(setting(BACKGROUND, "picture-uri", uri.clone()));
    r.push(setting(BACKGROUND, "picture-uri-dark", uri));
    r.push(setting(BACKGROUND, "picture-options", String::from_str("stretched")));
    r.push(setting(SHELL_THEME, "name", String::from_str(theme)));
    r.push(setting(INTERFACE, "icon-theme", String::from_str(icons)));
    r.push(setting(INTERFACE, "gtk-theme", String::from_str(theme)));
    r.push(setting(WM_PREFERENCES, "theme", String::from_str(theme)));
    assert(r@.map_values(|s: Setting| s@) =~= desired_spec(wallpaper@, theme@, icons@));
    r
}

/// Every write of the apply procedure for `wallpaper`, `theme` and `icons`.
pub fn apply_plan(wallpaper: &str, theme: &str, icons: &str) -> (r: Vec<Update>)
    ensures
        r@.map_values(|u: Update| u@) == plan_spec(wallpaper@, theme@, icons@),
{
    let settings = desired_state(wallpaper, theme, icons);
    let ghost table = desired_spec(wallpaper@, theme@, icons@);
    let mut r: Vec<Update> = Vec::new();
    let mut i: usize = 0;
    while i < settings.len()
        invariant
            i <= settings.len(),
            settings@.map_values(|s: Setting| s@) == table,
            r@.map_values(|u: Update| u@) =~= table.take(i as int).map_values(|s: SettingView| setting_update(s)),
        decreases settings.len() - i,
    {
        let s = &settings[i];
        assert(settings@.map_values(|s: Setting| s@)[i as int] == s@);
        let u = Update {
            invocation: set_invocation(s.key.as_str(), s.field.as_str(), s.value.as_str()),
            label: s.field.clone(),
        };
        assert(u@ == setting_update(table[i as int]));
        let ghost before = r@;
        r.push(u);
        assert(r@ == before.push(u));
        i = i + 1;
        assert(table.take(i as int) =~= table.take(i - 1).push(table[i - 1]));
        assert(r@.map_values(|u: Update| u@) =~= before.map_values(|u: Update| u@).push(u@));
    }
    assert(table.take(i as int) =~= table);
    r.push(Update {
        invocation: write_tree_invocation(DOCK_EXTEND_HEIGHT, "true"),
        label: String::from_str(DOCK_EXTEND_HEIGHT),
    });
    assert(r@.map_values(|u: Update| u@) =~= plan_spec(wallpaper@, theme@, icons@));
    r
}

} // verus!
