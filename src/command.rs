//! Command lines for the desktop settings tools and the meaning of their
//! outcomes.
use vstd::prelude::*;

verus! {

/// An external program and its arguments.
pub struct Invocation {
    pub program: String,
    pub args: Vec<String>,
}

/// What an `Invocation` stands for: the program name and its arguments.
pub ghost struct InvocationView {
    pub program: Seq<char>,
    pub args: Seq<Seq<char>>,
}

impl View for Invocation {
    type V = InvocationView;

    open spec fn view(&self) -> InvocationView {
        InvocationView { program: self.program@, args: self.args.deep_view() }
    }
}

impl Invocation {
    /// A copy of this command line.
    pub fn duplicate(&self) -> (r: Invocation)
        ensures
            r@ == self@,
    {
        let args = self.args.clone();
        assert(args.deep_view() == self.args.deep_view());
        Invocation { program: self.program.clone(), args }
    }
}

/// The command that reads one field: `gsettings get <key> <field>`.
pub open spec fn get_spec(key: Seq<char>, field: Seq<char>) -> InvocationView {
    InvocationView { program: "gsettings"@, args: seq!["get"@, key, field] }
}

/// The command that writes one field: `gsettings set <key> <field> <value>`.
pub open spec fn set_spec(key: Seq<char>, field: Seq<char>, value: Seq<char>) -> InvocationView {
    InvocationView { program: "gsettings"@, args: seq!["set"@, key, field, value] }
}

/// The command that writes one path of the tree: `dconf write <path> <value>`.
pub open spec fn write_tree_spec(path: Seq<char>, value: Seq<char>) -> InvocationView {
    InvocationView { program: "dconf"@, args: seq!["write"@, path, value] }
}

/// The command that prints the whole settings tree: `dconf dump /`.
pub open spec fn dump_spec() -> InvocationView {
    InvocationView { program: "dconf"@, args: seq!["dump"@, "/"@] }
}

/// The shell line that loads the whole tree from a file.
pub open spec fn load_line(file: Seq<char>) -> Seq<char> {
    "dconf load / < "@ + file
}

/// The command that loads the whole settings tree from `file`, through a
/// shell redirection: `sh -c "dconf load / < <file>"`.
pub open spec fn load_spec(file: Seq<char>) -> InvocationView {
    InvocationView { program: "sh"@, args: seq!["-c"@, load_line(file)] }
}

/// The message that stands for a failed read of a field.
pub open spec fn get_error_text() -> Seq<char> {
    "Error retrieving field"@
}

/// The message that stands for a failed write.
pub open spec fn set_error_text() -> Seq<char> {
    "Error setting field value"@
}

/// The confirmation of a successful write of `name`.
pub open spec fn updated_text(name: Seq<char>) -> Seq<char> {
    name + " updated!"@
}

/// What a write reports: a confirmation naming `name` when the tool exited
/// with success, the failure message otherwise.
pub open spec fn update_outcome_spec(success: bool, name: Seq<char>) -> Result<Seq<char>, Seq<char>> {
    if success {
        Ok(updated_text(name))
    } else {
        Err(set_error_text())
    }
}

/// The view of a reported write outcome.
pub open spec fn outcome_view(r: Result<String, String>) -> Result<Seq<char>, Seq<char>> {
    match r {
        Ok(m) => Ok(m@),
        Err(e) => Err(e@),
    }
}

fn owned(s: &str) -> (r: String)
    ensures
        r@ == s@,
{
    String::from_str(s)
}

/// Builds `gsettings get <key> <field>`.
pub fn get_invocation(key: &str, field: &str) -> (r: Invocation)
    ensures
        r@ == get_spec(key@, field@),
{
    let mut args: Vec<String> = Vec::new();
    args.push(owned("get"));
    args.push(owned(key));
    args.push(owned(field));
    let r = Invocation { program: owned("gsettings"), args };
    assert(r.args.deep_view() =~= seq!["get"@, key@, field@]);
    r
}

/// Builds `gsettings set <key> <field> <value>`.
pub fn set_invocation(key: &str, field: &str, value: &str) -> (r: Invocation)
    ensures
        r@ == set_spec(key@, field@, value@),
{
    let mut args: Vec<String> = Vec::new();
    args.push(owned("set"));
    args.push(owned(key));
    args.push(owned(field));
    args.push(owned(value));
    let r = Invocation { program: owned("gsettings"), args };
    assert(r.args.deep_view() =~= seq!["set"@, key@, field@, value@]);
    r
}

/// Builds `dconf write <path> <value>`.
pub fn write_tree_invocation(path: &str, value: &str) -> (r: Invocation)
    ensures
        r@ == write_tree_spec(path@, value@),
{
    let mut args: Vec<String> = Vec::new();
    args.push(owned("write"));
    args.push(owned(path));
    args.push(owned(value));
    let r = Invocation { program: owned("dconf"), args };
    assert(r.args.deep_view() =~= seq!["write"@, path@, value@]);
    r
}

/// Builds `dconf dump /`.
pub fn dump_invocation() -> (r: Invocation)
    ensures
        r@ == dump_spec(),
{
    let mut args: Vec<String> = Vec::new();
    args.push(owned("dump"));
    args.push(owned("/"));
    let r = Invocation { program: owned("dconf"), args };
    assert(r.args.deep_view() =~= seq!["dump"@, "/"@]);
    r
}

/// Builds `sh -c "dconf load / < <file>"`.
pub fn load_invocation(file: &str) -> (r: Invocation)
    ensures
        r@ == load_spec(file@),
{
    let line = owned("dconf load / < ").concat(file);
    let mut args: Vec<String> = Vec::new();
    args.push(owned("-c"));
    args.push(line);
    let r = Invocation { program: owned("sh"), args };
    assert(r.args.deep_view() =~= seq!["-c"@, load_line(file@)]);
    r
}

/// What a read of a field returns: the tool's output when it exited with
/// success, the failure message otherwise.
pub fn get_outcome(success: bool, output: &str) -> (r: String)
    ensures
        success ==> r@ == output@,
        !success ==> r@ == get_error_text(),
{
    if success {
        owned(output)
    } else {
        owned("Error retrieving field")
    }
}

/// What a write of `name` returns: `Ok` with a confirmation exactly when the
/// tool exited with success, `Err` with the failure message otherwise.
pub fn update_outcome(success: bool, name: &str) -> (r: Result<String, String>)
    ensures
        outcome_view(r) == update_outcome_spec(success, name@),
{
    if success {
        Ok(owned(name).concat(" updated!"))
    } else {
        Err(owned("Error setting field value"))
    }
}

} // verus!
