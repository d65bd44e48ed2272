//! The native-action dispatcher's data model and strategy table.
//!
//! A logical [`Action`] together with a [`Platform`] selects exactly one
//! recipe: the name of an external tool plus an argument template. Rendering
//! a recipe substitutes the action's target as a discrete argument-vector
//! element — the target is never spliced into script text, so hostile
//! application or window names cannot inject into a shell or script
//! interpreter. The table is a pure function: built once, read-only, with no
//! runtime mutation.

use vstd::prelude::*;
use crate::errors::DispatchError;

verus! {

/// The host platform, resolved once at startup by the embedding process and
/// immutable for the process lifetime.
#[derive(Clone, Copy, PartialEq, Eq, Structural, Debug)]
pub enum Platform {
    MacOs,
    Windows,
    Linux,
}

/// A logical automation intent, independent of OS mechanism. Actions that
/// operate on one application or window carry its name or title.
#[derive(Debug)]
pub enum Action {
    Launch(String),
    Activate(String),
    Minimize(String),
    Maximize(String),
    Close(String),
    Focus(String),
    ListWindows,
    ListProcesses,
}

/// The shape of an [`Action`] without its target payload.
#[derive(Clone, Copy, PartialEq, Eq, Structural, Debug)]
pub enum ActionKind {
    Launch,
    Activate,
    Minimize,
    Maximize,
    Close,
    Focus,
    ListWindows,
    ListProcesses,
}

impl Action {
    /// The shape of this action.
    pub open spec fn kind(self) -> ActionKind {
        match self {
            Action::Launch(_) => ActionKind::Launch,
            Action::Activate(_) => ActionKind::Activate,
            Action::Minimize(_) => ActionKind::Minimize,
            Action::Maximize(_) => ActionKind::Maximize,
            Action::Close(_) => ActionKind::Close,
            Action::Focus(_) => ActionKind::Focus,
            Action::ListWindows => ActionKind::ListWindows,
            Action::ListProcesses => ActionKind::ListProcesses,
        }
    }

    /// The target carried by this action; empty for the listing actions,
    /// which take none.
    pub open spec fn target(self) -> Seq<char> {
        match self {
            Action::Launch(t) => t@,
            Action::Activate(t) => t@,
            Action::Minimize(t) => t@,
            Action::Maximize(t) => t@,
            Action::Close(t) => t@,
            Action::Focus(t) => t@,
            Action::ListWindows => Seq::empty(),
            Action::ListProcesses => Seq::empty(),
        }
    }
}

/// One element of a recipe's argument template: either a fixed literal, the
/// target itself, or the target with a fixed suffix appended (the one case
/// is the `.exe` suffix that a process killer wants). The target only ever
/// fills a whole element.
pub enum ArgPiece {
    Lit(Seq<char>),
    Target,
    TargetExe,
}

/// A rendered recipe: one external tool and its argument vector, ready for
/// a process launcher. Arguments are discrete; nothing is ever joined into
/// a single shell string.
#[derive(Debug)]
pub struct Invocation {
    pub program: String,
    pub args: Vec<String>,
}

impl Invocation {
    /// The argument vector as a mathematical sequence of character
    /// sequences.
    pub open spec fn args_view(self) -> Seq<Seq<char>> {
        self.args@.map_values(|a: String| a@)
    }
}

/// Renders one template element for a concrete target.
pub open spec fn render_piece(piece: ArgPiece, target: Seq<char>) -> Seq<char> {
    match piece {
        ArgPiece::Lit(s) => s,
        ArgPiece::Target => target,
        ArgPiece::TargetExe => target + ".exe"@,
    }
}

/// Renders a whole argument template for a concrete target.
pub open spec fn render(template: Seq<ArgPiece>, target: Seq<char>) -> Seq<Seq<char>> {
    template.map_values(|piece: ArgPiece| render_piece(piece, target))
}

/// The strategy table: the tool name and argument template for one
/// `(ActionKind, Platform)` cell, or `None` where the cell is not served by
/// an external tool. Process listing goes through the system-inventory
/// collaborator instead, on every platform, so its row is empty.
///
/// Script-driven cells (AppleScript, PowerShell) use a fixed script that
/// reads the target from its own argument list; the target follows the
/// script as a separate argument-vector element.
pub open spec fn spec_recipe(k: ActionKind, p: Platform) -> Option<(Seq<char>, Seq<ArgPiece>)> {
    match (k, p) {
        (ActionKind::Launch, Platform::MacOs) => Some((
            "open"@,
            seq![ArgPiece::Lit("-a"@), ArgPiece::Target],
        )),
        (ActionKind::Launch, Platform::Windows) => Some((
            "cmd"@,
            seq![ArgPiece::Lit("/C"@), ArgPiece::Lit("start"@), ArgPiece::Lit(""@), ArgPiece::Target],
        )),
        (ActionKind::Launch, Platform::Linux) => Some((
            "xdg-open"@,
            seq![ArgPiece::Target],
        )),
        (ActionKind::Activate, Platform::MacOs) => Some((
            "osascript"@,
            seq![
                ArgPiece::Lit("-e"@),
                ArgPiece::Lit("on run argv\ntell application (item 1 of argv) to activate\nend run"@),
                ArgPiece::Target,
            ],
        )),
        (ActionKind::Activate, Platform::Windows) => Some((
            "powershell"@,
            seq![
                ArgPiece::Lit("-NoProfile"@),
                ArgPiece::Lit("-Command"@),
                ArgPiece::Lit("Get-Process $args[0] | ForEach-Object { $_.MainWindowTitle }"@),
                ArgPiece::Target,
            ],
        )),
        (ActionKind::Activate, Platform::Linux) => Some((
            "wmctrl"@,
            seq![ArgPiece::Lit("-a"@), ArgPiece::Target],
        )),
        (ActionKind::Minimize, Platform::MacOs) => Some((
            "osascript"@,
            seq![
                ArgPiece::Lit("-e"@),
                ArgPiece::Lit("on run argv\ntell application (item 1 of argv) to set minimized of window 1 to true\nend run"@),
                ArgPiece::Target,
            ],
        )),
        (ActionKind::Minimize, Platform::Windows) => Some((
            "powershell"@,
            seq![
                ArgPiece::Lit("-NoProfile"@),
                ArgPiece::Lit("-Command"@),
                ArgPiece::Lit("Get-Process $args[0] | ForEach-Object { $_.MinimizeMainWindow() }"@),
                ArgPiece::Target,
            ],
        )),
        (ActionKind::Minimize, Platform::Linux) => Some((
            "wmctrl"@,
            seq![ArgPiece::Lit("-r"@), ArgPiece::Target, ArgPiece::Lit("-b"@), ArgPiece::Lit("add,hidden"@)],
        )),
        (ActionKind::Maximize, Platform::MacOs) => Some((
            "osascript"@,
            seq![
                ArgPiece::Lit("-e"@),
                ArgPiece::Lit("on run argv\ntell application (item 1 of argv) to set zoomed of window 1 to true\nend run"@),
                ArgPiece::Target,
            ],
        )),
        (ActionKind::Maximize, Platform::Windows) => Some((
            "powershell"@,
            seq![
                ArgPiece::Lit("-NoProfile"@),
                ArgPiece::Lit("-Command"@),
                ArgPiece::Lit("Get-Process $args[0] | ForEach-Object { $_.MaximizeMainWindow() }"@),
                ArgPiece::Target,
            ],
        )),
        (ActionKind::Maximize, Platform::Linux) => Some((
            "wmctrl"@,
            seq![
                ArgPiece::Lit("-r"@),
                ArgPiece::Target,
                ArgPiece::Lit("-b"@),
                ArgPiece::Lit("add,maximized_vert,maximized_horz"@),
            ],
        )),
        (ActionKind::Close, Platform::MacOs) => Some((
            "osascript"@,
            seq![
                ArgPiece::Lit("-e"@),
                ArgPiece::Lit("on run argv\ntell application (item 1 of argv) to quit\nend run"@),
                ArgPiece::Target,
            ],
        )),
        (ActionKind::Close, Platform::Windows) => Some((
            "taskkill"@,
            seq![ArgPiece::Lit("/F"@), ArgPiece::Lit("/IM"@), ArgPiece::TargetExe],
        )),
        (ActionKind::Close, Platform::Linux) => Some((
            "pkill"@,
            seq![ArgPiece::Target],
        )),
        (ActionKind::Focus, Platform::MacOs) => Some((
            "osascript"@,
            seq![
                ArgPiece::Lit("-e"@),
                ArgPiece::Lit("on run argv\ntell application \"System Events\" to set frontmost of first process whose name contains (item 1 of argv) to true\nend run"@),
                ArgPiece::Target,
            ],
        )),
        (ActionKind::Focus, Platform::Windows) => Some((
            "powershell"@,
            seq![
                ArgPiece::Lit("-NoProfile"@),
                ArgPiece::Lit("-Command"@),
                ArgPiece::Lit("Get-Process | Where-Object { $_.MainWindowTitle -like $args[0] } | ForEach-Object { $_.SetForegroundWindow() }"@),
                ArgPiece::Target,
            ],
        )),
        (ActionKind::Focus, Platform::Linux) => Some((
            "wmctrl"@,
            seq![ArgPiece::Lit("-a"@), ArgPiece::Target],
        )),
        (ActionKind::ListWindows, Platform::MacOs) => Some((
            "osascript"@,
            seq![
                ArgPiece::Lit("-e"@),
                ArgPiece::Lit("tell application \"System Events\" to get name of every process whose background only is false"@),
            ],
        )),
        (ActionKind::ListWindows, Platform::Windows) => Some((
            "powershell"@,
            seq![
                ArgPiece::Lit("-NoProfile"@),
                ArgPiece::Lit("-Command"@),
                ArgPiece::Lit("Get-Process | Where-Object {$_.MainWindowTitle -ne \"\"} | Select-Object Name, MainWindowTitle | ConvertTo-Json"@),
            ],
        )),
        (ActionKind::ListWindows, Platform::Linux) => Some((
            "wmctrl"@,
            seq![ArgPiece::Lit("-l"@)],
        )),
        (ActionKind::ListProcesses, _) => None,
    }
}

/// Whether the strategy table serves this `(action, platform)` pair with an
/// external-tool recipe.
pub open spec fn has_recipe(a: Action, p: Platform) -> bool {
    spec_recipe(a.kind(), p) is Some
}

/// The tool name for a served pair.
pub open spec fn spec_program(a: Action, p: Platform) -> Seq<char> {
    spec_recipe(a.kind(), p)->Some_0.0
}

/// The rendered argument vector for a served pair.
pub open spec fn spec_args(a: Action, p: Platform) -> Seq<Seq<char>> {
    render(spec_recipe(a.kind(), p)->Some_0.1, a.target())
}

/// Routing is exhaustive: the strategy table serves every action on every
/// platform except process listing, which the system-inventory collaborator
/// answers without an external tool. An unserved pair is reported, never
/// silently dropped.
pub proof fn lemma_routing_exhaustive(a: Action, p: Platform)
    ensures
        has_recipe(a, p) <==> !(a is ListProcesses),
{
}

/// The target is confined to whole argument-vector elements: two actions of
/// the same shape share the tool name and every fixed argument, and where
/// their rendered arguments differ, each side is exactly its own target
/// (or its own target with the fixed `.exe` suffix). No recipe splices the
/// target into script text.
pub proof fn lemma_target_confined(a1: Action, a2: Action, p: Platform)
    requires
        a1.kind() == a2.kind(),
        has_recipe(a1, p),
    ensures
        spec_program(a1, p) == spec_program(a2, p),
        spec_args(a1, p).len() == spec_args(a2, p).len(),
        forall|i: int|
            0 <= i < spec_args(a1, p).len() ==> (spec_args(a1, p)[i] == spec_args(a2, p)[i] || (
            spec_args(a1, p)[i] == a1.target() && spec_args(a2, p)[i] == a2.target()) || (
            spec_args(a1, p)[i] == a1.target() + ".exe"@ && spec_args(a2, p)[i] == a2.target()
                + ".exe"@)),
{
    let tpl = spec_recipe(a1.kind(), p)->Some_0.1;
    assert forall|i: int| 0 <= i < spec_args(a1, p).len() implies (spec_args(a1, p)[i]
        == spec_args(a2, p)[i] || (spec_args(a1, p)[i] == a1.target() && spec_args(a2, p)[i]
        == a2.target()) || (spec_args(a1, p)[i] == a1.target() + ".exe"@ && spec_args(a2, p)[i]
        == a2.target() + ".exe"@)) by {
        assert(spec_args(a1, p)[i] == render_piece(tpl[i], a1.target()));
        assert(spec_args(a2, p)[i] == render_piece(tpl[i], a2.target()));
    }
}

/// A `String` copy of a fixed argument or tool name.
fn lit(s: &str) -> (r: String)
    ensures
        r@ == s@,
{
    String::from_str(s)
}

/// An invocation with one argument.
fn mk1(program: &str, a0: String) -> (r: Invocation)
    ensures
        r.program@ == program@,
        r.args_view() == seq![a0@],
{
    let mut args: Vec<String> = Vec::new();
    args.push(a0);
    let inv = Invocation { program: String::from_str(program), args };
    proof {
        assert(inv.args_view() =~= seq![a0@]);
    }
    inv
}

/// An invocation with two arguments.
fn mk2(program: &str, a0: String, a1: String) -> (r: Invocation)
    ensures
        r.program@ == program@,
        r.args_view() == seq![a0@, a1@],
{
    let mut args: Vec<String> = Vec::new();
    args.push(a0);
    args.push(a1);
    let inv = Invocation { program: String::from_str(program), args };
    proof {
        assert(inv.args_view() =~= seq![a0@, a1@]);
    }
    inv
}

/// An invocation with three arguments.
fn mk3(program: &str, a0: String, a1: String, a2: String) -> (r: Invocation)
    ensures
        r.program@ == program@,
        r.args_view() == seq![a0@, a1@, a2@],
{
    let mut args: Vec<String> = Vec::new();
    args.push(a0);
    args.push(a1);
    args.push(a2);
    let inv = Invocation { program: String::from_str(program), args };
    proof {
        assert(inv.args_view() =~= seq![a0@, a1@, a2@]);
    }
    inv
}

/// An invocation with four arguments.
fn mk4(program: &str, a0: String, a1: String, a2: String, a3: String) -> (r: Invocation)
    ensures
        r.program@ == program@,
        r.args_view() == seq![a0@, a1@, a2@, a3@],
{
    let mut args: Vec<String> = Vec::new();
    args.push(a0);
    args.push(a1);
    args.push(a2);
    args.push(a3);
    let inv = Invocation { program: String::from_str(program), args };
    proof {
        assert(inv.args_view() =~= seq![a0@, a1@, a2@, a3@]);
    }
    inv
}

/// Looks up the recipe for `action` on `platform` in the strategy table and
/// renders it for the action's target. Returns the invocation for every
/// served pair, and `UnsupportedAction` for the one row the table does not
/// serve.
pub fn recipe_for(action: &Action, platform: Platform) -> (r: Result<Invocation, DispatchError>)
    ensures
        r is Ok <==> has_recipe(*action, platform),
        r matches Ok(inv) ==> inv.program@ == spec_program(*action, platform) && inv.args_view()
            == spec_args(*action, platform),
        r matches Err(e) ==> e is UnsupportedAction,
{
    let res = match (action, platform) {
        (Action::ListProcesses, _) => {
            return Err(DispatchError::UnsupportedAction);
        },
        (Action::Launch(t), Platform::MacOs) => mk2("open", lit("-a"), t.clone()),
        (Action::Launch(t), Platform::Windows) => mk4(
            "cmd",
            lit("/C"),
            lit("start"),
            lit(""),
            t.clone(),
        ),
        (Action::Launch(t), Platform::Linux) => mk1("xdg-open", t.clone()),
        (Action::Activate(t), Platform::MacOs) => mk3(
            "osascript",
            lit("-e"),
            lit("on run argv\ntell application (item 1 of argv) to activate\nend run"),
            t.clone(),
        ),
        (Action::Activate(t), Platform::Windows) => mk4(
            "powershell",
            lit("-NoProfile"),
            lit("-Command"),
            lit("Get-Process $args[0] | ForEach-Object { $_.MainWindowTitle }"),
            t.clone(),
        ),
        (Action::Activate(t), Platform::Linux) => mk2("wmctrl", lit("-a"), t.clone()),
        (Action::Minimize(t), Platform::MacOs) => mk3(
            "osascript",
            lit("-e"),
            lit(
                "on run argv\ntell application (item 1 of argv) to set minimized of window 1 to true\nend run",
            ),
            t.clone(),
        ),
        (Action::Minimize(t), Platform::Windows) => mk4(
            "powershell",
            lit("-NoProfile"),
            lit("-Command"),
            lit("Get-Process $args[0] | ForEach-Object { $_.MinimizeMainWindow() }"),
            t.clone(),
        ),
        (Action::Minimize(t), Platform::Linux) => mk4(
            "wmctrl",
            lit("-r"),
            t.clone(),
            lit("-b"),
            lit("add,hidden"),
        ),
        (Action::Maximize(t), Platform::MacOs) => mk3(
            "osascript",
            lit("-e"),
            lit(
                "on run argv\ntell application (item 1 of argv) to set zoomed of window 1 to true\nend run",
            ),
            t.clone(),
        ),
        (Action::Maximize(t), Platform::Windows) => mk4(
            "powershell",
            lit("-NoProfile"),
            lit("-Command"),
            lit("Get-Process $args[0] | ForEach-Object { $_.MaximizeMainWindow() }"),
            t.clone(),
        ),
        (Action::Maximize(t), Platform::Linux) => mk4(
            "wmctrl",
            lit("-r"),
            t.clone(),
            lit("-b"),
            lit("add,maximized_vert,maximized_horz"),
        ),
        (Action::Close(t), Platform::MacOs) => mk3(
            "osascript",
            lit("-e"),
            lit("on run argv\ntell application (item 1 of argv) to quit\nend run"),
            t.clone(),
        ),
        (Action::Close(t), Platform::Windows) => mk3(
            "taskkill",
            lit("/F"),
            lit("/IM"),
            t.clone().concat(".exe"),
        ),
        (Action::Close(t), Platform::Linux) => mk1("pkill", t.clone()),
        (Action::Focus(t), Platform::MacOs) => mk3(
            "osascript",
            lit("-e"),
            lit(
                "on run argv\ntell application \"System Events\" to set frontmost of first process whose name contains (item 1 of argv) to true\nend run",
            ),
            t.clone(),
        ),
        (Action::Focus(t), Platform::Windows) => mk4(
            "powershell",
            lit("-NoProfile"),
            lit("-Command"),
            lit(
                "Get-Process | Where-Object { $_.MainWindowTitle -like $args[0] } | ForEach-Object { $_.SetForegroundWindow() }",
            ),
            t.clone(),
        ),
        (Action::Focus(t), Platform::Linux) => mk2("wmctrl", lit("-a"), t.clone()),
        (Action::ListWindows, Platform::MacOs) => mk2(
            "osascript",
            lit("-e"),
            lit(
                "tell application \"System Events\" to get name of every process whose background only is false",
            ),
        ),
        (Action::ListWindows, Platform::Windows) => mk3(
            "powershell",
            lit("-NoProfile"),
            lit("-Command"),
            lit(
                "Get-Process | Where-Object {$_.MainWindowTitle -ne \"\"} | Select-Object Name, MainWindowTitle | ConvertTo-Json",
            ),
        ),
        (Action::ListWindows, Platform::Linux) => mk1("wmctrl", lit("-l")),
    };
    proof {
        assert(res.args_view() =~= spec_args(*action, platform));
    }
    Ok(res)
}

} // verus!
