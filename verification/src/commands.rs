//! Generic command execution, gated by a fixed allow-list.
//!
//! The allow-list is a security boundary: a command name not on it is
//! rejected with [`DispatchError::NotPermitted`] before any invocation is
//! built, so no launcher can ever see it. Extra arguments never influence
//! the decision — only the executable name is consulted.

use vstd::prelude::*;
use crate::actions::Invocation;
use crate::errors::DispatchError;

verus! {

/// Whether a command name is on the fixed allow-list.
pub open spec fn spec_allowed(name: Seq<char>) -> bool {
    ||| name == "git"@
    ||| name == "npm"@
    ||| name == "ls"@
    ||| name == "pwd"@
    ||| name == "echo"@
}

/// Whether `name` equals the fixed name `lit`.
fn name_is(name: &String, fixed: &str) -> (r: bool)
    ensures
        r == (name@ == fixed@),
{
    let f = String::from_str(fixed);
    *name == f
}

/// Whether `name` is on the allow-list.
pub fn is_allowed(name: &String) -> (r: bool)
    ensures
        r == spec_allowed(name@),
{
    name_is(name, "git") || name_is(name, "npm") || name_is(name, "ls") || name_is(name, "pwd")
        || name_is(name, "echo")
}

/// Authorizes one generic command: an allow-listed name becomes an
/// invocation of exactly that command with exactly the given arguments; any
/// other name is rejected with `NotPermitted`, carrying the name, and no
/// invocation exists for a launcher to run.
pub fn authorize_command(command: String, args: Vec<String>) -> (r: Result<
    Invocation,
    DispatchError,
>)
    ensures
        r is Ok <==> spec_allowed(command@),
        r matches Ok(inv) ==> inv.program@ == command@ && inv.args == args,
        r matches Err(e) ==> (e matches DispatchError::NotPermitted(name) && name@ == command@),
{
    if is_allowed(&command) {
        Ok(Invocation { program: command, args })
    } else {
        Err(DispatchError::NotPermitted(command))
    }
}

} // verus!
