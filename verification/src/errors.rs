//! The uniform failure side of every dispatcher operation.
//!
//! Every external call is recovered into a value of [`DispatchError`]; no
//! operation aborts the hosting process. The variants mirror the distinct
//! failure sources: the launcher itself, the launched tool, the command
//! allow-list, the session state guards, the input-name mappings, and the
//! parsers for structured tool output.

use vstd::prelude::*;

verus! {

/// Why a dispatched operation failed.
#[derive(Debug)]
pub enum DispatchError {
    /// The external executable could not be started at all (missing or
    /// unreadable); carries the launcher's own message.
    LauncherSpawnFailed(String),
    /// The tool ran but reported failure; carries its captured standard
    /// error text.
    NonZeroExit(String),
    /// A generic command name was not on the allow-list; carries the
    /// rejected name. Raised before any launcher is invoked.
    NotPermitted(String),
    /// A start/stop transition was requested while the session was already
    /// active/inactive; carries a description of the rejected transition.
    InvalidState(String),
    /// A key name has no mapping and is not a single character; carries the
    /// unmapped name.
    UnsupportedKey(String),
    /// The `(action, platform)` pair has no recipe in the strategy table.
    UnsupportedAction,
    /// Structured output from an external tool could not be decoded.
    ParseFailure,
}

} // verus!
