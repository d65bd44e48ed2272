//! A cross-platform desktop-automation library: a native-action dispatcher
//! that turns logical operations (launch, activate, minimize, maximize,
//! close, focus, list windows) into concrete external-tool invocations per
//! platform, plus the pure logic around input simulation (drag
//! interpolation, key-name mapping, scroll direction), window-list parsing,
//! allow-listed generic command execution, and session state guards.

pub mod actions;
pub mod avatar;
pub mod capture;
pub mod commands;
pub mod errors;
pub mod input;
pub mod outcome;
pub mod session;
pub mod strutil;
pub mod sysquery;
pub mod winlist;

pub use actions::Action;
pub use actions::ActionKind;
pub use actions::Invocation;
pub use actions::Platform;
pub use errors::DispatchError;
