//! Decision logic of the Concord desktop shell: what an update check reports,
//! which step an update installation takes next, what is printed when the
//! application fails to start, and how the embedded webview is configured for
//! real-time media. The host framework performs every side effect; this crate
//! decides what those effects are.

pub mod update;
pub mod install;
pub mod startup;
pub mod webview;
