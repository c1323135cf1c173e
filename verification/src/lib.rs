//! A desktop-workspace launcher core: descriptors for the applications a
//! workspace contains, a launcher that turns one descriptor into a concrete
//! launch plan, a batch orchestrator that sequences launches and reports
//! progress, and the decision logic of a persistent workspace store.
//!
//! Everything here is pure computation over plain values; the surrounding
//! binary performs the actual process spawning, waiting and file access and
//! feeds the results back in.

use vstd::prelude::*;

pub mod appinfo;
pub mod args;
pub mod batch;
pub mod launcher;
pub mod store;

verus! {

/// One application a workspace asks to launch: an identifier, a display
/// name, the executable's path, an optional whitespace-delimited argument
/// string, and an optional delay in seconds to wait before spawning.
#[derive(Debug, Clone)]
pub struct WorkspaceApp {
    pub id: String,
    pub name: String,
    pub path: String,
    pub args: Option<String>,
    pub delay: Option<u64>,
}

/// The per-item outcome of one launch attempt. `error` carries the spawn
/// error message exactly when the launch failed.
#[derive(Debug)]
pub struct LaunchResult {
    pub success: bool,
    pub app_id: String,
    pub error: Option<String>,
}

/// A `LaunchResult` is well formed when its error field is populated
/// exactly on failure.
pub open spec fn result_well_formed(r: LaunchResult) -> bool {
    r.error is Some <==> !r.success
}

/// A friendly greeting for `name`.
pub fn greet(name: &str) -> (r: String)
    ensures
        r@ == "Hello, "@ + name@ + "! You've been greeted from Rust!"@,
{
    String::from_str("Hello, ").concat(name).concat("! You've been greeted from Rust!")
}

} // verus!
