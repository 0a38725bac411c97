//! Start-up policy of a desktop application shell.
//!
//! The shell builds the host application with its database plugin and runs
//! the host's event loop. When that loop hands back an error the process
//! aborts with a fixed message followed by the error's debug text. The
//! decision of what to do once the loop has returned is made here, over
//! plain values; the program that owns the host performs it.
use vstd::prelude::*;

verus! {

/// The fixed part of the message with which the shell aborts.
pub open spec fn failure_message() -> Seq<char> {
    "error while running tauri application"@
}

/// The full abort message for an error whose debug text is `detail`:
/// the fixed message, a colon and a space, then the detail.
pub open spec fn abort_text(detail: Seq<char>) -> Seq<char> {
    failure_message() + ": "@ + detail
}

/// What the shell does once the host's event loop has returned.
#[derive(Debug, Clone, PartialEq, Eq)]
pub enum Shutdown {
    /// The loop ended without error: the shell returns normally.
    Clean,
    /// The loop failed: the shell aborts with this message.
    Abort(String),
}

/// Decides how the shell ends, given what the host's event loop returned
/// (`Err` carries the debug text of the host's error).
pub fn on_host_exit(outcome: Result<(), String>) -> (r: Shutdown)
    ensures
        outcome is Ok <==> r is Clean,
        outcome is Err ==> r is Abort && r->Abort_0@ == abort_text(outcome->Err_0@),
{
    match outcome {
        Ok(()) => Shutdown::Clean,
        Err(detail) => {
            let mut msg = String::from_str("error while running tauri application");
            msg.append(": ");
            msg.append(detail.as_str());
            Shutdown::Abort(msg)
        },
    }
}

} // verus!
