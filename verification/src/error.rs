//! The engine's flat failure taxonomy.
//!
//! Every failure is terminal for its invocation and is reported verbatim:
//! a script-level failure preserves the interpreter's captured output, an
//! OS-level failure carries the originating error, and the two resolution
//! failures (no interpreter, no child stdin handle) are bare tags.

use crate::output::Output;
use vstd::prelude::*;

verus! {

/// The child-process I/O errors the host hands back arrive as
/// `std::io::Error` values; the engine carries them through opaquely.
#[verifier::external_type_specification]
#[verifier::external_body]
pub struct ExIoError(std::io::Error);

/// Why a script run failed.
#[derive(Debug)]
pub enum PsError {
    /// The interpreter ran but the script terminated with a non-success
    /// status; the captured output is preserved for diagnosis.
    Powershell(Output),
    /// Spawning the child or writing to its pipes failed at the OS level.
    Io(std::io::Error),
    /// No usable interpreter executable could be resolved.
    PowershellNotFound,
    /// The spawned child's standard input handle could not be obtained.
    ChildStdinNotFound,
}

/// Relies on `std::io::Error`'s `Display` implementation for the diagnostic
/// text; nothing is assumed of what it says.
#[verifier::external_body]
fn io_error_text(e: &std::io::Error) -> String {
    e.to_string()
}

impl PsError {
    /// The human-readable rendering of the failure.  A script-level failure
    /// renders as the interpreter's own output; the two resolution failures
    /// have fixed texts; an OS-level failure renders as whatever the
    /// underlying error says of itself.
    pub fn message(&self) -> (r: String)
        ensures
            self matches PsError::Powershell(out) ==> r@ == out.spec_render(),
            self is PowershellNotFound ==> r@ == "Failed to find powershell on this system"@,
            self is ChildStdinNotFound ==> r@
                == "Failed to acquire a handle to stdin in the child process."@,
    {
        match self {
            PsError::Powershell(out) => out.render(),
            PsError::Io(e) => io_error_text(e),
            PsError::PowershellNotFound => String::from_str(
                "Failed to find powershell on this system",
            ),
            PsError::ChildStdinNotFound => String::from_str(
                "Failed to acquire a handle to stdin in the child process.",
            ),
        }
    }
}

impl From<std::io::Error> for PsError {
    /// Wraps an OS-level error from the child's pipes or spawn.
    fn from(e: std::io::Error) -> PsError {
        PsError::Io(e)
    }
}

impl vstd::std_specs::convert::FromSpecImpl<std::io::Error> for PsError {
    open spec fn obeys_from_spec() -> bool {
        true
    }

    open spec fn from_spec(e: std::io::Error) -> PsError {
        PsError::Io(e)
    }
}

} // verus!
