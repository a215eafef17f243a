//! Run a block of script text in a PowerShell-family interpreter.
//!
//! The engine feeds a script to the interpreter one line at a time over the
//! child process's standard input, then collects its standard output,
//! standard error and exit status into a typed outcome.  This crate holds the
//! verified core: interpreter discovery decisions, configuration assembly,
//! line-oriented script streaming, and result classification.  The process,
//! environment and filesystem calls themselves live in the surrounding
//! (unverified) host layer, which drives them with the values this crate
//! computes.

use vstd::prelude::*;

pub mod builder;
pub mod error;
pub mod locator;
pub mod output;
pub mod script;

pub use builder::PsScript;
pub use builder::PsScriptBuilder;
pub use error::PsError;
pub use locator::candidate_paths;
pub use locator::fallback_path;
pub use locator::resolve_decision;
pub use output::collect_outcome;
pub use output::Output;
pub use output::RawOutput;
pub use script::split_lines;
pub use script::stream_plan;
pub use script::StreamAction;

verus! {

/// The two platform families the engine distinguishes.  They differ only in
/// the search-path separator, the availability of window suppression, and
/// the extra fallback search step on `Windows`.
#[derive(Clone, Copy, PartialEq, Eq, Structural, Debug)]
pub enum Platform {
    Windows,
    Unix,
}

/// The name of the interpreter executable to search for.  The choice between
/// the platform-default interpreter and the cross-platform "core" variant is
/// made once at startup by the host and injected here as a plain value.
pub fn interpreter_name(platform: Platform, use_core: bool) -> (name: &'static str)
    ensures
        name@ == spec_interpreter_name(platform, use_core),
{
    match platform {
        Platform::Windows => if use_core {
            "pwsh"
        } else {
            "PowerShell"
        },
        Platform::Unix => "pwsh",
    }
}

/// Which executable name the locator searches for.
pub open spec fn spec_interpreter_name(platform: Platform, use_core: bool) -> Seq<char> {
    if platform == Platform::Windows && !use_core {
        "PowerShell"@
    } else {
        "pwsh"@
    }
}

/// Separator between the entries of the search-path environment variable.
pub fn path_splitter(platform: Platform) -> (sep: char)
    ensures
        sep == spec_path_splitter(platform),
{
    match platform {
        Platform::Windows => ';',
        Platform::Unix => ':',
    }
}

/// `;` between backslash paths, `:` elsewhere.
pub open spec fn spec_path_splitter(platform: Platform) -> char {
    if platform == Platform::Windows {
        ';'
    } else {
        ':'
    }
}

} // verus!
