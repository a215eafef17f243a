//! The result collector's typed view of a finished child process.
//!
//! Once the child exits, the host hands the engine the raw capture — exit
//! success, buffered standard output bytes, buffered standard error bytes —
//! as a `RawOutput`.  `Output` wraps it with lossy text decoding (an empty
//! byte capture collapses to "no output" rather than an empty string), and
//! `collect_outcome` classifies the run: a successful exit status yields the
//! output, any other exit reports a script-level failure carrying the very
//! same captures.

use crate::error::PsError;
use vstd::prelude::*;

verus! {

/// The raw capture of a terminated child process: whether its exit status
/// signalled success, and the fully buffered bytes of its two output
/// streams.
#[derive(Debug)]
pub struct RawOutput {
    /// Whether the process's exit status indicates success.
    pub status_success: bool,
    /// Everything the child wrote to its standard output.
    pub stdout: Vec<u8>,
    /// Everything the child wrote to its standard error.
    pub stderr: Vec<u8>,
}

/// The text a byte capture decodes to: invalid sequences are replaced with
/// a substitution marker instead of failing the whole capture.
pub uninterp spec fn lossy_text(bytes: Seq<u8>) -> Seq<char>;

/// Relies on `String::from_utf8_lossy`: the decoded text is a function of
/// the captured bytes alone.
#[verifier::external_body]
fn decode_lossy(bytes: &Vec<u8>) -> (r: String)
    ensures
        r@ == lossy_text(bytes@),
{
    String::from_utf8_lossy(bytes).to_string()
}

/// A wrapper around the raw capture of a finished run, indicating whether
/// the script ran successfully and giving access to the decoded text of
/// both output streams.
#[derive(Debug)]
pub struct Output {
    inner: RawOutput,
}

impl Clone for Output {
    fn clone(&self) -> (r: Self)
        ensures
            r.stdout_bytes() == self.stdout_bytes(),
            r.stderr_bytes() == self.stderr_bytes(),
            r.spec_success() == self.spec_success(),
    {
        Output { inner: self.inner.clone() }
    }
}

impl Clone for RawOutput {
    fn clone(&self) -> (r: Self)
        ensures
            r.status_success == self.status_success,
            r.stdout@ == self.stdout@,
            r.stderr@ == self.stderr@,
    {
        RawOutput {
            status_success: self.status_success,
            stdout: self.stdout.clone(),
            stderr: self.stderr.clone(),
        }
    }
}

impl Output {
    /// The captured standard output bytes.
    pub closed spec fn stdout_bytes(self) -> Seq<u8> {
        self.inner.stdout@
    }

    /// The captured standard error bytes.
    pub closed spec fn stderr_bytes(self) -> Seq<u8> {
        self.inner.stderr@
    }

    /// Whether the run is recorded as successful.
    pub closed spec fn spec_success(self) -> bool {
        self.inner.status_success
    }

    /// The human-readable rendering: the decoded standard output text, if
    /// any, followed by the decoded standard error text, if any.
    pub open spec fn spec_render(self) -> Seq<char> {
        (if self.stdout_bytes().len() > 0 {
            lossy_text(self.stdout_bytes())
        } else {
            Seq::<char>::empty()
        }) + (if self.stderr_bytes().len() > 0 {
            lossy_text(self.stderr_bytes())
        } else {
            Seq::<char>::empty()
        })
    }

    /// Wraps a raw capture, recording whether the exit status signalled
    /// success.
    pub fn from(raw: RawOutput) -> (r: Output)
        ensures
            r.stdout_bytes() == raw.stdout@,
            r.stderr_bytes() == raw.stderr@,
            r.spec_success() == raw.status_success,
    {
        Output { inner: raw }
    }

    /// The decoded text of the child's standard output capture, or `None`
    /// if the child wrote nothing to it.
    pub fn stdout(&self) -> (r: Option<String>)
        ensures
            r is Some <==> self.stdout_bytes().len() > 0,
            r matches Some(text) ==> text@ == lossy_text(self.stdout_bytes()),
    {
        if self.inner.stdout.len() == 0 {
            None
        } else {
            Some(decode_lossy(&self.inner.stdout))
        }
    }

    /// The decoded text of the child's standard error capture, or `None`
    /// if the child wrote nothing to it.
    pub fn stderr(&self) -> (r: Option<String>)
        ensures
            r is Some <==> self.stderr_bytes().len() > 0,
            r matches Some(text) ==> text@ == lossy_text(self.stderr_bytes()),
    {
        if self.inner.stderr.len() == 0 {
            None
        } else {
            Some(decode_lossy(&self.inner.stderr))
        }
    }

    /// Gives the raw capture back.
    pub fn into_inner(self) -> (r: RawOutput)
        ensures
            r.stdout@ == self.stdout_bytes(),
            r.stderr@ == self.stderr_bytes(),
            r.status_success == self.spec_success(),
    {
        self.inner
    }

    /// Whether the script ran successfully.
    pub fn success(&self) -> (r: bool)
        ensures
            r == self.spec_success(),
    {
        self.inner.status_success
    }

    /// Renders the run for a human reader: the decoded standard output
    /// text, then the decoded standard error text, each only when the
    /// corresponding capture is nonempty.
    pub fn render(&self) -> (r: String)
        ensures
            r@ == self.spec_render(),
    {
        let mut text = String::new();
        if let Some(out) = self.stdout() {
            text.append(out.as_str());
        }
        if let Some(err) = self.stderr() {
            text.append(err.as_str());
        }
        text
    }
}

/// Classifies a finished run: a successful exit status yields the wrapped
/// output, any other exit yields a script-level failure that preserves the
/// same captures, so a caller can print the interpreter's diagnostics either
/// way.  No other failure kind can arise here.
pub fn collect_outcome(raw: RawOutput) -> (r: Result<Output, PsError>)
    ensures
        raw.status_success ==> (r matches Ok(out) && out.stdout_bytes() == raw.stdout@
            && out.stderr_bytes() == raw.stderr@ && out.spec_success()),
        !raw.status_success ==> (r matches Err(e) && (e matches PsError::Powershell(out)
            && out.stdout_bytes() == raw.stdout@ && out.stderr_bytes() == raw.stderr@
            && !out.spec_success())),
{
    let output = Output::from(raw);
    if output.success() {
        Ok(output)
    } else {
        Err(PsError::Powershell(output))
    }
}

/// Classification depends on the exit status alone: two runs whose exit
/// statuses agree are classified alike, whatever text the interpreter
/// happened to print.
pub proof fn lemma_classification_by_status(a: RawOutput, b: RawOutput)
    requires
        a.status_success == b.status_success,
    ensures
        spec_outcome_is_success(a) == spec_outcome_is_success(b),
{
}

/// Whether the collector classifies a raw capture as a success.
pub open spec fn spec_outcome_is_success(raw: RawOutput) -> bool {
    raw.status_success
}

} // verus!
