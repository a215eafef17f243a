//! Assembly of the immutable invocation configuration.
//!
//! `PsScriptBuilder` collects the invocation options and `build` turns them
//! into a `PsScript`, whose argument list places the optional flag tokens
//! strictly before the terminal two-token "read commands from standard
//! input" directive: the interpreter parses flags positionally before that
//! point.

use vstd::prelude::*;

verus! {

/// The immutable configuration consumed by the engine: the interpreter's
/// argument list and the flags controlling window visibility and command
/// echoing.
pub struct PsScript {
    /// Tokens passed to the interpreter invocation, in order.
    pub args: Vec<String>,
    /// Whether the spawned process should avoid creating a visible window.
    /// Only the backslash-path platform has a window concept; elsewhere the
    /// flag is a no-op.
    pub hidden: bool,
    /// Whether each script line is echoed to the host's own standard output
    /// as it is sent to the child.
    pub print_commands: bool,
}

/// Builds a `PsScript` from a fluent set of option-setting calls.
pub struct PsScriptBuilder {
    no_profile: bool,
    non_interactive: bool,
    hidden: bool,
    print_commands: bool,
}

/// The argument list `build` produces: the enabled flag tokens, in declared
/// order, followed by the two-token directive telling the interpreter to
/// read commands from its standard input.
pub open spec fn spec_args(no_profile: bool, non_interactive: bool) -> Seq<Seq<char>> {
    let flags = if no_profile {
        seq!["-NoProfile"@]
    } else {
        Seq::<Seq<char>>::empty()
    };
    let flags = if non_interactive {
        flags.push("-NonInteractive"@)
    } else {
        flags
    };
    flags + seq!["-Command"@, "-"@]
}

impl PsScriptBuilder {
    /// Whether this builder requests that the interpreter skip its startup
    /// profile script.
    pub closed spec fn spec_no_profile(self) -> bool {
        self.no_profile
    }

    /// Whether this builder requests a run without interactive prompts.
    pub closed spec fn spec_non_interactive(self) -> bool {
        self.non_interactive
    }

    /// Whether this builder requests a windowless child process.
    pub closed spec fn spec_hidden(self) -> bool {
        self.hidden
    }

    /// Whether this builder requests that script lines be echoed.
    pub closed spec fn spec_print_commands(self) -> bool {
        self.print_commands
    }

    /// Creates a default builder with `no_profile`, `non_interactive` and
    /// `hidden` set to `true` and `print_commands` set to `false`.
    pub fn new() -> (r: Self)
        ensures
            r.spec_no_profile(),
            r.spec_non_interactive(),
            r.spec_hidden(),
            !r.spec_print_commands(),
    {
        Self::default()
    }

    /// Requests that environment-specific startup scripts not be loaded.
    pub fn no_profile(&mut self, flag: bool)
        ensures
            final(self).spec_no_profile() == flag,
            final(self).spec_non_interactive() == old(self).spec_non_interactive(),
            final(self).spec_hidden() == old(self).spec_hidden(),
            final(self).spec_print_commands() == old(self).spec_print_commands(),
    {
        self.no_profile = flag;
    }

    /// Requests that the script run without presenting interactive prompts.
    pub fn non_interactive(&mut self, flag: bool)
        ensures
            final(self).spec_non_interactive() == flag,
            final(self).spec_no_profile() == old(self).spec_no_profile(),
            final(self).spec_hidden() == old(self).spec_hidden(),
            final(self).spec_print_commands() == old(self).spec_print_commands(),
    {
        self.non_interactive = flag;
    }

    /// Requests that the interpreter window not be shown.  On platforms
    /// without a window concept this is a no-op.
    pub fn hidden(&mut self, flag: bool)
        ensures
            final(self).spec_hidden() == flag,
            final(self).spec_no_profile() == old(self).spec_no_profile(),
            final(self).spec_non_interactive() == old(self).spec_non_interactive(),
            final(self).spec_print_commands() == old(self).spec_print_commands(),
    {
        self.hidden = flag;
    }

    /// If set, each script line is printed to the host's standard output as
    /// it is sent to the child.
    pub fn print_commands(&mut self, flag: bool)
        ensures
            final(self).spec_print_commands() == flag,
            final(self).spec_no_profile() == old(self).spec_no_profile(),
            final(self).spec_non_interactive() == old(self).spec_non_interactive(),
            final(self).spec_hidden() == old(self).spec_hidden(),
    {
        self.print_commands = flag;
    }

    /// Produces the immutable configuration record.  The argument list is
    /// exactly `spec_args(no_profile, non_interactive)`: the enabled flag
    /// tokens come first, the stdin-read directive last.
    pub fn build(self) -> (r: PsScript)
        ensures
            r.args@.map_values(|a: String| a@) == spec_args(
                self.spec_no_profile(),
                self.spec_non_interactive(),
            ),
            r.hidden == self.spec_hidden(),
            r.print_commands == self.spec_print_commands(),
    {
        let mut args: Vec<String> = Vec::new();
        if self.no_profile {
            args.push(String::from_str("-NoProfile"));
        }
        if self.non_interactive {
            args.push(String::from_str("-NonInteractive"));
        }
        args.push(String::from_str("-Command"));
        args.push(String::from_str("-"));
        proof {
            assert(args@.map_values(|a: String| a@) =~= spec_args(
                self.no_profile,
                self.non_interactive,
            ));
        }
        PsScript { args, hidden: self.hidden, print_commands: self.print_commands }
    }
}

impl Default for PsScriptBuilder {
    /// Creates a default builder with `no_profile`, `non_interactive` and
    /// `hidden` set to `true` and `print_commands` set to `false`.
    fn default() -> (r: Self)
        ensures
            r.spec_no_profile(),
            r.spec_non_interactive(),
            r.spec_hidden(),
            !r.spec_print_commands(),
    {
        PsScriptBuilder {
            no_profile: true,
            non_interactive: true,
            hidden: true,
            print_commands: false,
        }
    }
}

/// When both `no_profile` and `non_interactive` are enabled, the resolved
/// argument list is exactly the two flag tokens, in declared order, followed
/// by the stdin-read directive; whatever the flags, the directive's two
/// tokens always close the list.
pub proof fn lemma_args_order(no_profile: bool, non_interactive: bool)
    ensures
        no_profile && non_interactive ==> spec_args(no_profile, non_interactive)
            =~= seq!["-NoProfile"@, "-NonInteractive"@, "-Command"@, "-"@],
        spec_args(no_profile, non_interactive).len() >= 2,
        spec_args(no_profile, non_interactive)[spec_args(no_profile, non_interactive).len() - 2]
            == "-Command"@,
        spec_args(no_profile, non_interactive)[spec_args(no_profile, non_interactive).len() - 1]
            == "-"@,
{
}

} // verus!
