//! The script streamer's line-oriented view of a script.
//!
//! A script is an opaque text blob; the engine feeds it to the child one
//! line at a time.  `split_lines` carves the blob into lines (a line is the
//! text between `\n` boundaries, with a `\r` that immediately precedes a
//! `\n` stripped; a final line needs no terminator).  `stream_plan` turns
//! the lines into the ordered actions the host performs: optionally echoing
//! each line to its own standard output immediately before forwarding it to
//! the child's standard input.

use vstd::prelude::*;

verus! {

/// One step of the streaming protocol: either echo a line on the host's own
/// standard output, or send it (followed by a newline) to the child's
/// standard input.
pub enum StreamAction {
    Echo { line: String },
    Send { line: String },
}

/// The text a streaming action carries.
pub open spec fn action_line(a: StreamAction) -> Seq<char> {
    match a {
        StreamAction::Echo { line } => line@,
        StreamAction::Send { line } => line@,
    }
}

/// Splits `s` into lines, carrying the line accumulated so far: a `\n` ends
/// the current line (with a trailing `\r` stripped); text after the last
/// `\n` forms a final, unstripped line only if it is nonempty.
pub open spec fn spec_lines_from(s: Seq<char>, cur: Seq<char>) -> Seq<Seq<char>>
    decreases s.len(),
{
    if s.len() == 0 {
        if cur.len() == 0 {
            Seq::<Seq<char>>::empty()
        } else {
            seq![cur]
        }
    } else if s[0] == '\n' {
        seq![spec_strip_cr(cur)] + spec_lines_from(s.skip(1), Seq::<char>::empty())
    } else {
        spec_lines_from(s.skip(1), cur.push(s[0]))
    }
}

/// The lines of a script, split at `\n` boundaries.
pub open spec fn spec_lines(s: Seq<char>) -> Seq<Seq<char>> {
    spec_lines_from(s, Seq::<char>::empty())
}

/// A line with its trailing carriage return removed, if it has one.
pub open spec fn spec_strip_cr(line: Seq<char>) -> Seq<char> {
    if line.len() > 0 && line.last() == '\r' {
        line.drop_last()
    } else {
        line
    }
}

/// An empty script has no lines, so nothing at all is streamed to the
/// child: the input pipe is closed immediately, and whatever outcome the
/// interpreter produces for no commands is classified as any other run is.
pub proof fn lemma_empty_script_streams_nothing(s: Seq<char>)
    requires
        s.len() == 0,
    ensures
        spec_lines(s).len() == 0,
{
}

/// Splits a script into the lines the streamer forwards, one `String` per
/// line, in order.
pub fn split_lines(script: &str) -> (lines: Vec<String>)
    ensures
        lines@.map_values(|l: String| l@) == spec_lines(script@),
{
    let n = script.unicode_len();
    let mut lines: Vec<String> = Vec::new();
    let mut start: usize = 0;
    let mut i: usize = 0;
    proof {
        assert(script@.skip(0) =~= script@);
        assert(script@.subrange(0, 0) =~= Seq::<char>::empty());
        assert(lines@.map_values(|l: String| l@) + spec_lines_from(script@, Seq::<char>::empty())
            =~= spec_lines(script@));
    }
    while i < n
        invariant
            n == script@.len(),
            0 <= start <= i <= n,
            lines@.map_values(|l: String| l@) + spec_lines_from(
                script@.skip(i as int),
                script@.subrange(start as int, i as int),
            ) == spec_lines(script@),
        decreases n - i,
    {
        let ghost rest = script@.skip(i as int);
        let ghost cur = script@.subrange(start as int, i as int);
        let c = script.get_char(i);
        assert(rest[0] == c);
        if c == '\n' {
            let end = if i > start && script.get_char(i - 1) == '\r' {
                i - 1
            } else {
                i
            };
            let piece = script.substring_char(start, end);
            let line = String::from_str(piece);
            proof {
                assert(line@ == spec_strip_cr(cur)) by {
                    if i > start && script@[i - 1] == '\r' {
                        assert(cur.len() > 0 && cur.last() == '\r');
                        assert(script@.subrange(start as int, i - 1) =~= cur.drop_last());
                    } else {
                        assert(!(cur.len() > 0 && cur.last() == '\r'));
                    }
                }
                assert(rest.skip(1) =~= script@.skip(i + 1));
                assert(script@.subrange(i + 1, i + 1) =~= Seq::<char>::empty());
            }
            lines.push(line);
            proof {
                assert(lines@.map_values(|l: String| l@) =~= lines@.drop_last().map_values(
                    |l: String| l@,
                ).push(line@));
            }
            start = i + 1;
        } else {
            proof {
                assert(rest.skip(1) =~= script@.skip(i + 1));
                assert(script@.subrange(start as int, i + 1) =~= cur.push(c));
            }
        }
        i = i + 1;
    }
    if start < n {
        let ghost cur = script@.subrange(start as int, n as int);
        let piece = script.substring_char(start, n);
        let line = String::from_str(piece);
        lines.push(line);
        proof {
            assert(script@.skip(n as int).len() == 0);
            assert(lines@.map_values(|l: String| l@) =~= lines@.drop_last().map_values(
                |l: String| l@,
            ).push(line@));
        }
    } else {
        proof {
            assert(script@.skip(n as int).len() == 0);
            assert(script@.subrange(start as int, n as int).len() == 0);
            assert(lines@.map_values(|l: String| l@) =~= spec_lines(script@));
        }
    }
    lines
}

/// The ordered actions that stream `script` to the child.  With `echo`
/// enabled every line is echoed on the host's output immediately before the
/// action that forwards it, keeping the script's own line order; without it no echo
/// action appears at all.
pub fn stream_plan(script: &str, echo: bool) -> (plan: Vec<StreamAction>)
    ensures
        echo ==> {
            &&& plan@.len() == 2 * spec_lines(script@).len()
            &&& forall|j: int|
                0 <= j < plan@.len() ==> #[trigger] action_line(plan@[j]) == spec_lines(script@)[j
                    / 2] && (plan@[j] is Echo <==> j % 2 == 0)
        },
        !echo ==> {
            &&& plan@.len() == spec_lines(script@).len()
            &&& forall|j: int|
                0 <= j < plan@.len() ==> #[trigger] action_line(plan@[j]) == spec_lines(script@)[j]
                    && plan@[j] is Send
        },
{
    let lines = split_lines(script);
    let ghost all = spec_lines(script@);
    let mut plan: Vec<StreamAction> = Vec::new();
    let mut k: usize = 0;
    while k < lines.len()
        invariant
            all == spec_lines(script@),
            lines@.map_values(|l: String| l@) == all,
            0 <= k <= lines@.len(),
            echo ==> plan@.len() == 2 * k,
            !echo ==> plan@.len() == k,
            forall|j: int|
                0 <= j < plan@.len() ==> #[trigger] action_line(plan@[j]) == all[if echo {
                    j / 2
                } else {
                    j
                }] && (if echo && j % 2 == 0 {
                    plan@[j] is Echo
                } else {
                    plan@[j] is Send
                }),
        decreases lines@.len() - k,
    {
        let line = &lines[k];
        if echo {
            plan.push(StreamAction::Echo { line: line.clone() });
        }
        plan.push(StreamAction::Send { line: line.clone() });
        k = k + 1;
    }
    plan
}

} // verus!
