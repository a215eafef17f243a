//! Interpreter discovery.
//!
//! Resolution works in two steps, first success wins: look for the expected
//! executable name in every directory of the search-path environment
//! variable; failing that, on the backslash-path platform only, try the
//! fixed installation path under the system root.  The environment reads
//! and filesystem existence checks are the host's; this module computes the
//! candidate paths to check and takes the final decision from the checks'
//! results.  An entry of any kind with the expected name counts as found;
//! nothing verifies that it is executable.

use crate::error::PsError;
use crate::Platform;
use vstd::prelude::*;

verus! {

/// Splits a path list on its separator, carrying the entry accumulated so
/// far; every separator ends an entry, and the text after the last
/// separator is always an entry, so an empty list still has one (empty)
/// entry.
pub open spec fn spec_split_from(s: Seq<char>, sep: char, cur: Seq<char>) -> Seq<Seq<char>>
    decreases s.len(),
{
    if s.len() == 0 {
        seq![cur]
    } else if s[0] == sep {
        seq![cur] + spec_split_from(s.skip(1), sep, Seq::<char>::empty())
    } else {
        spec_split_from(s.skip(1), sep, cur.push(s[0]))
    }
}

/// The entries of a separator-delimited path list.
pub open spec fn spec_split(s: Seq<char>, sep: char) -> Seq<Seq<char>> {
    spec_split_from(s, sep, Seq::<char>::empty())
}

/// Whether `c` separates path components on `platform`: `/` everywhere,
/// and also `\` on the backslash-path platform.
pub open spec fn spec_is_sep(c: char, platform: Platform) -> bool {
    if platform == Platform::Windows {
        c == '\\' || c == '/'
    } else {
        c == '/'
    }
}

/// The separator inserted when joining path components.
pub open spec fn spec_main_sep(platform: Platform) -> char {
    if platform == Platform::Windows {
        '\\'
    } else {
        '/'
    }
}

/// A directory joined with a file name: an empty directory leaves the bare
/// name, a directory already ending in a separator is prefixed as it is,
/// and otherwise the platform's separator stands between the two.
pub open spec fn spec_join(dir: Seq<char>, name: Seq<char>, platform: Platform) -> Seq<char> {
    if dir.len() == 0 {
        name
    } else if spec_is_sep(dir.last(), platform) {
        dir + name
    } else {
        dir + seq![spec_main_sep(platform)] + name
    }
}

/// The paths the locator checks for the interpreter, one per entry of the
/// search-path variable, in order.
pub open spec fn spec_candidates(path_value: Seq<char>, name: Seq<char>, platform: Platform) -> Seq<
    Seq<char>,
> {
    spec_split(path_value, crate::spec_path_splitter(platform)).map_values(
        |dir: Seq<char>| spec_join(dir, name, platform),
    )
}

/// Splits a path list into its entries, in order, empty entries included.
pub fn split_entries(s: &str, sep: char) -> (entries: Vec<String>)
    ensures
        entries@.map_values(|e: String| e@) == spec_split(s@, sep),
{
    let n = s.unicode_len();
    let mut entries: Vec<String> = Vec::new();
    let mut start: usize = 0;
    let mut i: usize = 0;
    proof {
        assert(s@.skip(0) =~= s@);
        assert(s@.subrange(0, 0) =~= Seq::<char>::empty());
        assert(entries@.map_values(|e: String| e@) + spec_split_from(
            s@,
            sep,
            Seq::<char>::empty(),
        ) =~= spec_split(s@, sep));
    }
    while i < n
        invariant
            n == s@.len(),
            0 <= start <= i <= n,
            entries@.map_values(|e: String| e@) + spec_split_from(
                s@.skip(i as int),
                sep,
                s@.subrange(start as int, i as int),
            ) == spec_split(s@, sep),
        decreases n - i,
    {
        let ghost rest = s@.skip(i as int);
        let ghost cur = s@.subrange(start as int, i as int);
        let c = s.get_char(i);
        assert(rest[0] == c);
        if c == sep {
            let piece = s.substring_char(start, i);
            let entry = String::from_str(piece);
            proof {
                assert(rest.skip(1) =~= s@.skip(i + 1));
                assert(s@.subrange(i + 1, i + 1) =~= Seq::<char>::empty());
            }
            entries.push(entry);
            proof {
                assert(entries@.map_values(|e: String| e@) =~= entries@.drop_last().map_values(
                    |e: String| e@,
                ).push(entry@));
            }
            start = i + 1;
        } else {
            proof {
                assert(rest.skip(1) =~= s@.skip(i + 1));
                assert(s@.subrange(start as int, i + 1) =~= cur.push(c));
            }
        }
        i = i + 1;
    }
    let piece = s.substring_char(start, n);
    let entry = String::from_str(piece);
    entries.push(entry);
    proof {
        assert(s@.skip(n as int).len() == 0);
        assert(entries@.map_values(|e: String| e@) =~= entries@.drop_last().map_values(
            |e: String| e@,
        ).push(entry@));
    }
    entries
}

/// Joins a directory entry with the interpreter's file name.
pub fn join_candidate(dir: &str, name: &str, platform: Platform) -> (r: String)
    ensures
        r@ == spec_join(dir@, name@, platform),
{
    let n = dir.unicode_len();
    if n == 0 {
        String::from_str(name)
    } else {
        let last = dir.get_char(n - 1);
        let ends_with_sep = match platform {
            Platform::Windows => last == '\\' || last == '/',
            Platform::Unix => last == '/',
        };
        let mut r = String::from_str(dir);
        if !ends_with_sep {
            match platform {
                Platform::Windows => r.append("\\"),
                Platform::Unix => r.append("/"),
            }
            proof {
                reveal_strlit("\\");
                reveal_strlit("/");
                assert(dir@.last() == last);
                assert(r@ =~= dir@ + seq![spec_main_sep(platform)]);
            }
        }
        r.append(name);
        r
    }
}

/// The filesystem paths the locator checks for the interpreter: every entry
/// of the search-path variable's value, joined with the executable name, in
/// the order the entries appear.
pub fn candidate_paths(path_value: &str, name: &str, platform: Platform) -> (paths: Vec<String>)
    ensures
        paths@.map_values(|p: String| p@) == spec_candidates(path_value@, name@, platform),
{
    let sep = crate::path_splitter(platform);
    let entries = split_entries(path_value, sep);
    let ghost all = spec_candidates(path_value@, name@, platform);
    let mut paths: Vec<String> = Vec::new();
    let mut k: usize = 0;
    while k < entries.len()
        invariant
            all == spec_candidates(path_value@, name@, platform),
            entries@.map_values(|e: String| e@) == spec_split(
                path_value@,
                crate::spec_path_splitter(platform),
            ),
            0 <= k <= entries@.len(),
            paths@.map_values(|p: String| p@) =~= all.take(k as int),
        decreases entries@.len() - k,
    {
        let joined = join_candidate(entries[k].as_str(), name, platform);
        let ghost prev = paths@;
        proof {
            let views = entries@.map_values(|e: String| e@);
            assert(views[k as int] == entries@[k as int]@);
            assert(all[k as int] == spec_join(views[k as int], name@, platform));
        }
        paths.push(joined);
        proof {
            assert(all.len() == entries@.map_values(|e: String| e@).len());
            assert(prev.map_values(|p: String| p@).len() == all.take(k as int).len());
            assert(prev.len() == k);
            assert forall|j: int| 0 <= j < paths@.len() implies paths@.map_values(|p: String| p@)[j]
                == #[trigger] all.take(k + 1)[j] by {
                assert(paths@.map_values(|p: String| p@)[j] == paths@[j]@);
                if j < k {
                    assert(prev.map_values(|p: String| p@)[j] == all.take(k as int)[j]);
                    assert(paths@[j] == prev[j]);
                }
            }
            assert(paths@.map_values(|p: String| p@) =~= all.take(k + 1));
        }
        k = k + 1;
    }
    proof {
        assert(all.take(entries@.len() as int) =~= all);
    }
    paths
}

/// The fixed installation path tried on the backslash-path platform when
/// the search path has no interpreter: the interpreter executable under the
/// system root's `System32` tree.
pub fn fallback_path(system_root: &str) -> (r: String)
    ensures
        r@ == spec_join(
            system_root@,
            "System32\\WindowsPowerShell\\v1.0\\powershell.exe"@,
            Platform::Windows,
        ),
{
    join_candidate(system_root, "System32\\WindowsPowerShell\\v1.0\\powershell.exe", Platform::Windows)
}

/// The locator's final decision.  `found_on_path` says whether any
/// search-path candidate exists (false also when the search-path variable
/// is absent); `fallback` is the fixed installation path when the platform
/// has one, the system-root variable is set, and the path exists — `None`
/// otherwise.  Finding the name on the search path returns the bare name so
/// the launcher uses normal executable search; only when both steps fail is
/// the interpreter reported missing.
pub fn resolve_decision(name: &str, found_on_path: bool, fallback: Option<String>) -> (r: Result<
    String,
    PsError,
>)
    ensures
        r is Err <==> (!found_on_path && fallback is None),
        found_on_path ==> (r matches Ok(p) && p@ == name@),
        !found_on_path ==> (fallback matches Some(f) ==> (r matches Ok(p) && p == f)),
        r matches Err(e) ==> e is PowershellNotFound,
{
    if found_on_path {
        Ok(String::from_str(name))
    } else {
        match fallback {
            Some(p) => Ok(p),
            None => Err(PsError::PowershellNotFound),
        }
    }
}

} // verus!
