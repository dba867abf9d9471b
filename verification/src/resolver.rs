//! Where the worker executable is looked for, and the search path its
//! process is started with.

use crate::text::{from_chars, to_chars};
use vstd::prelude::*;

verus! {

/// The path chosen for the worker executable, given for each known install
/// location, in order, whether a file exists there. A location without an
/// entry counts as absent.
pub open spec fn resolved_path(installed: Seq<bool>) -> Seq<char> {
    if installed.len() > 0 && installed[0] {
        "/usr/local/bin/ollama"@
    } else if installed.len() > 1 && installed[1] {
        "/opt/homebrew/bin/ollama"@
    } else {
        "ollama"@
    }
}

/// The known install locations of the worker executable, in the order in
/// which they are tried.
pub fn install_candidates() -> (paths: Vec<String>)
    ensures
        paths@.len() == 2,
        paths@[0]@ == "/usr/local/bin/ollama"@,
        paths@[1]@ == "/opt/homebrew/bin/ollama"@,
{
    let mut paths: Vec<String> = Vec::new();
    paths.push("/usr/local/bin/ollama".to_owned());
    paths.push("/opt/homebrew/bin/ollama".to_owned());
    paths
}

/// Picks the worker executable: the first install location at which a file
/// exists, else the bare command name, which is then looked up on the
/// search path when the process is started.
pub fn resolve_ollama_path(installed: &Vec<bool>) -> (path: String)
    ensures
        path@ == resolved_path(installed@),
{
    let candidates = install_candidates();
    let mut i: usize = 0;
    while i < candidates.len()
        invariant
            candidates@.len() == 2,
            candidates@[0]@ == "/usr/local/bin/ollama"@,
            candidates@[1]@ == "/opt/homebrew/bin/ollama"@,
            i <= 2,
            forall|k: int| 0 <= k < i && k < installed@.len() ==> !installed@[k],
        decreases candidates.len() - i,
    {
        if i < installed.len() && installed[i] {
            return candidates[i].clone();
        }
        i += 1;
    }
    "ollama".to_owned()
}

/// Whether `s` holds no `:`.
pub open spec fn colon_free(s: Seq<char>) -> bool {
    forall|k: int| 0 <= k < s.len() ==> s[k] != ':'
}

/// Whether `entry` stands in `path` at offset `at` as a whole field: what
/// comes before it is the start of `path` or a `:`, and what comes after
/// it is the end of `path` or a `:`.
pub open spec fn field_at(path: Seq<char>, entry: Seq<char>, at: int) -> bool {
    &&& 0 <= at
    &&& at + entry.len() <= path.len()
    &&& path.subrange(at, at + entry.len()) == entry
    &&& (at == 0 || path[at - 1] == ':')
    &&& (at + entry.len() == path.len() || path[at + entry.len()] == ':')
}

/// Whether `entry` is one of the fields of the `:`-separated list `path`.
pub open spec fn has_entry(path: Seq<char>, entry: Seq<char>) -> bool {
    colon_free(entry) && exists|at: int| field_at(path, entry, at)
}

/// `path`, with `entry` added behind a `:` unless it is one of its fields.
pub open spec fn with_entry(path: Seq<char>, entry: Seq<char>) -> Seq<char> {
    if has_entry(path, entry) {
        path
    } else {
        path + seq![':'] + entry
    }
}

/// The search path for the worker process: the inherited one, followed by
/// each known install directory that it lacks.
pub open spec fn augmented_search_path(path: Seq<char>) -> Seq<char> {
    with_entry(with_entry(path, "/usr/local/bin"@), "/opt/homebrew/bin"@)
}

fn is_colon_free(s: &Vec<char>) -> (b: bool)
    ensures
        b == colon_free(s@),
{
    let mut i: usize = 0;
    while i < s.len()
        invariant
            i <= s@.len(),
            forall|k: int| 0 <= k < i ==> s@[k] != ':',
        decreases s.len() - i,
    {
        if s[i] == ':' {
            return false;
        }
        i += 1;
    }
    true
}

fn same_chars(path: &Vec<char>, from: usize, to: usize, entry: &Vec<char>) -> (b: bool)
    requires
        from <= to <= path@.len(),
    ensures
        b == (path@.subrange(from as int, to as int) == entry@),
{
    if to - from != entry.len() {
        return false;
    }
    let mut i: usize = 0;
    while i < entry.len()
        invariant
            from <= to <= path@.len(),
            to - from == entry@.len(),
            i <= entry@.len(),
            forall|k: int| 0 <= k < i ==> path@[from + k] == entry@[k],
        decreases entry.len() - i,
    {
        if path[from + i] != entry[i] {
            assert(path@.subrange(from as int, to as int)[i as int] != entry@[i as int]);
            return false;
        }
        i += 1;
    }
    assert(path@.subrange(from as int, to as int) =~= entry@);
    true
}

/// Whether `entry` is one of the fields of the `:`-separated list `path`.
pub fn has_path_entry(path: &Vec<char>, entry: &Vec<char>) -> (found: bool)
    ensures
        found == has_entry(path@, entry@),
{
    if !is_colon_free(entry) {
        return false;
    }
    let n = path.len();
    let mut start: usize = 0;
    loop
        invariant
            n == path@.len(),
            start <= n,
            colon_free(entry@),
            start == 0 || path@[start - 1] == ':',
            forall|at: int| 0 <= at < start ==> !field_at(path@, entry@, at),
        decreases n - start,
    {
        let mut end: usize = start;
        while end < n && path[end] != ':'
            invariant
                n == path@.len(),
                start <= end <= n,
                forall|k: int| start <= k < end ==> path@[k] != ':',
            decreases n - end,
        {
            end += 1;
        }
        if same_chars(path, start, end, entry) {
            assert(field_at(path@, entry@, start as int));
            return true;
        }
        assert forall|at: int| start <= at <= end implies !field_at(path@, entry@, at) by {
            if field_at(path@, entry@, at) {
                if at > start {
                    assert(path@[at - 1] != ':');
                } else {
                    let stop = at + entry@.len();
                    if stop < end {
                        assert(path@[stop] != ':');
                    } else if stop > end {
                        assert(path@.subrange(at, stop)[end - at] == ':');
                    }
                }
            }
        }
        if end == n {
            assert forall|at: int| !field_at(path@, entry@, at) by {}
            return false;
        }
        start = end + 1;
    }
}

fn add_entry(path: &mut Vec<char>, entry: &str)
    ensures
        final(path)@ == with_entry(old(path)@, entry@),
{
    let wanted = to_chars(entry);
    if !has_path_entry(path, &wanted) {
        path.push(':');
        let mut i: usize = 0;
        while i < wanted.len()
            invariant
                i <= wanted@.len(),
                path@ == old(path)@ + seq![':'] + wanted@.take(i as int),
            decreases wanted.len() - i,
        {
            path.push(wanted[i]);
            assert(wanted@.take(i + 1) =~= wanted@.take(i as int).push(wanted@[i as int]));
            i += 1;
        }
        assert(wanted@.take(wanted@.len() as int) =~= wanted@);
    }
}

/// Builds the search path for the worker process from the inherited one.
pub fn augment_search_path(path_env: &str) -> (path: String)
    ensures
        path@ == augmented_search_path(path_env@),
{
    let mut chars = to_chars(path_env);
    add_entry(&mut chars, "/usr/local/bin");
    add_entry(&mut chars, "/opt/homebrew/bin");
    let n = chars.len();
    let path = from_chars(&chars, 0, n);
    assert(chars@.subrange(0, n as int) =~= chars@);
    path
}

} // verus!
