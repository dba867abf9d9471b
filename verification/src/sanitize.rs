//! Removal of terminal control sequences from diagnostic text.

use crate::text::to_chars;
use vstd::prelude::*;

verus! {

/// The escape character that introduces a terminal control sequence.
pub const ESCAPE: char = '\u{1b}';

/// Whether `c` is one of `A`..=`Z` or `a`..=`z`.
pub open spec fn is_ascii_letter(c: char) -> bool {
    ('A' <= c && c <= 'Z') || ('a' <= c && c <= 'z')
}

/// Where the control sequence whose parameters begin at `from` ends: just
/// past the first ASCII letter at or after `from`, or at the end of `s` when
/// no letter follows.
pub open spec fn sequence_end(s: Seq<char>, from: int) -> int
    decreases s.len() - from,
{
    if from < 0 || from >= s.len() {
        s.len() as int
    } else if is_ascii_letter(s[from]) {
        from + 1
    } else {
        sequence_end(s, from + 1)
    }
}

/// What is left of `s` from index `i` on once control sequences are removed.
///
/// An escape followed by `[` starts a sequence that runs through the next
/// ASCII letter; any other escape is dropped alone; every other character
/// stays.
pub open spec fn strip_from(s: Seq<char>, i: int) -> Seq<char>
    decreases s.len() - i,
{
    if i < 0 || i >= s.len() {
        Seq::empty()
    } else if s[i] != ESCAPE {
        seq![s[i]] + strip_from(s, i + 1)
    } else if i + 1 < s.len() && s[i + 1] == '[' {
        proof {
            lemma_sequence_end_bounds(s, i + 2);
        }
        strip_from(s, sequence_end(s, i + 2))
    } else {
        strip_from(s, i + 1)
    }
}

/// `s` with every terminal control sequence removed.
pub open spec fn stripped(s: Seq<char>) -> Seq<char> {
    strip_from(s, 0)
}

/// Whether `s` holds no escape character.
pub open spec fn escape_free(s: Seq<char>) -> bool {
    forall|k: int| 0 <= k < s.len() ==> s[k] != ESCAPE
}

/// A control sequence ends after where it starts and within the text.
pub proof fn lemma_sequence_end_bounds(s: Seq<char>, from: int)
    requires
        0 <= from <= s.len(),
    ensures
        from <= sequence_end(s, from) <= s.len(),
        from < s.len() ==> from < sequence_end(s, from),
    decreases s.len() - from,
{
    if from < s.len() && !is_ascii_letter(s[from]) {
        lemma_sequence_end_bounds(s, from + 1);
    }
}

fn is_letter(c: char) -> (b: bool)
    ensures
        b == is_ascii_letter(c),
{
    ('A' <= c && c <= 'Z') || ('a' <= c && c <= 'z')
}

/// Strips terminal control sequences from `input`.
pub fn strip_ansi(input: &str) -> (out: String)
    ensures
        out@ == stripped(input@),
{
    let chars = to_chars(input);
    let n = chars.len();
    let mut out = String::new();
    let mut i: usize = 0;
    while i < n
        invariant
            n == chars@.len(),
            i <= n,
            out@ + strip_from(chars@, i as int) == stripped(chars@),
        decreases n - i,
    {
        let ch = chars[i];
        if ch != ESCAPE {
            let ghost kept = out@;
            out.push(ch);
            assert(out@ + strip_from(chars@, i + 1) =~= kept + (seq![ch] + strip_from(
                chars@,
                i + 1,
            )));
            i += 1;
        } else if i + 1 < n && chars[i + 1] == '[' {
            let mut j: usize = i + 2;
            while j < n && !is_letter(chars[j])
                invariant
                    n == chars@.len(),
                    i + 2 <= j <= n,
                    sequence_end(chars@, j as int) == sequence_end(chars@, i + 2),
                decreases n - j,
            {
                j += 1;
            }
            if j < n {
                j += 1;
            }
            i = j;
        } else {
            i += 1;
        }
    }
    out
}

/// Nothing that `strip_from` keeps is an escape character.
pub proof fn lemma_strip_from_escape_free(s: Seq<char>, i: int)
    requires
        0 <= i <= s.len(),
    ensures
        escape_free(strip_from(s, i)),
    decreases s.len() - i,
{
    if i < s.len() {
        if s[i] != ESCAPE {
            lemma_strip_from_escape_free(s, i + 1);
        } else if i + 1 < s.len() && s[i + 1] == '[' {
            lemma_sequence_end_bounds(s, i + 2);
            lemma_strip_from_escape_free(s, sequence_end(s, i + 2));
        } else {
            lemma_strip_from_escape_free(s, i + 1);
        }
    }
}

/// Where no escape character occurs from `i` on, `strip_from` keeps
/// everything from `i` on.
pub proof fn lemma_strip_from_keeps_plain_text(s: Seq<char>, i: int)
    requires
        0 <= i <= s.len(),
        forall|k: int| i <= k < s.len() ==> s[k] != ESCAPE,
    ensures
        strip_from(s, i) == s.skip(i),
    decreases s.len() - i,
{
    if i < s.len() {
        lemma_strip_from_keeps_plain_text(s, i + 1);
        assert(seq![s[i]] + s.skip(i + 1) =~= s.skip(i));
    } else {
        assert(s.skip(i) =~= Seq::<char>::empty());
    }
}

/// The output of stripping holds no escape character.
pub proof fn lemma_stripped_is_escape_free(s: Seq<char>)
    ensures
        escape_free(stripped(s)),
{
    lemma_strip_from_escape_free(s, 0);
}

/// Stripping is the identity on text without an escape character.
pub proof fn lemma_strip_identity_on_plain_text(s: Seq<char>)
    requires
        escape_free(s),
    ensures
        stripped(s) == s,
{
    lemma_strip_from_keeps_plain_text(s, 0);
    assert(s.skip(0) =~= s);
}

/// Stripping twice gives the same text as stripping once.
pub proof fn lemma_strip_idempotent(s: Seq<char>)
    ensures
        stripped(stripped(s)) == stripped(s),
{
    lemma_stripped_is_escape_free(s);
    lemma_strip_identity_on_plain_text(stripped(s));
}

} // verus!
