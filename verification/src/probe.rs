//! The integrity probe: from a package identifier to an integrity score.
//!
//! The score is decided by marker words in the identifier. Finding a marker
//! is a plain substring search over the identifier's characters.

use vstd::prelude::*;
use vstd::std_specs::iter::IteratorSpec;
use crate::severity::{level_of, SeverityLevel};

verus! {

/// Score for an identifier that holds the corruption marker.
pub const SCORE_CORRUPT: u8 = 10;

/// Score for an identifier that holds the warning marker and not the
/// corruption marker.
pub const SCORE_WARN: u8 = 5;

/// Score for an identifier that holds neither marker.
pub const SCORE_CLEAN: u8 = 1;

/// `needle` stands in `hay` starting at position `at`.
pub open spec fn occurs_at(hay: Seq<char>, needle: Seq<char>, at: int) -> bool {
    &&& 0 <= at
    &&& at + needle.len() <= hay.len()
    &&& hay.subrange(at, at + needle.len()) == needle
}

/// `needle` stands somewhere in `hay` as a contiguous run of characters.
pub open spec fn contains_text(hay: Seq<char>, needle: Seq<char>) -> bool {
    exists|at: int| occurs_at(hay, needle, at)
}

/// The marker whose presence means corruption.
pub open spec fn corrupt_marker() -> Seq<char> {
    "corrupt"@
}

/// The marker whose presence means a warning.
pub open spec fn warn_marker() -> Seq<char> {
    "warn"@
}

/// The score of an identifier: the corruption marker outranks the warning
/// marker, and an identifier with neither is clean.
pub open spec fn score_of(pkg: Seq<char>) -> u8 {
    if contains_text(pkg, corrupt_marker()) {
        SCORE_CORRUPT
    } else if contains_text(pkg, warn_marker()) {
        SCORE_WARN
    } else {
        SCORE_CLEAN
    }
}

/// The characters of a string, in order.
pub fn chars_of(s: &str) -> (v: Vec<char>)
    ensures
        v@ == s@,
{
    broadcast use vstd::string::group_string_axioms;

    let mut rest = s.chars();
    let mut v: Vec<char> = Vec::new();
    loop
        invariant
            v@ + rest.remaining() == s@,
        decreases s@.len() - v@.len(),
    {
        match rest.next() {
            Some(c) => {
                v.push(c);
            },
            None => {
                return v;
            },
        }
    }
}

/// Whether `needle` stands in `hay` at position `at`. A position at which
/// `needle` would run past the end of `hay` holds no occurrence.
pub fn matches_at(hay: &Vec<char>, needle: &Vec<char>, at: usize) -> (found: bool)
    ensures
        found == occurs_at(hay@, needle@, at as int),
{
    let n = hay.len();
    let m = needle.len();
    if at > n || m > n - at {
        return false;
    }
    let mut j: usize = 0;
    while j < m
        invariant
            n == hay@.len(),
            m == needle@.len(),
            j <= m,
            at + m <= n,
            forall|k: int| 0 <= k < j ==> hay@[at + k] == needle@[k],
        decreases m - j,
    {
        if hay[at + j] != needle[j] {
            return false;
        }
        j = j + 1;
    }
    assert(hay@.subrange(at as int, at + m) =~= needle@);
    true
}

/// Whether `needle` stands somewhere in `hay`. The empty needle stands in
/// every text.
pub fn contains_chars(hay: &Vec<char>, needle: &Vec<char>) -> (found: bool)
    ensures
        found == contains_text(hay@, needle@),
{
    let n = hay.len();
    let m = needle.len();
    if m > n {
        return false;
    }
    let last = n - m;
    let mut at: usize = 0;
    loop
        invariant
            n == hay@.len(),
            m == needle@.len(),
            last == n - m,
            at <= last,
            forall|k: int| 0 <= k < at ==> !occurs_at(hay@, needle@, k),
        decreases last - at,
    {
        if matches_at(hay, needle, at) {
            return true;
        }
        if at == last {
            return false;
        }
        at = at + 1;
    }
}

/// Assesses the cache integrity of a package: 10 where its identifier holds
/// "corrupt", else 5 where it holds "warn", else 1. A function of the
/// identifier alone, so the same identifier always has the same score.
pub fn check_cache_integrity(pkg: &str) -> (score: u8)
    ensures
        score == score_of(pkg@),
{
    let text = chars_of(pkg);
    let corrupt = chars_of("corrupt");
    if contains_chars(&text, &corrupt) {
        return SCORE_CORRUPT;
    }
    let warn = chars_of("warn");
    if contains_chars(&text, &warn) {
        SCORE_WARN
    } else {
        SCORE_CLEAN
    }
}

/// The levels that the probe's scores reach: `Critical` with the corruption
/// marker, `Warning` with the warning marker alone, `Okay` with neither.
pub proof fn lemma_probe_levels(pkg: Seq<char>)
    ensures
        level_of(score_of(pkg)) == if contains_text(pkg, corrupt_marker()) {
            SeverityLevel::Critical
        } else if contains_text(pkg, warn_marker()) {
            SeverityLevel::Warning
        } else {
            SeverityLevel::Okay
        },
{
}

} // verus!
