//! Capability probe: decides from the help text of the escalation binary
//! whether it accepts the pty-allocation flag.

use vstd::prelude::*;
use crate::error::AppError;

verus! {

/// ASCII lower-casing of one byte; other bytes are left alone.
pub open spec fn ascii_lower(b: u8) -> u8 {
    if 65 <= b <= 90 {
        (b + 32) as u8
    } else {
        b
    }
}

/// `needle` occurs in `hay` at byte offset `i`, comparing ASCII letters
/// without regard to case (the needle is written in lower case).
pub open spec fn matches_at(hay: Seq<u8>, needle: Seq<char>, i: int) -> bool {
    &&& 0 <= i
    &&& i + needle.len() <= hay.len()
    &&& forall|j: int| 0 <= j < needle.len() ==> ascii_lower(#[trigger] hay[i + j]) as int == needle[j] as int
}

/// `needle` occurs somewhere in `hay`, ASCII case ignored.
pub open spec fn contains_folded(hay: Seq<u8>, needle: Seq<char>) -> bool {
    exists|i: int| #[trigger] matches_at(hay, needle, i)
}

/// Strings in a help text that identify an escalation binary able to
/// allocate a pty on request. Each is written in lower case.
pub open spec fn pty_signatures() -> Seq<Seq<char>> {
    seq!["magisk"@]
}

/// The help text carries one of the pty signatures.
pub open spec fn has_pty_signature(help: Seq<u8>) -> bool {
    exists|k: int| 0 <= k < pty_signatures().len() && #[trigger] contains_folded(help, pty_signatures()[k])
}

fn signature_table() -> (r: Vec<&'static str>)
    ensures
        r@.len() == pty_signatures().len(),
        forall|k: int| 0 <= k < r@.len() ==> (#[trigger] r@[k])@ == pty_signatures()[k],
{
    vec!["magisk"]
}

/// Whether `needle` matches `hay` at offset `i`.
fn matches_here(hay: &[u8], needle: &str, needle_len: usize, i: usize) -> (r: bool)
    requires
        needle_len == needle@.len(),
        i + needle_len <= hay@.len(),
        hay@.len() <= usize::MAX,
    ensures
        r == matches_at(hay@, needle@, i as int),
{
    let mut j: usize = 0;
    while j < needle_len
        invariant
            needle_len == needle@.len(),
            i + needle_len <= hay@.len(),
            hay@.len() <= usize::MAX,
            j <= needle_len,
            forall|t: int| 0 <= t < j ==> ascii_lower(#[trigger] hay@[i + t]) as int == needle@[t] as int,
        decreases needle_len - j,
    {
        let b = hay[i + j];
        let lowered: u8 = if 65 <= b && b <= 90 { b + 32 } else { b };
        let c = needle.get_char(j);
        if lowered as u32 != c as u32 {
            assert(ascii_lower(hay@[i + j]) as int != needle@[j as int] as int);
            return false;
        }
        j = j + 1;
    }
    true
}

/// Whether `needle` occurs in `hay`, ignoring the case of ASCII letters in
/// `hay`.
pub fn contains_ignoring_case(hay: &[u8], needle: &str) -> (r: bool)
    ensures
        r == contains_folded(hay@, needle@),
{
    let needle_len = needle.unicode_len();
    if needle_len > hay.len() {
        assert forall|i: int| !matches_at(hay@, needle@, i) by {}
        return false;
    }
    let last = hay.len() - needle_len;
    assert(hay@.len() <= usize::MAX);
    let mut i: usize = 0;
    loop
        invariant
            needle_len == needle@.len(),
            last + needle_len == hay@.len(),
            hay@.len() <= usize::MAX,
            i <= last,
            forall|t: int| 0 <= t < i ==> !#[trigger] matches_at(hay@, needle@, t),
        decreases last - i,
    {
        if matches_here(hay, needle, needle_len, i) {
            return true;
        }
        if i == last {
            assert forall|t: int| !#[trigger] matches_at(hay@, needle@, t) by {
                if 0 <= t < i {
                }
            }
            return false;
        }
        i = i + 1;
    }
}

/// Whether the help text of the escalation binary names a variant that
/// supports the pty-allocation flag.
pub fn has_signature(help: &[u8]) -> (r: bool)
    ensures
        r == has_pty_signature(help@),
{
    let table = signature_table();
    let mut k: usize = 0;
    while k < table.len()
        invariant
            table@.len() == pty_signatures().len(),
            forall|m: int| 0 <= m < table@.len() ==> (#[trigger] table@[m])@ == pty_signatures()[m],
            forall|m: int| 0 <= m < k ==> !#[trigger] contains_folded(help@, pty_signatures()[m]),
        decreases table@.len() - k,
    {
        if contains_ignoring_case(help, table[k]) {
            assert(contains_folded(help@, pty_signatures()[k as int]));
            return true;
        }
        k = k + 1;
    }
    false
}

/// What the installed escalation binary supports.
#[derive(Clone, Copy, Debug, PartialEq, Eq, Structural)]
pub struct Capability {
    /// Whether it accepts `-i` to allocate a pty.
    pub supports_pty_flag: bool,
}

/// The verdict on a help invocation that exited successfully or not
/// (`success`), with code `exit_code` when there was one, and printed
/// `stdout`. A failed invocation is an error: without it the pty flag
/// cannot be decided.
pub fn probe_verdict(success: bool, exit_code: Option<i32>, stdout: &[u8]) -> (r: Result<
    Capability,
    AppError,
>)
    ensures
        !success ==> (r matches Err(AppError::ProbeFailed { exit_code: c }) && c == exit_code),
        success ==> (r matches Ok(cap) && cap.supports_pty_flag == has_pty_signature(stdout@)),
{
    if !success {
        return Err(AppError::ProbeFailed { exit_code });
    }
    Ok(Capability { supports_pty_flag: has_signature(stdout) })
}

} // verus!
