//! Stitching of overlapping partial transcriptions into one growing preview.
//!
//! Consecutive live windows overlap: the merge appends in the common case and
//! replaces the tail only when the new window reads as a revision of the
//! previous one. All lengths are counted in characters.

use vstd::prelude::*;
use vstd::string::StringExecFns;
use crate::strings::{ends_with, range_eq, starts_with, to_chars};

verus! {

/// A common prefix of at least this many characters marks a correction.
pub const CORRECTION_PREFIX_LONG: usize = 8;

/// A common prefix of at least this many characters marks a correction when
/// it also covers half of the shorter window.
pub const CORRECTION_PREFIX_SHORT: usize = 3;

/// The first index at or after `i` where `a` and `b` differ or one of them ends.
pub open spec fn common_prefix_from(a: Seq<char>, b: Seq<char>, i: nat) -> nat
    decreases a.len() - i,
{
    if i < a.len() && i < b.len() && a[i as int] == b[i as int] {
        common_prefix_from(a, b, i + 1)
    } else {
        i
    }
}

/// The number of leading characters that `a` and `b` share.
pub open spec fn common_prefix_len(a: Seq<char>, b: Seq<char>) -> nat {
    common_prefix_from(a, b, 0)
}

/// Whether the last `k` characters of `a` are the first `k` characters of `b`.
pub open spec fn is_overlap(a: Seq<char>, b: Seq<char>, k: nat) -> bool {
    k <= a.len() && k <= b.len() && a.subrange(a.len() - k, a.len() as int) == b.subrange(
        0,
        k as int,
    )
}

/// The largest overlap of `a`'s end with `b`'s start that is at most `k`
/// characters long, 0 if there is none.
pub open spec fn longest_overlap_upto(a: Seq<char>, b: Seq<char>, k: nat) -> nat
    decreases k,
{
    if k == 0 {
        0
    } else if is_overlap(a, b, k) {
        k
    } else {
        longest_overlap_upto(a, b, (k - 1) as nat)
    }
}

/// The length of the longest suffix of `a` that is a prefix of `b`.
pub open spec fn longest_overlap(a: Seq<char>, b: Seq<char>) -> nat {
    longest_overlap_upto(a, b, if a.len() <= b.len() { a.len() } else { b.len() })
}

/// Whether a common prefix of `lcp` characters lets the next window count as
/// a correction of the previous one.
pub open spec fn is_correction(lcp: nat, prev_len: nat, next_len: nat) -> bool {
    lcp >= 8 || (lcp >= 3 && 2 * lcp >= if prev_len <= next_len { prev_len } else { next_len })
}

/// What the merge yields when `acc` ends with `prev`.
pub open spec fn merged_on_tail(acc: Seq<char>, prev: Seq<char>, next: Seq<char>) -> Option<
    Seq<char>,
> {
    let base = acc.subrange(0, acc.len() - prev.len());
    let overlap = longest_overlap(prev, next);
    if starts_with(next, prev) {
        Some(base + next)
    } else if is_correction(common_prefix_len(prev, next), prev.len(), next.len()) {
        Some(base + next)
    } else if overlap > 0 {
        Some(acc + next.subrange(overlap as int, next.len() as int))
    } else {
        None
    }
}

/// The merged transcript.
pub open spec fn merged(acc: Seq<char>, prev: Seq<char>, next: Seq<char>) -> Seq<char> {
    if acc.len() == 0 || prev.len() == 0 {
        next
    } else if next.len() == 0 || next == prev {
        acc
    } else if ends_with(acc, prev) && merged_on_tail(acc, prev, next).is_some() {
        merged_on_tail(acc, prev, next).unwrap()
    } else if ends_with(acc, next) {
        acc
    } else {
        acc + next
    }
}

/// Counts the leading characters that `left` and `right` share.
pub fn common_prefix_chars(left: &str, right: &str) -> (n: usize)
    ensures
        n == common_prefix_len(left@, right@),
        n <= left@.len(),
        n <= right@.len(),
        left@.subrange(0, n as int) == right@.subrange(0, n as int),
        n < left@.len() && n < right@.len() ==> left@[n as int] != right@[n as int],
{
    let a = to_chars(left);
    let b = to_chars(right);
    common_prefix_of(&a, &b)
}

fn common_prefix_of(a: &Vec<char>, b: &Vec<char>) -> (n: usize)
    ensures
        n == common_prefix_len(a@, b@),
        n <= a@.len(),
        n <= b@.len(),
        a@.subrange(0, n as int) == b@.subrange(0, n as int),
        n < a@.len() && n < b@.len() ==> a@[n as int] != b@[n as int],
{
    let la = a.len();
    let lb = b.len();
    let mut i: usize = 0;
    while i < la && i < lb && a[i] == b[i]
        invariant
            la == a@.len(),
            lb == b@.len(),
            i <= la,
            i <= lb,
            common_prefix_from(a@, b@, i as nat) == common_prefix_len(a@, b@),
            a@.subrange(0, i as int) == b@.subrange(0, i as int),
        decreases la - i,
    {
        proof {
            assert(a@.subrange(0, i + 1) =~= a@.subrange(0, i as int).push(a@[i as int]));
            assert(b@.subrange(0, i + 1) =~= b@.subrange(0, i as int).push(b@[i as int]));
        }
        i = i + 1;
    }
    i
}

/// Finds the longest suffix of `left` that is a prefix of `right`, in
/// characters.
pub fn longest_suffix_prefix_chars(left: &str, right: &str) -> (n: usize)
    ensures
        n == longest_overlap(left@, right@),
        is_overlap(left@, right@, n as nat),
        forall|k: nat| n < k && #[trigger] is_overlap(left@, right@, k) ==> false,
{
    let a = to_chars(left);
    let b = to_chars(right);
    longest_overlap_of(&a, &b)
}

fn longest_overlap_of(a: &Vec<char>, b: &Vec<char>) -> (n: usize)
    ensures
        n == longest_overlap(a@, b@),
        is_overlap(a@, b@, n as nat),
        forall|k: nat| n < k && #[trigger] is_overlap(a@, b@, k) ==> false,
{
    let la = a.len();
    let lb = b.len();
    let max = if la <= lb { la } else { lb };
    let mut k: usize = max;
    while k > 0
        invariant
            la == a@.len(),
            lb == b@.len(),
            k <= max,
            max <= la,
            max <= lb,
            max == la || max == lb,
            longest_overlap_upto(a@, b@, k as nat) == longest_overlap(a@, b@),
            forall|j: nat| k < j <= max ==> !#[trigger] is_overlap(a@, b@, j),
        decreases k,
    {
        if range_eq(a, la - k, b, 0, k) {
            return k;
        }
        k = k - 1;
    }
    proof {
        assert(a@.subrange(a@.len() - 0, a@.len() as int) =~= b@.subrange(0, 0));
    }
    k
}

fn chars_end_with(s: &Vec<char>, suffix: &Vec<char>) -> (r: bool)
    ensures
        r == ends_with(s@, suffix@),
{
    let n = s.len();
    let m = suffix.len();
    if m > n {
        return false;
    }
    proof {
        assert(suffix@.subrange(0, m as int) =~= suffix@);
    }
    range_eq(s, n - m, suffix, 0, m)
}

fn chars_start_with(s: &Vec<char>, prefix: &Vec<char>) -> (r: bool)
    ensures
        r == starts_with(s@, prefix@),
{
    let n = s.len();
    let m = prefix.len();
    if m > n {
        return false;
    }
    proof {
        assert(prefix@.subrange(0, m as int) =~= prefix@);
    }
    range_eq(s, 0, prefix, 0, m)
}

fn chars_eq(a: &Vec<char>, b: &Vec<char>) -> (r: bool)
    ensures
        r == (a@ == b@),
{
    let n = a.len();
    if n != b.len() {
        return false;
    }
    proof {
        assert(a@.subrange(0, n as int) =~= a@);
        assert(b@.subrange(0, n as int) =~= b@);
    }
    range_eq(a, 0, b, 0, n)
}

/// The merge for a transcript that ends with the previous window: the
/// replaced or extended transcript, or `None` where the next window neither
/// extends, corrects nor overlaps the previous one.
fn merge_on_tail(
    accumulated: &str,
    next_window: &str,
    acc: &Vec<char>,
    prev: &Vec<char>,
    next: &Vec<char>,
) -> (out: Option<String>)
    requires
        acc@ == accumulated@,
        next@ == next_window@,
        ends_with(acc@, prev@),
    ensures
        out.is_some() == merged_on_tail(acc@, prev@, next@).is_some(),
        out.is_some() ==> out.unwrap()@ == merged_on_tail(acc@, prev@, next@).unwrap(),
{
    let acc_len = acc.len();
    let prev_len = prev.len();
    let next_len = next.len();
    let base = accumulated.substring_char(0, acc_len - prev_len);
    if chars_start_with(next, prev) {
        return Some(String::from_str(base).concat(next_window));
    }
    let lcp = common_prefix_of(prev, next);
    let shorter = if prev_len <= next_len { prev_len } else { next_len };
    if lcp >= CORRECTION_PREFIX_LONG || (lcp >= CORRECTION_PREFIX_SHORT && lcp >= shorter - lcp) {
        return Some(String::from_str(base).concat(next_window));
    }
    let overlap = longest_overlap_of(prev, next);
    if overlap > 0 {
        let rest = next_window.substring_char(overlap, next_len);
        return Some(String::from_str(accumulated).concat(rest));
    }
    None
}

/// Merges the next live window into the transcript accumulated so far.
///
/// `prev_window` is the window that was merged last. The rules, in order: an
/// empty transcript or previous window yields the next window; an empty or
/// repeated next window changes nothing; where the transcript ends with the
/// previous window, a next window that extends or corrects it replaces that
/// tail, and one that overlaps its end appends only what is new; a next
/// window that the transcript already ends with changes nothing; anything
/// else is appended whole.
pub fn merge_live_transcript(accumulated: &str, prev_window: &str, next_window: &str) -> (out:
    String)
    ensures
        out@ == merged(accumulated@, prev_window@, next_window@),
{
    let acc = to_chars(accumulated);
    let prev = to_chars(prev_window);
    let next = to_chars(next_window);
    if acc.len() == 0 || prev.len() == 0 {
        return String::from_str(next_window);
    }
    if next.len() == 0 || chars_eq(&next, &prev) {
        return String::from_str(accumulated);
    }
    if chars_end_with(&acc, &prev) {
        match merge_on_tail(accumulated, next_window, &acc, &prev, &next) {
            Some(out) => {
                return out;
            },
            None => {},
        }
    }
    if chars_end_with(&acc, &next) {
        return String::from_str(accumulated);
    }
    String::from_str(accumulated).concat(next_window)
}

/// An unchanged window leaves the transcript as it is.
pub proof fn merge_same_window_is_noop(transcript: Seq<char>, window: Seq<char>)
    requires
        transcript.len() > 0,
        window.len() > 0,
    ensures
        merged(transcript, window, window) == transcript,
{
}

} // verus!
