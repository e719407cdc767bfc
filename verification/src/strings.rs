//! Helpers on strings, all stated over the character sequence that a string
//! denotes.

use vstd::prelude::*;
use vstd::string::StringSliceAdditionalSpecFns;
use vstd::utf8::encode_utf8_decode_utf8;

verus! {

/// The characters of `s`, in order.
pub fn to_chars(s: &str) -> (v: Vec<char>)
    ensures
        v@ == s@,
{
    broadcast use vstd::string::axiom_spec_iter;

    let mut v: Vec<char> = Vec::new();
    for c in it: s.chars()
        invariant
            it.seq() == s@,
            v@ == it.seq().subrange(0, it.index() as int),
    {
        proof {
            assert(it.seq().subrange(0, it.index() + 1) =~= it.seq().subrange(
                0,
                it.index() as int,
            ).push(c));
        }
        v.push(c);
    }
    assert(s@.subrange(0, s@.len() as int) =~= s@);
    v
}

/// Whether two strings hold the same characters.
pub fn str_eq(a: &str, b: &str) -> (r: bool)
    ensures
        r == (a@ == b@),
{
    let x = a.as_bytes();
    let y = b.as_bytes();
    if x.len() != y.len() {
        return false;
    }
    let n = x.len();
    let mut i: usize = 0;
    while i < n
        invariant
            n == x@.len(),
            n == y@.len(),
            i <= n,
            x@ == a.spec_bytes(),
            y@ == b.spec_bytes(),
            forall|j: int| 0 <= j < i ==> x@[j] == y@[j],
        decreases n - i,
    {
        if x[i] != y[i] {
            return false;
        }
        i = i + 1;
    }
    proof {
        assert(x@ =~= y@);
        encode_utf8_decode_utf8(a@);
        encode_utf8_decode_utf8(b@);
    }
    true
}

/// Whether `s` ends with `suffix`.
pub open spec fn ends_with(s: Seq<char>, suffix: Seq<char>) -> bool {
    suffix.len() <= s.len() && s.subrange(s.len() - suffix.len(), s.len() as int) == suffix
}

/// Whether `s` starts with `prefix`.
pub open spec fn starts_with(s: Seq<char>, prefix: Seq<char>) -> bool {
    prefix.len() <= s.len() && s.subrange(0, prefix.len() as int) == prefix
}

/// Whether the `len` characters of `a` from `from_a` on equal the `len`
/// characters of `b` from `from_b` on.
pub(crate) fn range_eq(a: &Vec<char>, from_a: usize, b: &Vec<char>, from_b: usize, len: usize) -> (r: bool)
    requires
        from_a + len <= a@.len(),
        from_b + len <= b@.len(),
    ensures
        r == (a@.subrange(from_a as int, from_a + len) == b@.subrange(from_b as int, from_b + len)),
{
    let la = a.len();
    let lb = b.len();
    let mut i: usize = 0;
    while i < len
        invariant
            i <= len,
            la == a@.len(),
            lb == b@.len(),
            from_a + len <= la,
            from_b + len <= lb,
            a@.subrange(from_a as int, from_a + i) == b@.subrange(from_b as int, from_b + i),
        decreases len - i,
    {
        if a[from_a + i] != b[from_b + i] {
            proof {
                let sa = a@.subrange(from_a as int, from_a + len);
                let sb = b@.subrange(from_b as int, from_b + len);
                assert(sa[i as int] != sb[i as int]);
            }
            return false;
        }
        proof {
            let sa = a@.subrange(from_a as int, from_a + i);
            let sb = b@.subrange(from_b as int, from_b + i);
            assert(a@.subrange(from_a as int, from_a + i + 1) =~= sa.push(a@[from_a + i]));
            assert(b@.subrange(from_b as int, from_b + i + 1) =~= sb.push(b@[from_b + i]));
        }
        i = i + 1;
    }
    true
}

/// Whether `c` is white space: a character with the Unicode property
/// `White_Space`.
pub open spec fn is_whitespace_char(c: char) -> bool {
    let v = c as u32;
    (0x09 <= v <= 0x0d) || v == 0x20 || v == 0x85 || v == 0xa0 || v == 0x1680 || (0x2000 <= v
        <= 0x200a) || v == 0x2028 || v == 0x2029 || v == 0x202f || v == 0x205f || v == 0x3000
}

/// Whether `c` is white space.
pub fn char_is_whitespace(c: char) -> (r: bool)
    ensures
        r == is_whitespace_char(c),
{
    let v = c as u32;
    (0x09 <= v && v <= 0x0d) || v == 0x20 || v == 0x85 || v == 0xa0 || v == 0x1680 || (0x2000 <= v
        && v <= 0x200a) || v == 0x2028 || v == 0x2029 || v == 0x202f || v == 0x205f || v == 0x3000
}

/// Whether `s` holds nothing but white space.
pub open spec fn is_blank(s: Seq<char>) -> bool {
    forall|i: int| 0 <= i < s.len() ==> is_whitespace_char(#[trigger] s[i])
}

/// The first index at or after `from` that holds no white space, or the
/// length of `s`.
pub open spec fn skip_blanks(s: Seq<char>, from: int) -> int
    decreases s.len() - from,
{
    if 0 <= from < s.len() && is_whitespace_char(s[from]) {
        skip_blanks(s, from + 1)
    } else {
        from
    }
}

/// The least end at or below `to` after which nothing but white space
/// follows up to `to`.
pub open spec fn drop_blanks(s: Seq<char>, to: int) -> int
    decreases to,
{
    if 0 < to <= s.len() && is_whitespace_char(s[to - 1]) {
        drop_blanks(s, to - 1)
    } else {
        to
    }
}

/// `s` without its leading and trailing white space.
pub open spec fn trimmed(s: Seq<char>) -> Seq<char> {
    let start = skip_blanks(s, 0);
    if start >= s.len() {
        Seq::empty()
    } else {
        s.subrange(start, drop_blanks(s, s.len() as int))
    }
}

/// Where `skip_blanks` stops: below it lies white space only, and it holds
/// none itself.
pub proof fn lemma_skip_blanks(s: Seq<char>, from: int)
    requires
        0 <= from <= s.len(),
    ensures
        from <= skip_blanks(s, from) <= s.len(),
        forall|i: int| from <= i < skip_blanks(s, from) ==> is_whitespace_char(#[trigger] s[i]),
        skip_blanks(s, from) < s.len() ==> !is_whitespace_char(s[skip_blanks(s, from)]),
    decreases s.len() - from,
{
    if from < s.len() && is_whitespace_char(s[from]) {
        lemma_skip_blanks(s, from + 1);
    }
}

/// Where `drop_blanks` stops: above it lies white space only, and the
/// character before it is none.
pub proof fn lemma_drop_blanks(s: Seq<char>, to: int)
    requires
        0 <= to <= s.len(),
    ensures
        0 <= drop_blanks(s, to) <= to,
        forall|i: int| drop_blanks(s, to) <= i < to ==> is_whitespace_char(#[trigger] s[i]),
        drop_blanks(s, to) > 0 ==> !is_whitespace_char(s[drop_blanks(s, to) - 1]),
    decreases to,
{
    if 0 < to && is_whitespace_char(s[to - 1]) {
        lemma_drop_blanks(s, to - 1);
    }
}

/// Whether `s` holds nothing but white space.
pub fn str_is_blank(s: &str) -> (r: bool)
    ensures
        r == is_blank(s@),
        r == (trimmed(s@).len() == 0),
{
    let chars = to_chars(s);
    let start = skip_blanks_in(&chars);
    proof {
        lemma_skip_blanks(s@, 0);
        lemma_drop_blanks(s@, s@.len() as int);
    }
    start == chars.len()
}

fn skip_blanks_in(chars: &Vec<char>) -> (start: usize)
    ensures
        start == skip_blanks(chars@, 0),
        start <= chars@.len(),
{
    let n = chars.len();
    let mut i: usize = 0;
    while i < n && char_is_whitespace(chars[i])
        invariant
            n == chars@.len(),
            i <= n,
            skip_blanks(chars@, i as int) == skip_blanks(chars@, 0),
        decreases n - i,
    {
        i = i + 1;
    }
    i
}

fn drop_blanks_in(chars: &Vec<char>) -> (end: usize)
    ensures
        end == drop_blanks(chars@, chars@.len() as int),
        end <= chars@.len(),
{
    let n = chars.len();
    let mut j: usize = n;
    while j > 0 && char_is_whitespace(chars[j - 1])
        invariant
            n == chars@.len(),
            j <= n,
            drop_blanks(chars@, j as int) == drop_blanks(chars@, n as int),
        decreases j,
    {
        j = j - 1;
    }
    j
}

/// `s` without its leading and trailing white space.
pub fn trim(s: &str) -> (t: &str)
    ensures
        t@ == trimmed(s@),
{
    let chars = to_chars(s);
    let start = skip_blanks_in(&chars);
    if start >= chars.len() {
        return s.substring_char(0, 0);
    }
    let end = drop_blanks_in(&chars);
    proof {
        lemma_skip_blanks(s@, 0);
        lemma_drop_blanks(s@, s@.len() as int);
    }
    s.substring_char(start, end)
}

/// Whether `pattern` occurs in `s` at index `at`.
pub open spec fn occurs_at(s: Seq<char>, pattern: Seq<char>, at: int) -> bool {
    0 <= at && at + pattern.len() <= s.len() && s.subrange(at, at + pattern.len()) == pattern
}

/// The first index at or after `from` at which `pattern` occurs in `s`, or
/// the length of `s` plus one if there is none.
pub open spec fn first_occurrence_from(s: Seq<char>, pattern: Seq<char>, from: int) -> int
    decreases s.len() + 1 - from,
{
    if from < 0 || from + pattern.len() > s.len() {
        (s.len() + 1) as int
    } else if occurs_at(s, pattern, from) {
        from
    } else {
        first_occurrence_from(s, pattern, from + 1)
    }
}

/// Whether `pattern` occurs in `s`.
pub open spec fn contains_text(s: Seq<char>, pattern: Seq<char>) -> bool {
    first_occurrence_from(s, pattern, 0) <= s.len()
}

/// `first_occurrence_from` finds an occurrence and passes over none.
pub proof fn lemma_first_occurrence_from(s: Seq<char>, pattern: Seq<char>, from: int)
    requires
        0 <= from,
    ensures
        ({
            let at = first_occurrence_from(s, pattern, from);
            &&& at <= s.len() ==> from <= at && occurs_at(s, pattern, at)
            &&& at > s.len() ==> at == s.len() + 1
            &&& forall|i: int| from <= i && i < at ==> !occurs_at(s, pattern, i)
        }),
    decreases s.len() + 1 - from,
{
    if from + pattern.len() > s.len() {
    } else if occurs_at(s, pattern, from) {
    } else {
        lemma_first_occurrence_from(s, pattern, from + 1);
    }
}

/// The first index at or after `from` at which `pattern` occurs in `s`.
pub fn find_in(s: &Vec<char>, pattern: &Vec<char>, from: usize) -> (found: Option<usize>)
    ensures
        match found {
            Some(at) => at == first_occurrence_from(s@, pattern@, from as int) && at <= s@.len(),
            None => first_occurrence_from(s@, pattern@, from as int) > s@.len(),
        },
{
    let n = s.len();
    let m = pattern.len();
    if m > n || from > n - m {
        return None;
    }
    let mut i: usize = from;
    loop
        invariant
            n == s@.len(),
            m == pattern@.len(),
            m <= n,
            from <= i,
            i <= n - m,
            first_occurrence_from(s@, pattern@, i as int) == first_occurrence_from(
                s@,
                pattern@,
                from as int,
            ),
        decreases n - m - i,
    {
        proof {
            assert(pattern@.subrange(0, m as int) =~= pattern@);
        }
        if range_eq(s, i, pattern, 0, m) {
            return Some(i);
        }
        if i == n - m {
            proof {
                assert(first_occurrence_from(s@, pattern@, i + 1) == s@.len() + 1);
            }
            return None;
        }
        i = i + 1;
    }
}

/// Whether `s` starts with `prefix`.
pub fn str_starts_with(s: &str, prefix: &str) -> (r: bool)
    ensures
        r == starts_with(s@, prefix@),
{
    let a = to_chars(s);
    let b = to_chars(prefix);
    if b.len() > a.len() {
        return false;
    }
    proof {
        assert(b@.subrange(0, b@.len() as int) =~= b@);
    }
    range_eq(&a, 0, &b, 0, b.len())
}

/// Whether `s` ends with `suffix`.
pub fn str_ends_with(s: &str, suffix: &str) -> (r: bool)
    ensures
        r == ends_with(s@, suffix@),
{
    let a = to_chars(s);
    let b = to_chars(suffix);
    if b.len() > a.len() {
        return false;
    }
    proof {
        assert(b@.subrange(0, b@.len() as int) =~= b@);
    }
    range_eq(&a, a.len() - b.len(), &b, 0, b.len())
}

/// Whether `pattern` occurs in `s`.
pub fn str_contains(s: &str, pattern: &str) -> (r: bool)
    ensures
        r == contains_text(s@, pattern@),
{
    let a = to_chars(s);
    let b = to_chars(pattern);
    find_in(&a, &b, 0).is_some()
}

/// The code of `c`, with an upper-case ASCII letter taken as its lower-case
/// one.
pub open spec fn ascii_folded(c: char) -> u32 {
    let v = c as u32;
    if 0x41 <= v <= 0x5a {
        (v + 0x20) as u32
    } else {
        v
    }
}

/// Whether `a` and `b` are equal but for the case of their ASCII letters.
pub open spec fn eq_ignoring_ascii_case(a: Seq<char>, b: Seq<char>) -> bool {
    a.len() == b.len() && forall|i: int|
        0 <= i < a.len() ==> ascii_folded(#[trigger] a[i]) == ascii_folded(b[i])
}

fn fold_ascii(c: char) -> (v: u32)
    ensures
        v == ascii_folded(c),
{
    let v = c as u32;
    if 0x41 <= v && v <= 0x5a {
        v + 0x20
    } else {
        v
    }
}

/// Whether `a` and `b` are equal but for the case of their ASCII letters.
pub fn str_eq_ignore_ascii_case(a: &str, b: &str) -> (r: bool)
    ensures
        r == eq_ignoring_ascii_case(a@, b@),
{
    let x = to_chars(a);
    let y = to_chars(b);
    let n = x.len();
    if n != y.len() {
        return false;
    }
    let mut i: usize = 0;
    while i < n
        invariant
            i <= n,
            n == x@.len(),
            n == y@.len(),
            x@ == a@,
            y@ == b@,
            forall|j: int| 0 <= j < i ==> ascii_folded(#[trigger] x@[j]) == ascii_folded(y@[j]),
        decreases n - i,
    {
        if fold_ascii(x[i]) != fold_ascii(y[i]) {
            assert(ascii_folded(x@[i as int]) != ascii_folded(y@[i as int]));
            return false;
        }
        i = i + 1;
    }
    true
}

} // verus!
