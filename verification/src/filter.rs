//! Cleaning of raw transcripts: filler words go, stutters collapse, white
//! space is tidied.
//!
//! What a regular expression matches and how Unicode classes and cases its
//! letters is known to the `regex` crate and the standard library, not to
//! this one: contracts speak of their results by name.

use vstd::prelude::*;
use vstd::string::StringExecFns;
use vstd::utf8::encode_utf8;
use crate::strings::{char_is_whitespace, is_whitespace_char, str_eq, to_chars, trim, trimmed};

verus! {

/// Whether `pattern` is a regular expression that the `regex` crate
/// compiles.
pub uninterp spec fn regex_compiles(pattern: Seq<char>) -> bool;

/// `text` with every match of the regular expression `pattern` replaced by
/// `replacement`, as the `regex` crate does it.
pub uninterp spec fn regex_replaced(
    pattern: Seq<char>,
    text: Seq<char>,
    replacement: Seq<char>,
) -> Seq<char>;

/// Whether `c` is alphabetic by Unicode.
pub uninterp spec fn unicode_alphabetic(c: char) -> bool;

/// Whether `c` is alphabetic or numeric by Unicode.
pub uninterp spec fn unicode_alphanumeric(c: char) -> bool;

/// Whether `c` is an upper-case letter by Unicode.
pub uninterp spec fn unicode_uppercase(c: char) -> bool;

/// `text` in lower case by Unicode.
pub uninterp spec fn lowercased(text: Seq<char>) -> Seq<char>;

/// `text` in upper case by Unicode.
pub uninterp spec fn uppercased(text: Seq<char>) -> Seq<char>;

/// Compiles `pattern` with `regex::Regex::new` and replaces every match in
/// `text` with `Regex::replace_all`. The answer is none exactly if the
/// pattern does not compile. What matches and what takes its place is a
/// matter of the pattern, the text and the replacement alone.
#[verifier::external_body]
fn regex_replace_all(pattern: &str, text: &str, replacement: &str) -> (replaced: Option<String>)
    ensures
        replaced.is_some() == regex_compiles(pattern@),
        replaced.is_some() ==> replaced.unwrap()@ == regex_replaced(
            pattern@,
            text@,
            replacement@,
        ),
{
    match regex::Regex::new(pattern) {
        Ok(re) => Some(re.replace_all(text, replacement).into_owned()),
        Err(_) => None,
    }
}

/// Whether `c` has a meaning of its own in a regular expression.
pub open spec fn is_meta_char(c: char) -> bool {
    c == '\\' || c == '.' || c == '+' || c == '*' || c == '?' || c == '(' || c == ')' || c == '|'
        || c == '[' || c == ']' || c == '{' || c == '}' || c == '^' || c == '$' || c == '#' || c
        == '&' || c == '-' || c == '~'
}

/// `text` with a backslash before each character that has a meaning of its
/// own in a regular expression.
pub open spec fn escaped(text: Seq<char>) -> Seq<char>
    decreases text.len(),
{
    if text.len() == 0 {
        Seq::empty()
    } else if is_meta_char(text.last()) {
        escaped(text.drop_last()).push('\\').push(text.last())
    } else {
        escaped(text.drop_last()).push(text.last())
    }
}

/// `regex::escape`: the text with a backslash before each of the characters
/// `\ . + * ? ( ) | [ ] { } ^ $ # & - ~`.
#[verifier::external_body]
fn regex_escape(text: &str) -> (quoted: String)
    ensures
        quoted@ == escaped(text@),
{
    regex::escape(text)
}

/// `char::is_alphabetic`: whether the character is alphabetic by Unicode.
/// Nothing is claimed of the answer but that it depends on the character
/// alone.
#[verifier::external_body]
fn char_is_alphabetic(c: char) -> (r: bool)
    ensures
        r == unicode_alphabetic(c),
{
    c.is_alphabetic()
}

/// `char::is_alphanumeric`: whether the character is alphabetic or numeric
/// by Unicode. Nothing is claimed of the answer but that it depends on the
/// character alone.
#[verifier::external_body]
fn char_is_alphanumeric(c: char) -> (r: bool)
    ensures
        r == unicode_alphanumeric(c),
{
    c.is_alphanumeric()
}

/// `char::is_uppercase`: whether the character is an upper-case letter by
/// Unicode. Nothing is claimed of the answer but that it depends on the
/// character alone.
#[verifier::external_body]
fn char_is_uppercase(c: char) -> (r: bool)
    ensures
        r == unicode_uppercase(c),
{
    c.is_uppercase()
}

/// `str::to_lowercase`: the text in lower case by Unicode. Nothing is
/// claimed of the result but that it depends on the text alone.
#[verifier::external_body]
fn str_to_lowercase(text: &str) -> (lower: String)
    ensures
        lower@ == lowercased(text@),
{
    text.to_lowercase()
}

/// `str::to_uppercase`: the text in upper case by Unicode. Nothing is
/// claimed of the result but that it depends on the text alone.
#[verifier::external_body]
fn str_to_uppercase(text: &str) -> (upper: String)
    ensures
        upper@ == uppercased(text@),
{
    text.to_uppercase()
}

/// The first index at or after `from` that holds white space, or the length
/// of `s`.
pub open spec fn word_end(s: Seq<char>, from: int) -> int
    decreases s.len() - from,
{
    if 0 <= from < s.len() && !is_whitespace_char(s[from]) {
        word_end(s, from + 1)
    } else {
        from
    }
}

/// The words of `s` from `from` on: its stretches without white space.
pub open spec fn words_from(s: Seq<char>, from: int) -> Seq<Seq<char>>
    decreases s.len() - from,
{
    if from < 0 || from >= s.len() {
        Seq::empty()
    } else if is_whitespace_char(s[from]) {
        words_from(s, from + 1)
    } else {
        let end = word_end(s, from);
        if from < end <= s.len() {
            seq![s.subrange(from, end)] + words_from(s, end)
        } else {
            Seq::empty()
        }
    }
}

/// The words of `s`.
pub open spec fn words_of(s: Seq<char>) -> Seq<Seq<char>> {
    words_from(s, 0)
}

/// `words`, with one space between each two.
pub open spec fn joined(words: Seq<Seq<char>>) -> Seq<char>
    decreases words.len(),
{
    if words.len() == 0 {
        Seq::empty()
    } else if words.len() == 1 {
        words[0]
    } else {
        joined(words.drop_last()) + " "@ + words.last()
    }
}

/// Where a word ends.
pub proof fn lemma_word_end(s: Seq<char>, from: int)
    requires
        0 <= from < s.len(),
        !is_whitespace_char(s[from]),
    ensures
        from < word_end(s, from) <= s.len(),
    decreases s.len() - from,
{
    if from + 1 < s.len() && !is_whitespace_char(s[from + 1]) {
        lemma_word_end(s, from + 1);
    } else {
        assert(word_end(s, from + 1) == from + 1);
    }
}

/// The words of `text`: its stretches without white space, in order.
pub fn split_words(text: &str) -> (words: Vec<String>)
    ensures
        words@.map_values(|w: String| w@) == words_of(text@),
{
    let chars = to_chars(text);
    let n = chars.len();
    let mut words: Vec<String> = Vec::new();
    let mut i: usize = 0;
    while i < n
        invariant
            i <= n,
            n == chars@.len(),
            chars@ == text@,
            words@.map_values(|w: String| w@) + words_from(text@, i as int) == words_of(text@),
        decreases n - i,
    {
        if char_is_whitespace(chars[i]) {
            i = i + 1;
        } else {
            let start = i;
            let mut end: usize = i + 1;
            while end < n && !char_is_whitespace(chars[end])
                invariant
                    start < end <= n,
                    n == chars@.len(),
                    word_end(chars@, end as int) == word_end(chars@, start as int),
                decreases n - end,
            {
                end = end + 1;
            }
            let word = String::from_str(text.substring_char(start, end));
            proof {
                lemma_word_end(text@, start as int);
                let before = words@.map_values(|w: String| w@);
                assert(words@.push(word).map_values(|w: String| w@) =~= before.push(word@));
                assert(before.push(word@) + words_from(text@, end as int) =~= before + (seq![
                    word@,
                ] + words_from(text@, end as int)));
            }
            words.push(word);
            i = end;
        }
    }
    proof {
        assert(words@.map_values(|w: String| w@) + Seq::<Seq<char>>::empty()
            =~= words@.map_values(|w: String| w@));
    }
    words
}

/// Joins `words` with one space between each two.
pub fn join_words(words: &Vec<String>) -> (text: String)
    ensures
        text@ == joined(words@.map_values(|w: String| w@)),
{
    let n = words.len();
    let mut text = String::new();
    let mut i: usize = 0;
    let ghost all = words@.map_values(|w: String| w@);
    while i < n
        invariant
            i <= n,
            n == words@.len(),
            all == words@.map_values(|w: String| w@),
            text@ == joined(all.subrange(0, i as int)),
        decreases n - i,
    {
        proof {
            let shorter = all.subrange(0, i as int);
            let longer = all.subrange(0, i + 1);
            assert(longer.drop_last() =~= shorter);
            assert(longer.last() == words@[i as int]@);
        }
        if i > 0 {
            text = text.concat(" ");
        }
        text = text.concat(words[i].as_str());
        proof {
            let longer = all.subrange(0, i + 1);
            if i == 0 {
                assert(text@ =~= longer[0]);
            }
        }
        i = i + 1;
    }
    assert(all.subrange(0, n as int) =~= all);
    text
}

/// Whether `word` is a stutter candidate: in lower case it takes at most
/// two bytes and holds letters only.
pub open spec fn is_short_word(word: Seq<char>) -> bool {
    let lower = lowercased(word);
    encode_utf8(lower).len() <= 2 && forall|i: int|
        0 <= i < lower.len() ==> unicode_alphabetic(#[trigger] lower[i])
}

/// How many words from index `from` on repeat `lower` in lower case, one
/// after the other.
pub open spec fn run_length(words: Seq<Seq<char>>, lower: Seq<char>, from: int) -> int
    decreases words.len() - from,
{
    if 0 <= from < words.len() && lowercased(words[from]) == lower {
        1 + run_length(words, lower, from + 1)
    } else {
        0
    }
}

/// The words from index `from` on with every run of three or more equal
/// short words collapsed to its first word.
pub open spec fn collapsed_from(words: Seq<Seq<char>>, from: int) -> Seq<Seq<char>>
    decreases words.len() - from,
{
    if from < 0 || from >= words.len() {
        Seq::empty()
    } else {
        let run = 1 + run_length(words, lowercased(words[from]), from + 1);
        if 3 <= run <= words.len() - from {
            if is_short_word(words[from]) {
                seq![words[from]] + collapsed_from(words, from + run)
            } else {
                seq![words[from]] + collapsed_from(words, from + 1)
            }
        } else {
            seq![words[from]] + collapsed_from(words, from + 1)
        }
    }
}

/// `text` with stutters collapsed and one space between its words; `text`
/// itself if it holds no word.
pub open spec fn stutters_collapsed(text: Seq<char>) -> Seq<char> {
    if words_of(text).len() == 0 {
        text
    } else {
        joined(collapsed_from(words_of(text), 0))
    }
}

/// A run of words is no longer than what is left.
pub proof fn lemma_run_length(words: Seq<Seq<char>>, lower: Seq<char>, from: int)
    requires
        0 <= from <= words.len(),
    ensures
        0 <= run_length(words, lower, from) <= words.len() - from,
    decreases words.len() - from,
{
    if from < words.len() && lowercased(words[from]) == lower {
        lemma_run_length(words, lower, from + 1);
    }
}

fn is_short(lower: &str) -> (r: bool)
    ensures
        r == (encode_utf8(lower@).len() <= 2 && forall|i: int|
            0 <= i < lower@.len() ==> unicode_alphabetic(#[trigger] lower@[i])),
{
    if lower.as_bytes().len() > 2 {
        return false;
    }
    let chars = to_chars(lower);
    let n = chars.len();
    let mut i: usize = 0;
    while i < n
        invariant
            i <= n,
            n == chars@.len(),
            chars@ == lower@,
            forall|j: int| 0 <= j < i ==> unicode_alphabetic(#[trigger] chars@[j]),
        decreases n - i,
    {
        if !char_is_alphabetic(chars[i]) {
            return false;
        }
        i = i + 1;
    }
    true
}

/// Collapses every run of three or more equal words of one or two letters,
/// compared without regard to case, to its first word, and joins the words
/// with single spaces. A text without words is returned as it is.
pub fn collapse_stutters(text: &str) -> (out: String)
    ensures
        out@ == stutters_collapsed(text@),
{
    let words = split_words(text);
    let n = words.len();
    if n == 0 {
        return String::from_str(text);
    }
    let ghost all = words@.map_values(|w: String| w@);
    let mut result: Vec<String> = Vec::new();
    let mut i: usize = 0;
    while i < n
        invariant
            i <= n,
            n == words@.len(),
            all == words@.map_values(|w: String| w@),
            result@.map_values(|w: String| w@) + collapsed_from(all, i as int) == collapsed_from(
                all,
                0,
            ),
        decreases n - i,
    {
        let lower = str_to_lowercase(words[i].as_str());
        let mut count: usize = 1;
        while i + count < n && str_eq(
            str_to_lowercase(words[i + count].as_str()).as_str(),
            lower.as_str(),
        )
            invariant
                i < n,
                1 <= count <= n - i,
                n == words@.len(),
                all == words@.map_values(|w: String| w@),
                count + run_length(all, lower@, i + count) == 1 + run_length(all, lower@, i + 1),
            decreases n - i - count,
        {
            count = count + 1;
        }
        proof {
            assert(all[i as int] == words@[i as int]@);
            assert(run_length(all, lower@, i + count) == 0);
            lemma_run_length(all, lower@, i + 1);
            let before = result@.map_values(|w: String| w@);
            let word = words@[i as int];
            let rest = if is_short_word(all[i as int]) && count >= 3 {
                collapsed_from(all, i + count)
            } else {
                collapsed_from(all, i + 1)
            };
            assert(result@.push(word).map_values(|w: String| w@) =~= before.push(word@));
            assert(before.push(word@) + rest =~= before + (seq![word@] + rest));
        }
        let short = is_short(lower.as_str());
        result.push(words[i].clone());
        if short && count >= 3 {
            i = i + count;
        } else {
            i = i + 1;
        }
    }
    proof {
        assert(result@.map_values(|w: String| w@) + Seq::<Seq<char>>::empty()
            =~= result@.map_values(|w: String| w@));
    }
    join_words(&result)
}

/// The number of filler words.
pub const FILLER_WORD_COUNT: usize = 15;

/// The filler word with index `index`; the last one for an index beyond
/// the list.
pub open spec fn filler_word_text(index: int) -> Seq<char> {
    if index == 0 {
        "uh"@
    } else if index == 1 {
        "um"@
    } else if index == 2 {
        "uhm"@
    } else if index == 3 {
        "umm"@
    } else if index == 4 {
        "uhh"@
    } else if index == 5 {
        "uhhh"@
    } else if index == 6 {
        "ah"@
    } else if index == 7 {
        "eh"@
    } else if index == 8 {
        "hmm"@
    } else if index == 9 {
        "hm"@
    } else if index == 10 {
        "mmm"@
    } else if index == 11 {
        "mm"@
    } else if index == 12 {
        "mh"@
    } else if index == 13 {
        "ha"@
    } else {
        "ehh"@
    }
}

/// The filler word with index `index`; the last one for an index beyond
/// the list.
pub fn filler_word(index: usize) -> (word: &'static str)
    ensures
        word@ == filler_word_text(index as int),
{
    match index {
        0 => "uh",
        1 => "um",
        2 => "uhm",
        3 => "umm",
        4 => "uhh",
        5 => "uhhh",
        6 => "ah",
        7 => "eh",
        8 => "hmm",
        9 => "hm",
        10 => "mmm",
        11 => "mm",
        12 => "mh",
        13 => "ha",
        _ => "ehh",
    }
}

/// The regular expression for a filler word: the word in any case, at word
/// boundaries, with a comma or full stop that follows it.
pub open spec fn filler_pattern(word: Seq<char>) -> Seq<char> {
    "(?i)\\b"@ + escaped(word) + "\\b[,.]?"@
}

/// `text` with every match of `pattern` replaced by `replacement`; `text`
/// itself if the pattern does not compile.
pub open spec fn replaced_all(pattern: Seq<char>, text: Seq<char>, replacement: Seq<char>) -> Seq<
    char,
> {
    if regex_compiles(pattern) {
        regex_replaced(pattern, text, replacement)
    } else {
        text
    }
}

/// `text` without the first `count` filler words.
pub open spec fn without_fillers(text: Seq<char>, count: int) -> Seq<char>
    decreases count,
{
    if count <= 0 {
        text
    } else {
        replaced_all(
            filler_pattern(filler_word_text(count - 1)),
            without_fillers(text, count - 1),
            Seq::empty(),
        )
    }
}

/// The filtered transcript.
pub open spec fn filtered(text: Seq<char>) -> Seq<char> {
    trimmed(
        replaced_all(
            "\\s{2,}"@,
            stutters_collapsed(without_fillers(text, FILLER_WORD_COUNT as int)),
            " "@,
        ),
    )
}

/// The regular expression that finds `word` as a filler word.
pub fn filler_pattern_of(word: &str) -> (pattern: String)
    ensures
        pattern@ == filler_pattern(word@),
{
    String::from_str("(?i)\\b").concat(regex_escape(word).as_str()).concat("\\b[,.]?")
}

fn replace_all(pattern: &str, text: String, replacement: &str) -> (out: String)
    ensures
        out@ == replaced_all(pattern@, text@, replacement@),
{
    match regex_replace_all(pattern, text.as_str(), replacement) {
        Some(replaced) => replaced,
        None => text,
    }
}

/// Cleans a raw transcript: removes the filler words, each with a comma or
/// full stop that follows it; collapses stutters; replaces every run of
/// white space by one space; and trims the ends.
pub fn filter_transcription_output(text: &str) -> (out: String)
    ensures
        out@ == filtered(text@),
{
    let mut filtered_text = String::from_str(text);
    let mut i: usize = 0;
    while i < FILLER_WORD_COUNT
        invariant
            i <= FILLER_WORD_COUNT,
            filtered_text@ == without_fillers(text@, i as int),
        decreases FILLER_WORD_COUNT - i,
    {
        let pattern = filler_pattern_of(filler_word(i));
        proof {
            reveal_strlit("");
            assert(""@ =~= Seq::<char>::empty());
        }
        filtered_text = replace_all(pattern.as_str(), filtered_text, "");
        i = i + 1;
    }
    let collapsed = collapse_stutters(filtered_text.as_str());
    let squeezed = replace_all("\\s{2,}", collapsed, " ");
    String::from_str(trim(squeezed.as_str()))
}

/// The first index at or after `from` that holds a letter or a digit, or the
/// length of `word`.
pub open spec fn leading_marks(word: Seq<char>, from: int) -> int
    decreases word.len() - from,
{
    if 0 <= from < word.len() && !unicode_alphanumeric(word[from]) {
        leading_marks(word, from + 1)
    } else {
        from
    }
}

/// The least index at or below `to` from which on nothing but characters
/// that are neither letters nor digits follows up to `to`.
pub open spec fn trailing_marks(word: Seq<char>, to: int) -> int
    decreases to,
{
    if 0 < to <= word.len() && !unicode_alphanumeric(word[to - 1]) {
        trailing_marks(word, to - 1)
    } else {
        to
    }
}

/// The punctuation at the start and at the end of `word`: its leading and
/// its trailing characters that are neither letters nor digits. A word of
/// such characters only is both.
pub fn extract_punctuation(word: &str) -> (marks: (&str, &str))
    ensures
        marks.0@ == word@.subrange(0, leading_marks(word@, 0)),
        marks.1@ == word@.subrange(trailing_marks(word@, word@.len() as int), word@.len() as int),
        0 <= leading_marks(word@, 0) <= word@.len(),
        0 <= trailing_marks(word@, word@.len() as int) <= word@.len(),
{
    let chars = to_chars(word);
    let n = chars.len();
    let mut prefix_end: usize = 0;
    while prefix_end < n && !char_is_alphanumeric(chars[prefix_end])
        invariant
            prefix_end <= n,
            n == chars@.len(),
            leading_marks(chars@, prefix_end as int) == leading_marks(chars@, 0),
        decreases n - prefix_end,
    {
        prefix_end = prefix_end + 1;
    }
    let mut suffix_start: usize = n;
    while suffix_start > 0 && !char_is_alphanumeric(chars[suffix_start - 1])
        invariant
            suffix_start <= n,
            n == chars@.len(),
            trailing_marks(chars@, suffix_start as int) == trailing_marks(chars@, n as int),
        decreases suffix_start,
    {
        suffix_start = suffix_start - 1;
    }
    (word.substring_char(0, prefix_end), word.substring_char(suffix_start, n))
}

/// Whether every character of `text` is an upper-case letter.
pub open spec fn all_uppercase(text: Seq<char>) -> bool {
    forall|i: int| 0 <= i < text.len() ==> unicode_uppercase(#[trigger] text[i])
}

/// The first character of `letter` in upper case; `letter` itself where its
/// upper-case form is empty.
pub open spec fn capitalized(letter: Seq<char>) -> Seq<char> {
    if uppercased(letter).len() > 0 {
        uppercased(letter).subrange(0, 1)
    } else {
        letter
    }
}

/// `replacement` in the case pattern of `original`.
pub open spec fn in_case_of(original: Seq<char>, replacement: Seq<char>) -> Seq<char> {
    if all_uppercase(original) {
        uppercased(replacement)
    } else if unicode_uppercase(original[0]) && replacement.len() > 0 {
        capitalized(replacement.subrange(0, 1)) + replacement.subrange(1, replacement.len() as int)
    } else {
        replacement
    }
}

/// Gives `replacement` the case pattern of `original`: all upper case if
/// `original` is; with a capital first letter if `original` starts with one;
/// unchanged otherwise.
pub fn preserve_case_pattern(original: &str, replacement: &str) -> (out: String)
    ensures
        out@ == in_case_of(original@, replacement@),
{
    let chars = to_chars(original);
    let n = chars.len();
    let mut i: usize = 0;
    while i < n && char_is_uppercase(chars[i])
        invariant
            i <= n,
            n == chars@.len(),
            chars@ == original@,
            forall|j: int| 0 <= j < i ==> unicode_uppercase(#[trigger] chars@[j]),
        decreases n - i,
    {
        i = i + 1;
    }
    if i == n {
        return str_to_uppercase(replacement);
    }
    proof {
        assert(!unicode_uppercase(original@[i as int]));
    }
    if i > 0 {
        let m = replacement.unicode_len();
        if m == 0 {
            return String::from_str(replacement);
        }
        let letter = replacement.substring_char(0, 1);
        let upper = str_to_uppercase(letter);
        let capital = if upper.as_str().unicode_len() > 0 {
            String::from_str(upper.as_str().substring_char(0, 1))
        } else {
            String::from_str(letter)
        };
        return capital.concat(replacement.substring_char(1, m));
    }
    String::from_str(replacement)
}

/// `word` without the characters at its ends that are neither letters nor
/// digits.
pub open spec fn core_of(word: Seq<char>) -> Seq<char> {
    let start = leading_marks(word, 0);
    let end = trailing_marks(word, word.len() as int);
    if start >= end {
        Seq::empty()
    } else {
        word.subrange(start, end)
    }
}

/// The first `upto` words, each without the marks at its ends and in lower
/// case, one after the other without a gap.
pub open spec fn ngram_of(words: Seq<Seq<char>>, upto: int) -> Seq<char>
    decreases upto,
{
    if upto <= 0 || upto > words.len() {
        Seq::empty()
    } else {
        ngram_of(words, upto - 1) + lowercased(core_of(words[upto - 1]))
    }
}

/// Builds the text that a group of words is compared by: each word without
/// the characters at its ends that are neither letters nor digits, in lower
/// case, all joined without a gap.
pub fn build_ngram(words: &Vec<String>) -> (ngram: String)
    ensures
        ngram@ == ngram_of(words@.map_values(|w: String| w@), words@.len() as int),
{
    let n = words.len();
    let ghost all = words@.map_values(|w: String| w@);
    let mut ngram = String::new();
    let mut i: usize = 0;
    while i < n
        invariant
            i <= n,
            n == words@.len(),
            all == words@.map_values(|w: String| w@),
            ngram@ == ngram_of(all, i as int),
        decreases n - i,
    {
        let word = words[i].as_str();
        let marks = extract_punctuation(word);
        let len = word.unicode_len();
        let start = marks.0.unicode_len();
        let end = len - marks.1.unicode_len();
        let core = if start >= end {
            word.substring_char(0, 0)
        } else {
            word.substring_char(start, end)
        };
        proof {
            assert(all[i as int] == word@);
            assert(word@.subrange(0, 0) =~= Seq::<char>::empty());
        }
        ngram = ngram.concat(str_to_lowercase(core).as_str());
        i = i + 1;
    }
    ngram
}

} // verus!
