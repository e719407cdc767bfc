use dikt::filter::{
    build_ngram, collapse_stutters, extract_punctuation, filler_pattern_of,
    filter_transcription_output, join_words, preserve_case_pattern, split_words,
};

#[test]
fn test_preserve_case_pattern() {
    assert_eq!(preserve_case_pattern("HELLO", "world"), "WORLD");
    assert_eq!(preserve_case_pattern("Hello", "world"), "World");
    assert_eq!(preserve_case_pattern("hello", "WORLD"), "WORLD");
}

#[test]
fn test_extract_punctuation() {
    assert_eq!(extract_punctuation("hello"), ("", ""));
    assert_eq!(extract_punctuation("!hello?"), ("!", "?"));
    assert_eq!(extract_punctuation("...hello..."), ("...", "..."));
}

#[test]
fn test_filter_filler_words() {
    let text = "So um I was thinking uh about this";
    let result = filter_transcription_output(text);
    assert_eq!(result, "So I was thinking about this");
}

#[test]
fn test_filter_filler_words_case_insensitive() {
    let text = "UM this is UH a test";
    let result = filter_transcription_output(text);
    assert_eq!(result, "this is a test");
}

#[test]
fn test_filter_filler_words_with_punctuation() {
    let text = "Well, um, I think, uh. that's right";
    let result = filter_transcription_output(text);
    assert_eq!(result, "Well, I think, that's right");
}

#[test]
fn test_filter_cleans_whitespace() {
    let text = "Hello    world   test";
    let result = filter_transcription_output(text);
    assert_eq!(result, "Hello world test");
}

#[test]
fn test_filter_trims() {
    let text = "  Hello world  ";
    let result = filter_transcription_output(text);
    assert_eq!(result, "Hello world");
}

#[test]
fn test_filter_combined() {
    let text = "  Um, so I was, uh, thinking about this  ";
    let result = filter_transcription_output(text);
    assert_eq!(result, "so I was, thinking about this");
}

#[test]
fn test_filter_preserves_valid_text() {
    let text = "This is a completely normal sentence.";
    let result = filter_transcription_output(text);
    assert_eq!(result, "This is a completely normal sentence.");
}

#[test]
fn test_filter_stutter_collapse() {
    let text = "w wh wh wh wh wh wh wh wh wh why";
    let result = filter_transcription_output(text);
    assert_eq!(result, "w wh why");
}

#[test]
fn test_filter_stutter_short_words() {
    let text = "I I I I think so so so so";
    let result = filter_transcription_output(text);
    assert_eq!(result, "I think so");
}

#[test]
fn test_filter_stutter_mixed_case() {
    let text = "No NO no NO no";
    let result = filter_transcription_output(text);
    assert_eq!(result, "No");
}

#[test]
fn test_filter_stutter_preserves_two_repetitions() {
    let text = "no no is fine";
    let result = filter_transcription_output(text);
    assert_eq!(result, "no no is fine");
}

#[test]
fn filter_of_nothing_is_nothing() {
    assert_eq!(filter_transcription_output(""), "");
    assert_eq!(filter_transcription_output("   \n"), "");
    assert_eq!(filter_transcription_output("um"), "");
    assert_eq!(filter_transcription_output("Um, uh. hmm"), "");
}

#[test]
fn filter_leaves_words_that_hold_a_filler() {
    assert_eq!(filter_transcription_output("the umbrella hummed ahead"), "the umbrella hummed ahead");
    assert_eq!(filter_transcription_output("ha! what"), "! what");
}

#[test]
fn filler_pattern_quotes_what_has_a_meaning() {
    assert_eq!(filler_pattern_of("um"), r"(?i)\bum\b[,.]?");
    assert_eq!(filler_pattern_of("a.b*c"), r"(?i)\ba\.b\*c\b[,.]?");
    assert_eq!(filler_pattern_of(r"\.+*?()|[]{}^$#&-~"), format!(r"(?i)\b{}\b[,.]?", regex::escape(r"\.+*?()|[]{}^$#&-~")));
    assert_eq!(filler_pattern_of("%/!\"e"), "(?i)\\b%/!\"e\\b[,.]?");
}

#[test]
fn stutters_collapse_only_for_short_words_of_letters() {
    assert_eq!(collapse_stutters("the the the the end"), "the the the the end");
    assert_eq!(collapse_stutters("1 1 1 1"), "1 1 1 1");
    assert_eq!(collapse_stutters("a a b b b a a a"), "a a b a");
    assert_eq!(collapse_stutters("é é é é"), "é");
    assert_eq!(collapse_stutters("éé éé éé"), "éé éé éé");
    assert_eq!(collapse_stutters("  so   so  "), "so so");
    assert_eq!(collapse_stutters("   "), "   ");
    assert_eq!(collapse_stutters(""), "");
    assert_eq!(collapse_stutters("Ok OK ok now"), "Ok now");
}

#[test]
fn words_split_and_join() {
    assert_eq!(split_words(" a  bc\t\nd "), vec!["a", "bc", "d"]);
    assert!(split_words("   ").is_empty());
    assert!(split_words("").is_empty());
    assert_eq!(split_words("one"), vec!["one"]);
    for text in ["", " x ", "a\u{a0}b\u{3000}c", "tab\tseparated\nlines\r\nhere"] {
        let words: Vec<&str> = text.split_whitespace().collect();
        assert_eq!(split_words(text), words);
        assert_eq!(join_words(&split_words(text)), words.join(" "));
    }
    assert_eq!(join_words(&vec!["a".to_string(), "".to_string(), "b".to_string()]), "a  b");
    assert_eq!(join_words(&Vec::new()), "");
}

#[test]
fn punctuation_is_counted_in_characters() {
    assert_eq!(extract_punctuation("«hello»"), ("«", "»"));
    assert_eq!(extract_punctuation("€!!!x"), ("€!!!", ""));
    assert_eq!(extract_punctuation("?!"), ("?!", "?!"));
    assert_eq!(extract_punctuation(""), ("", ""));
    assert_eq!(extract_punctuation("a.b"), ("", ""));
    assert_eq!(extract_punctuation("(GPT4)"), ("(", ")"));
}

#[test]
fn case_pattern_of_odd_words() {
    assert_eq!(preserve_case_pattern("", "word"), "WORD");
    assert_eq!(preserve_case_pattern("Hello", ""), "");
    assert_eq!(preserve_case_pattern("hELLO", "word"), "word");
    assert_eq!(preserve_case_pattern("Hello", "éclair"), "Éclair");
    assert_eq!(preserve_case_pattern("Hello", "ßtraße"), "Straße");
    assert_eq!(preserve_case_pattern("ÉTÉ", "straße"), "STRASSE");
    assert_eq!(preserve_case_pattern("A1", "word"), "Word");
    assert_eq!(preserve_case_pattern("Charge", "ChargeBee"), "ChargeBee");
}

#[test]
fn ngram_joins_cleaned_words() {
    let words = vec!["Charge".to_string(), "B,".to_string()];
    assert_eq!(build_ngram(&words), "chargeb");
    let words = vec!["(Chat".to_string(), "G".to_string(), "P".to_string(), "T)".to_string()];
    assert_eq!(build_ngram(&words), "chatgpt");
    let words = vec!["...".to_string(), "GPT-4".to_string()];
    assert_eq!(build_ngram(&words), "gpt-4");
    assert_eq!(build_ngram(&Vec::new()), "");
}
