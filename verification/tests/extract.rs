use craite::extract::{
    extract, extract_with, spans_fit_text, split_fenced, CaptureSpan, PatternError,
    FENCE_BODY_GROUP, FENCE_PATTERN,
};

#[test]
fn plain_text_is_all_code() {
    let (code, explanation) = extract("no fences here").unwrap();
    assert_eq!(code, "no fences here");
    assert_eq!(explanation, None);
}

#[test]
fn empty_text_is_empty_code() {
    let (code, explanation) = extract("").unwrap();
    assert_eq!(code, "");
    assert_eq!(explanation, None);
}

#[test]
fn first_block_is_the_code_and_every_block_is_cut_from_the_explanation() {
    let text = "Intro\n```solidity\ncontract A {}\n```\nmiddle\n```\nsecond\n```\nend";
    let (code, explanation) = extract(text).unwrap();
    assert_eq!(code, "contract A {}");
    let explanation = explanation.unwrap();
    assert_eq!(explanation, "Intro\n\nmiddle\n\nend");
    assert!(!explanation.contains("contract A {}"));
    assert!(!explanation.contains("second"));
    assert!(!explanation.contains("```"));
}

#[test]
fn a_block_alone_leaves_no_explanation() {
    let (code, explanation) = extract("```rust\nfn main() {}\n```").unwrap();
    assert_eq!(code, "fn main() {}");
    assert_eq!(explanation, None);
}

#[test]
fn whitespace_around_a_block_leaves_no_explanation() {
    let (code, explanation) =
        extract(" \n\t```\nlet x = 1;\n```\n  \n").unwrap();
    assert_eq!(code, "let x = 1;");
    assert_eq!(explanation, None);
}

#[test]
fn the_explanation_is_trimmed() {
    let (code, explanation) =
        extract("  Here you go:\n```js\nlet a;\n```\nEnjoy.  \n").unwrap();
    assert_eq!(code, "let a;");
    assert_eq!(explanation, Some("Here you go:\n\nEnjoy.".to_string()));
}

#[test]
fn a_body_may_span_lines_and_hold_other_scripts() {
    let text = "Voilà — ça marche:\n```\nligne 1 é\nligne 2 ü\n```\nfin ✓";
    let (code, explanation) = extract(text).unwrap();
    assert_eq!(code, "ligne 1 é\nligne 2 ü");
    assert_eq!(explanation, Some("Voilà — ça marche:\n\nfin ✓".to_string()));
}

#[test]
fn an_unclosed_fence_is_no_block() {
    let text = "```solidity\ncontract A {}";
    let (code, explanation) = extract(text).unwrap();
    assert_eq!(code, text);
    assert_eq!(explanation, None);
}

#[test]
fn the_fence_pattern_has_one_group_for_the_body() {
    assert_eq!(FENCE_PATTERN, "```[\\w]*\\n([\\s\\S]*?)\\n```");
    assert_eq!(FENCE_BODY_GROUP, 1);
}

#[test]
fn split_fenced_cuts_the_given_spans() {
    let text = "ab[cd]ef[gh]ij";
    let spans = vec![
        CaptureSpan { start: 2, end: 6, group: Some((3, 5)) },
        CaptureSpan { start: 8, end: 12, group: Some((9, 11)) },
    ];
    let (code, explanation) = split_fenced(text, &spans).unwrap();
    assert_eq!(code, "cd");
    assert_eq!(explanation, Some("abefij".to_string()));
}

#[test]
fn split_fenced_without_spans_keeps_the_text() {
    let (code, explanation) = split_fenced("  keep me  ", &Vec::new()).unwrap();
    assert_eq!(code, "  keep me  ");
    assert_eq!(explanation, None);
}

#[test]
fn split_fenced_without_a_group_gives_empty_code() {
    let spans = vec![CaptureSpan { start: 0, end: 3, group: None }];
    let (code, explanation) = split_fenced("abc rest", &spans).unwrap();
    assert_eq!(code, "");
    assert_eq!(explanation, Some("rest".to_string()));
}

#[test]
fn split_fenced_counts_bytes_not_characters() {
    let text = "é[ü]é";
    let spans = vec![CaptureSpan { start: 2, end: 6, group: Some((3, 5)) }];
    let (code, explanation) = split_fenced(text, &spans).unwrap();
    assert_eq!(code, "ü");
    assert_eq!(explanation, Some("éé".to_string()));
}

#[test]
fn spans_that_do_not_fit_are_refused() {
    let span = |start, end, group| CaptureSpan { start, end, group };
    assert!(spans_fit_text("abc", &vec![span(0, 3, Some((1, 2)))]));
    assert!(spans_fit_text("abc", &vec![span(0, 1, None), span(1, 1, None), span(1, 3, None)]));
    assert!(spans_fit_text("", &vec![span(0, 0, Some((0, 0)))]));
    let beyond = vec![span(0, 4, None)];
    assert!(!spans_fit_text("abc", &beyond));
    assert_eq!(split_fenced("abc", &beyond), None);
    let reversed = vec![span(2, 1, None)];
    assert!(!spans_fit_text("abc", &reversed));
    assert_eq!(split_fenced("abc", &reversed), None);
    let overlapping = vec![span(0, 2, None), span(1, 3, None)];
    assert!(!spans_fit_text("abc", &overlapping));
    assert_eq!(split_fenced("abc", &overlapping), None);
    let inside_a_character = vec![span(0, 1, None)];
    assert!(!spans_fit_text("é", &inside_a_character));
    assert_eq!(split_fenced("é", &inside_a_character), None);
    let group_beyond = vec![span(0, 3, Some((2, 9)))];
    assert!(!spans_fit_text("abc", &group_beyond));
    assert_eq!(split_fenced("abc", &group_beyond), None);
}

#[test]
fn a_pattern_that_does_not_compile_is_an_error() {
    assert_eq!(extract_with("(unclosed", 1, "any text"), Err(PatternError));
    assert_eq!(extract_with("[", 0, ""), Err(PatternError));
    assert_eq!(extract_with(r"\w{1000}{1000}", 0, "x"), Err(PatternError));
}

#[test]
fn extract_with_takes_the_named_group_of_the_first_match() {
    let found = extract_with(r"<(\w+)>", 1, "a <one> b <two> c").unwrap();
    assert_eq!(found, ("one".to_string(), Some("a  b  c".to_string())));
    let whole = extract_with(r"<(\w+)>", 0, "a <one> b").unwrap();
    assert_eq!(whole, ("<one>".to_string(), Some("a  b".to_string())));
    let missing = extract_with(r"<(\w+)>", 2, "a <one> b").unwrap();
    assert_eq!(missing, (String::new(), Some("a  b".to_string())));
    let optional = extract_with(r"x(y)?", 1, "--x--").unwrap();
    assert_eq!(optional, (String::new(), Some("----".to_string())));
    let none = extract_with(r"<(\w+)>", 1, "plain").unwrap();
    assert_eq!(none, ("plain".to_string(), None));
}

#[test]
fn extract_with_handles_empty_matches() {
    let found = extract_with(r"a*", 0, "baaac").unwrap();
    assert_eq!(found, (String::new(), Some("bc".to_string())));
}

#[test]
fn a_tag_may_be_written_in_any_script() {
    let (code, explanation) = extract("```français_2\nbonjour\n```").unwrap();
    assert_eq!(code, "bonjour");
    assert_eq!(explanation, None);
}
