//! Separates the code of a model's answer from the prose around it.
//!
//! A fenced block is a line of three backticks, optionally followed by a
//! language tag, a body, and a closing line of three backticks. The blocks are
//! found by the `regex` crate; what is done with them is verified here.

use crate::json::option_text;
use crate::text::{
    contains, is_whitespace, lemma_part_contains, lemma_trim_bounds, trim, trimmed,
};
use vstd::prelude::*;
use vstd::string::*;
use vstd::utf8::*;

verus! {

broadcast use vstd::utf8::group_utf8_lib;

/// The pattern of a fenced block. Its first group is the body.
pub const FENCE_PATTERN: &'static str = r"```[\w]*\n([\s\S]*?)\n```";

/// The group of `FENCE_PATTERN` that holds the body of a block.
pub const FENCE_BODY_GROUP: usize = 1;

/// `regex::Error`, the error of a pattern that does not compile. Nothing is
/// read from it.
#[verifier::external_type_specification]
#[verifier::external_body]
pub struct ExRegexError(regex::Error);

/// Where one match of a pattern lies in the searched text. All offsets count
/// bytes of the text's UTF-8 form; each range is half-open.
#[derive(Debug, Clone, Copy, PartialEq, Eq)]
pub struct CaptureSpan {
    /// Where the whole match starts.
    pub start: usize,
    /// Where the whole match ends.
    pub end: usize,
    /// Start and end of the capture group asked for, if it took part in the
    /// match.
    pub group: Option<(usize, usize)>,
}

/// The pattern of a fenced block could not be compiled.
#[derive(Debug, Clone, Copy, PartialEq, Eq)]
pub struct PatternError;

/// What the `regex` crate finds when `haystack` is searched for `pattern`:
/// nothing if the pattern does not compile, else the successive matches with
/// the span of capture group `group` in each.
pub uninterp spec fn regex_captures(pattern: Seq<char>, haystack: Seq<char>, group: nat) -> Option<
    Seq<CaptureSpan>,
>;

/// `start..end` is a range of whole characters of `text`.
pub open spec fn span_fits(text: Seq<char>, start: int, end: int) -> bool {
    &&& 0 <= start <= end <= encode_utf8(text).len()
    &&& is_char_boundary(encode_utf8(text), start)
    &&& is_char_boundary(encode_utf8(text), end)
}

/// Every span is a range of whole characters of `text`, and each match starts
/// where the one before it has ended, or later.
pub open spec fn spans_fit(text: Seq<char>, spans: Seq<CaptureSpan>) -> bool {
    &&& forall|i: int|
        0 <= i < spans.len() ==> span_fits(
            text,
            (#[trigger] spans[i]).start as int,
            spans[i].end as int,
        )
    &&& forall|i: int|
        0 <= i < spans.len() ==> ((#[trigger] spans[i]).group matches Some(g) ==> span_fits(
            text,
            g.0 as int,
            g.1 as int,
        ))
    &&& forall|i: int, j: int|
        0 <= i < j < spans.len() ==> (#[trigger] spans[i]).end <= (#[trigger] spans[j]).start
}

/// The characters of `text` that lie between two byte offsets.
pub open spec fn text_between(text: Seq<char>, start: int, end: int) -> Seq<char> {
    decode_utf8(encode_utf8(text).subrange(start, end))
}

/// What is left of `text` from `cursor` on when the matches are cut out.
pub open spec fn outside_spans(text: Seq<char>, spans: Seq<CaptureSpan>, cursor: int) -> Seq<char>
    decreases spans.len(),
{
    if spans.len() == 0 {
        text_between(text, cursor, encode_utf8(text).len() as int)
    } else {
        text_between(text, cursor, spans[0].start as int) + outside_spans(
            text,
            spans.drop_first(),
            spans[0].end as int,
        )
    }
}

/// The code of an answer: the body of the first block, or the whole answer
/// where it holds no block.
pub open spec fn code_of(text: Seq<char>, spans: Seq<CaptureSpan>) -> Seq<char> {
    if spans.len() == 0 {
        text
    } else {
        match spans[0].group {
            Some(g) => text_between(text, g.0 as int, g.1 as int),
            None => Seq::empty(),
        }
    }
}

/// The explanation of an answer: the text with every block cut out and the
/// whitespace at both ends removed. There is none where the answer holds no
/// block or nothing but whitespace is left.
pub open spec fn explanation_of(text: Seq<char>, spans: Seq<CaptureSpan>) -> Option<Seq<char>> {
    if spans.len() == 0 || trim(outside_spans(text, spans, 0)).len() == 0 {
        None
    } else {
        Some(trim(outside_spans(text, spans, 0)))
    }
}

/// The text is not empty and neither starts nor ends with whitespace.
pub open spec fn is_trimmed(text: Seq<char>) -> bool {
    &&& text.len() > 0
    &&& !is_whitespace(text.first())
    &&& !is_whitespace(text.last())
}

/// An explanation is not empty, and it neither starts nor ends with
/// whitespace.
pub proof fn lemma_explanation_is_trimmed(text: Seq<char>, spans: Seq<CaptureSpan>)
    ensures
        explanation_of(text, spans) matches Some(explanation) ==> is_trimmed(explanation),
{
    lemma_trim_bounds(outside_spans(text, spans, 0));
}

/// What the text without its blocks does not hold, the explanation does not
/// hold either: trimming brings nothing in.
///
/// Cutting a block out can join the text around it into the text of a block;
/// the premise leaves such texts out.
pub proof fn lemma_explanation_holds_no_cut_text(
    text: Seq<char>,
    spans: Seq<CaptureSpan>,
    part: Seq<char>,
)
    requires
        !contains(outside_spans(text, spans, 0), part),
    ensures
        explanation_of(text, spans) matches Some(explanation) ==> !contains(explanation, part),
{
    let rest = outside_spans(text, spans, 0);
    let bounds = lemma_trim_bounds(rest);
    if contains(trim(rest), part) {
        lemma_part_contains(rest, bounds.0, bounds.1, part);
    }
}

/// Compiles `pattern` with `regex::Regex::new` and walks `haystack` with
/// `Regex::captures_iter`. For each match it hands back the offsets of the
/// whole match (`Captures::get_match`) and of group `group` (`Captures::get`).
///
/// Trusted: the result is the one named by `regex_captures`; it is an error
/// exactly where the pattern does not compile; the offsets of a match are
/// ordered, lie on character boundaries inside the haystack, and successive
/// matches do not overlap, as the crate documents for `Match` and
/// `captures_iter`.
#[verifier::external_body]
fn capture_spans(pattern: &str, haystack: &str, group: usize) -> (r: Result<
    Vec<CaptureSpan>,
    regex::Error,
>)
    ensures
        match r {
            Ok(spans) => regex_captures(pattern@, haystack@, group as nat) == Some(spans@)
                && spans_fit(haystack@, spans@),
            Err(_) => regex_captures(pattern@, haystack@, group as nat) is None,
        },
{
    let re = regex::Regex::new(pattern)?;
    let spans = re.captures_iter(haystack).map(
        |found| {
            let whole = found.get_match();
            let part = found.get(group).map(|m| (m.start(), m.end()));
            CaptureSpan { start: whole.start(), end: whole.end(), group: part }
        },
    );
    Ok(spans.collect())
}

/// The part of `text` between two byte offsets.
fn slice<'a>(text: &'a str, start: usize, end: usize) -> (part: &'a str)
    requires
        span_fits(text@, start as int, end as int),
    ensures
        part@ == text_between(text@, start as int, end as int),
{
    let ghost bytes = encode_utf8(text@);
    let (head, _) = text.split_at(end);
    proof {
        let prefix = bytes.subrange(0, end as int);
        assert(head.spec_bytes() == prefix);
        assert(valid_utf8(prefix));
        if start < end {
            assert(prefix[start as int] == bytes[start as int]);
            is_char_boundary_iff_not_is_continuation_byte(bytes, start as int);
            is_char_boundary_iff_not_is_continuation_byte(prefix, start as int);
        } else {
            is_char_boundary_start_end_of_seq(prefix);
        }
    }
    let (_, part) = head.split_at(start);
    proof {
        assert(part.spec_bytes() =~= bytes.subrange(start as int, end as int));
        assert(decode_utf8(encode_utf8(part@)) == part@);
    }
    part
}

/// The part of `text` from a byte offset to its end.
fn tail<'a>(text: &'a str, start: usize) -> (part: &'a str)
    requires
        0 <= start <= encode_utf8(text@).len(),
        is_char_boundary(encode_utf8(text@), start as int),
    ensures
        part@ == text_between(text@, start as int, encode_utf8(text@).len() as int),
{
    let (_, part) = text.split_at(start);
    proof {
        assert(decode_utf8(encode_utf8(part@)) == part@);
    }
    part
}

/// The characters between `cursor` and the end of `spans[i]` are accounted
/// for by the first piece of `outside_spans`.
proof fn lemma_outside_step(text: Seq<char>, spans: Seq<CaptureSpan>, i: int, cursor: int)
    requires
        0 <= i < spans.len(),
    ensures
        outside_spans(text, spans.skip(i), cursor) == text_between(
            text,
            cursor,
            spans[i].start as int,
        ) + outside_spans(text, spans.skip(i + 1), spans[i].end as int),
{
    assert(spans.skip(i).drop_first() =~= spans.skip(i + 1));
}

/// `text` with every span cut out.
fn cut_out(text: &str, spans: &Vec<CaptureSpan>) -> (rest: String)
    requires
        spans_fit(text@, spans@),
    ensures
        rest@ == outside_spans(text@, spans@, 0),
{
    let mut rest = String::new();
    let mut cursor: usize = 0;
    let mut i: usize = 0;
    proof {
        assert(spans@.skip(0) =~= spans@);
        is_char_boundary_start_end_of_seq(encode_utf8(text@));
    }
    while i < spans.len()
        invariant
            i <= spans.len(),
            spans_fit(text@, spans@),
            0 <= cursor <= encode_utf8(text@).len(),
            is_char_boundary(encode_utf8(text@), cursor as int),
            i == 0 ==> cursor == 0,
            i > 0 ==> cursor == spans@[i - 1].end,
            rest@ + outside_spans(text@, spans@.skip(i as int), cursor as int) == outside_spans(
                text@,
                spans@,
                0,
            ),
        decreases spans.len() - i,
    {
        let span = spans[i];
        proof {
            lemma_outside_step(text@, spans@, i as int, cursor as int);
            assert(span == spans@[i as int]);
            if i > 0 {
                assert(spans@[i - 1].end <= spans@[i as int].start);
            }
        }
        let ghost before = rest@;
        rest.append(slice(text, cursor, span.start));
        assert(rest@ + outside_spans(text@, spans@.skip(i + 1), span.end as int) =~= before
            + outside_spans(text@, spans@.skip(i as int), cursor as int));
        cursor = span.end;
        i += 1;
    }
    assert(spans@.skip(i as int).len() == 0);
    rest.append(tail(text, cursor));
    rest
}

/// Whether `start..end` is a range of whole characters of `text`.
fn fits(text: &str, start: usize, end: usize) -> (ok: bool)
    ensures
        ok == span_fits(text@, start as int, end as int),
{
    start <= end && text.is_char_boundary(start) && text.is_char_boundary(end)
}

/// Whether every span is a range of whole characters of `text` and each
/// match starts where the one before it has ended, or later.
pub fn spans_fit_text(text: &str, spans: &Vec<CaptureSpan>) -> (ok: bool)
    ensures
        ok == spans_fit(text@, spans@),
{
    let mut i: usize = 0;
    while i < spans.len()
        invariant
            i <= spans.len(),
            spans_fit(text@, spans@.take(i as int)),
        decreases spans.len() - i,
    {
        let span = spans[i];
        let group_fits = match span.group {
            Some(g) => fits(text, g.0, g.1),
            None => true,
        };
        let in_order = i == 0 || spans[i - 1].end <= span.start;
        if !fits(text, span.start, span.end) || !group_fits || !in_order {
            proof {
                if spans_fit(text@, spans@) {
                    let here = spans@[i as int];
                    assert(span_fits(text@, here.start as int, here.end as int));
                    if i > 0 {
                        assert(spans@[i - 1].end <= spans@[i as int].start);
                    }
                }
            }
            return false;
        }
        proof {
            let seen = spans@.take(i as int);
            let next = spans@.take(i + 1);
            assert forall|a: int, b: int| 0 <= a < b < next.len() implies (#[trigger] next[a]).end
                <= (#[trigger] next[b]).start by {
                if b < i {
                    assert(seen[a].end <= seen[b].start);
                } else if a + 1 < i {
                    assert(seen[a].end <= seen[i - 1].start);
                    assert(span_fits(text@, seen[i - 1].start as int, seen[i - 1].end as int));
                }
            }
            assert forall|k: int| 0 <= k < next.len() implies span_fits(
                text@,
                (#[trigger] next[k]).start as int,
                next[k].end as int,
            ) by {
                if k < i {
                    assert(next[k] == seen[k]);
                }
            }
            assert forall|k: int| 0 <= k < next.len() implies (
            (#[trigger] next[k]).group matches Some(g) ==> span_fits(text@, g.0 as int, g.1 as int))
            by {
                if k < i {
                    assert(next[k] == seen[k]);
                }
            }
        }
        i += 1;
    }
    assert(spans@.take(i as int) =~= spans@);
    true
}

/// Splits an answer into its code and its explanation, given where its fenced
/// blocks lie.
///
/// The code is the body of the first block. The explanation is the answer with
/// every block cut out, not only the first, and trimmed. Where there is no
/// block, the whole answer is the code and there is no explanation. Spans
/// that do not fit the answer are refused.
pub fn split_fenced(content: &str, spans: &Vec<CaptureSpan>) -> (r: Option<
    (String, Option<String>),
>)
    ensures
        match r {
            Some(parts) => {
                &&& spans_fit(content@, spans@)
                &&& parts.0@ == code_of(content@, spans@)
                &&& option_text(parts.1) == explanation_of(content@, spans@)
            },
            None => !spans_fit(content@, spans@),
        },
        spans@.len() == 0 ==> (r matches Some(parts) && parts.0@ == content@ && parts.1 is None),
        r matches Some(parts) ==> (parts.1 matches Some(explanation) ==> is_trimmed(explanation@)),
{
    proof {
        lemma_explanation_is_trimmed(content@, spans@);
    }
    if !spans_fit_text(content, spans) {
        return None;
    }
    if spans.len() == 0 {
        return Some((content.to_owned(), None));
    }
    let code = match spans[0].group {
        Some(g) => slice(content, g.0, g.1).to_owned(),
        None => String::new(),
    };
    let rest = cut_out(content, spans);
    let explanation = trimmed(rest.as_str());
    if explanation.as_str().is_empty() {
        Some((code, None))
    } else {
        Some((code, Some(explanation)))
    }
}

/// Splits `content` into code and explanation around the matches of
/// `pattern`, the code being what group `group` captured in the first match.
///
/// Fails where the pattern does not compile, and only there.
pub fn extract_with(pattern: &str, group: usize, content: &str) -> (r: Result<
    (String, Option<String>),
    PatternError,
>)
    ensures
        match regex_captures(pattern@, content@, group as nat) {
            Some(spans) => r matches Ok(parts) && parts.0@ == code_of(content@, spans)
                && option_text(parts.1) == explanation_of(content@, spans),
            None => r is Err,
        },
        r matches Ok(parts) ==> (parts.1 matches Some(explanation) ==> is_trimmed(explanation@)),
{
    match capture_spans(pattern, content, group) {
        Ok(spans) => match split_fenced(content, &spans) {
            Some(parts) => Ok(parts),
            // The spans of a match always fit the text that was searched.
            None => Err(PatternError),
        },
        Err(_) => Err(PatternError),
    }
}

/// The fenced blocks of an answer, as the `regex` crate finds them.
pub open spec fn fenced_blocks(content: Seq<char>) -> Option<Seq<CaptureSpan>> {
    regex_captures(FENCE_PATTERN@, content, FENCE_BODY_GROUP as nat)
}

/// Splits an answer into its code and its explanation.
///
/// The code is the body of the first fenced block; the explanation is the
/// answer without any of its blocks. An answer without a block is all code.
/// Fails only where the pattern of a fenced block does not compile.
pub fn extract(content: &str) -> (r: Result<(String, Option<String>), PatternError>)
    ensures
        match fenced_blocks(content@) {
            Some(spans) => r matches Ok(parts) && parts.0@ == code_of(content@, spans)
                && option_text(parts.1) == explanation_of(content@, spans),
            None => r is Err,
        },
        fenced_blocks(content@) == Some(Seq::<CaptureSpan>::empty()) ==> (r matches Ok(parts)
            && parts.0@ == content@ && parts.1 is None),
        r matches Ok(parts) ==> (parts.1 matches Some(explanation) ==> is_trimmed(explanation@)),
{
    extract_with(FENCE_PATTERN, FENCE_BODY_GROUP, content)
}

} // verus!
