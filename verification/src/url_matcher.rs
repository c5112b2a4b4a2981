//! Matching one component of a URL against the matcher of a URL pattern:
//! a fixed prefix and suffix around a literal, a single capture, or a
//! regular expression that somebody else evaluates.

use vstd::prelude::*;
use vstd::string::StringSliceAdditionalSpecFns;
use vstd::utf8::{decode_utf8, encode_utf8, is_char_boundary};

verus! {

/// What stands between the prefix and the suffix of a matcher.
pub enum InnerMatcher {
    /// A literal text.
    Literal { literal: String },
    /// Any text, captured whole, that does not hold the character `filter`
    /// and is not empty unless `allow_empty`.
    SingleCapture { filter: Option<char>, allow_empty: bool },
    /// A regular expression, which is evaluated elsewhere. `is_valid` says
    /// whether it could be compiled.
    RegExp { is_valid: bool },
}

/// The matcher of one component of a URL pattern.
pub struct Matcher {
    pub prefix: String,
    pub suffix: String,
    pub inner: InnerMatcher,
    pub ignore_case: bool,
}

/// How a match attempt ended.
#[derive(Debug, PartialEq, Eq)]
pub enum MatcherOutcome {
    /// The input does not match.
    NoMatch,
    /// The input matches, with these captures.
    Matched(Vec<Option<String>>),
    /// The input matches if the matcher's regular expression matches the
    /// given text, with the captures of that match.
    NeedsRegExp(String),
}

/// The text of an optional string.
pub open spec fn text_of(s: Option<String>) -> Option<Seq<char>> {
    match s {
        Some(s) => Some(s@),
        None => None,
    }
}

/// The texts of a list of optional strings.
pub open spec fn texts_of(list: Seq<Option<String>>) -> Seq<Option<Seq<char>>> {
    Seq::new(list.len(), |i: int| text_of(list[i]))
}

/// A match attempt's end, in plain values.
pub enum OutcomeView {
    NoMatch,
    Matched(Seq<Option<Seq<char>>>),
    NeedsRegExp(Seq<char>),
}

impl View for MatcherOutcome {
    type V = OutcomeView;

    open spec fn view(&self) -> OutcomeView {
        match self {
            MatcherOutcome::NoMatch => OutcomeView::NoMatch,
            MatcherOutcome::Matched(captures) => OutcomeView::Matched(texts_of(captures@)),
            MatcherOutcome::NeedsRegExp(text) => OutcomeView::NeedsRegExp(text@),
        }
    }
}

/// The lower-case form of a text, as `str::to_lowercase` gives it.
pub uninterp spec fn lowercase_of(s: Seq<char>) -> Seq<char>;

/// The lower-case form of a character, as `char::to_lowercase` gives it:
/// one character or several.
pub uninterp spec fn char_lowercase_of(c: char) -> Seq<char>;

/// Calls `str::to_lowercase`. Its result is named `lowercase_of`; nothing
/// more is claimed of it.
#[verifier::external_body]
fn lowercased(s: &str) -> (r: String)
    ensures
        r@ == lowercase_of(s@),
{
    s.to_lowercase()
}

/// Calls `char::to_lowercase` and collects what it yields. The result is
/// named `char_lowercase_of`; nothing more is claimed of it.
#[verifier::external_body]
fn char_lowercased(c: char) -> (r: Vec<char>)
    ensures
        r@ == char_lowercase_of(c),
{
    c.to_lowercase().collect()
}

/// Calls `str::contains` with a slice of characters: whether any of the
/// characters occurs in the text.
#[verifier::external_body]
fn contains_any(s: &str, chars: &Vec<char>) -> (r: bool)
    ensures
        r == holds_any(s@, chars@),
{
    s.contains(chars.as_slice())
}

/// Some character of `chars` occurs in `text`.
pub open spec fn holds_any(text: Seq<char>, chars: Seq<char>) -> bool {
    exists|i: int| 0 <= i < chars.len() && text.contains(#[trigger] chars[i])
}

/// `bytes` begins with `prefix`.
pub open spec fn begins_with(bytes: Seq<u8>, prefix: Seq<u8>) -> bool {
    prefix.len() <= bytes.len() && bytes.subrange(0, prefix.len() as int) == prefix
}

/// `bytes` ends with `suffix`.
pub open spec fn ends_with(bytes: Seq<u8>, suffix: Seq<u8>) -> bool {
    suffix.len() <= bytes.len() && bytes.subrange(bytes.len() - suffix.len(), bytes.len() as int)
        == suffix
}

/// Whether `bytes` begins with `prefix`.
pub fn bytes_begin_with(bytes: &[u8], prefix: &[u8]) -> (r: bool)
    ensures
        r == begins_with(bytes@, prefix@),
{
    if prefix.len() > bytes.len() {
        return false;
    }
    let mut i: usize = 0;
    while i < prefix.len()
        invariant
            i <= prefix.len() <= bytes.len(),
            bytes@.subrange(0, i as int) == prefix@.subrange(0, i as int),
        decreases prefix.len() - i,
    {
        if bytes[i] != prefix[i] {
            assert(bytes@.subrange(0, prefix@.len() as int)[i as int] != prefix@[i as int]);
            return false;
        }
        assert(bytes@.subrange(0, i as int + 1) =~= bytes@.subrange(0, i as int).push(
            bytes@[i as int],
        ));
        assert(prefix@.subrange(0, i as int + 1) =~= prefix@.subrange(0, i as int).push(
            prefix@[i as int],
        ));
        i += 1;
    }
    assert(prefix@.subrange(0, prefix@.len() as int) =~= prefix@);
    true
}

/// Whether `bytes` ends with `suffix`.
pub fn bytes_end_with(bytes: &[u8], suffix: &[u8]) -> (r: bool)
    ensures
        r == ends_with(bytes@, suffix@),
{
    if suffix.len() > bytes.len() {
        return false;
    }
    let start: usize = bytes.len() - suffix.len();
    let ghost tail = bytes@.subrange(start as int, bytes@.len() as int);
    let mut i: usize = 0;
    while i < suffix.len()
        invariant
            i <= suffix.len() <= bytes.len(),
            start == bytes.len() - suffix.len(),
            tail == bytes@.subrange(start as int, bytes@.len() as int),
            tail.subrange(0, i as int) == suffix@.subrange(0, i as int),
        decreases suffix.len() - i,
    {
        if bytes[start + i] != suffix[i] {
            assert(tail[i as int] != suffix@[i as int]);
            return false;
        }
        assert(tail.subrange(0, i as int + 1) =~= tail.subrange(0, i as int).push(tail[i as int]));
        assert(suffix@.subrange(0, i as int + 1) =~= suffix@.subrange(0, i as int).push(
            suffix@[i as int],
        ));
        i += 1;
    }
    assert(suffix@.subrange(0, suffix@.len() as int) =~= suffix@);
    assert(tail.subrange(0, tail.len() as int) =~= tail);
    true
}

/// The bytes of `input` between a prefix of `prefix_len` bytes and a
/// suffix of `suffix_len` bytes.
pub open spec fn middle_bytes(input: Seq<u8>, prefix_len: int, suffix_len: int) -> Seq<u8> {
    input.subrange(prefix_len, input.len() - suffix_len)
}

/// Whether `input` can be cut after `prefix` and before `suffix`: it is
/// long enough for both, begins with one and ends with the other, and
/// both cuts fall between characters.
pub open spec fn has_affixes(input: Seq<u8>, prefix: Seq<u8>, suffix: Seq<u8>) -> bool {
    &&& prefix.len() + suffix.len() <= input.len()
    &&& begins_with(input, prefix)
    &&& ends_with(input, suffix)
    &&& is_char_boundary(input, prefix.len() as int)
    &&& is_char_boundary(
        input.subrange(prefix.len() as int, input.len() as int),
        input.len() - suffix.len() - prefix.len(),
    )
}

/// The text that the inner matcher is applied to: the input without the
/// matcher's prefix and suffix. Nothing when the input lacks either.
pub open spec fn stripped_text(matcher: Matcher, input: Seq<char>) -> Option<Seq<char>> {
    let prefix = encode_utf8(matcher.prefix@);
    let suffix = encode_utf8(matcher.suffix@);
    let bytes = encode_utf8(input);
    if prefix.len() + suffix.len() == 0 {
        Some(input)
    } else if has_affixes(bytes, prefix, suffix) {
        Some(decode_utf8(middle_bytes(bytes, prefix.len() as int, suffix.len() as int)))
    } else {
        None
    }
}

/// Cuts the prefix and the suffix of a matcher off the input.
pub fn strip_affixes<'a>(matcher: &Matcher, input: &'a str) -> (middle: Option<&'a str>)
    ensures
        middle.is_some() == stripped_text(*matcher, input@).is_some(),
        middle.is_some() ==> middle.unwrap()@ == stripped_text(*matcher, input@).unwrap(),
{
    broadcast use vstd::utf8::encode_utf8_decode_utf8;
    broadcast use vstd::utf8::encode_utf8_valid_utf8;

    let prefix = matcher.prefix.as_str();
    let suffix = matcher.suffix.as_str();
    let prefix_len = prefix.as_bytes().len();
    let suffix_len = suffix.as_bytes().len();
    let input_len = input.as_bytes().len();
    if prefix_len == 0 && suffix_len == 0 {
        return Some(input);
    }
    if prefix_len > input_len || suffix_len > input_len - prefix_len {
        return None;
    }
    if !bytes_begin_with(input.as_bytes(), prefix.as_bytes()) {
        return None;
    }
    if !bytes_end_with(input.as_bytes(), suffix.as_bytes()) {
        return None;
    }
    if !input.is_char_boundary(prefix_len) {
        return None;
    }
    let (head, rest) = input.split_at(prefix_len);
    let keep = input_len - suffix_len - prefix_len;
    assert(rest.spec_bytes() == input.spec_bytes().subrange(
        prefix_len as int,
        input_len as int,
    ));
    if !rest.is_char_boundary(keep) {
        return None;
    }
    let (middle, tail) = rest.split_at(keep);
    assert(middle.spec_bytes() =~= middle_bytes(
        input.spec_bytes(),
        prefix_len as int,
        suffix_len as int,
    ));
    assert(decode_utf8(encode_utf8(middle@)) == middle@);
    Some(middle)
}

/// The outcome of a single capture over `input`, when the characters
/// `excluded` are looked for in `haystack`: no match for an empty input
/// that is not allowed or when an excluded character is found, else the
/// input as the one capture.
pub open spec fn capture_outcome(
    input: Seq<char>,
    allow_empty: bool,
    haystack: Seq<char>,
    excluded: Seq<char>,
) -> OutcomeView {
    if input.len() == 0 && !allow_empty {
        OutcomeView::NoMatch
    } else if holds_any(haystack, excluded) {
        OutcomeView::NoMatch
    } else {
        OutcomeView::Matched(seq![Some(input)])
    }
}

/// Decides a single capture over `input`, looking for the characters
/// `excluded` in `haystack`.
pub fn single_capture(input: &str, allow_empty: bool, haystack: &str, excluded: &Vec<char>) -> (r:
    MatcherOutcome)
    ensures
        r@ == capture_outcome(input@, allow_empty, haystack@, excluded@),
{
    if input.is_empty() && !allow_empty {
        return MatcherOutcome::NoMatch;
    }
    if contains_any(haystack, excluded) {
        return MatcherOutcome::NoMatch;
    }
    let mut captures: Vec<Option<String>> = Vec::new();
    captures.push(Some(input.to_owned()));
    assert(texts_of(captures@) =~= seq![Some(input@)]);
    MatcherOutcome::Matched(captures)
}

/// The outcome of a literal: a match without captures if the two texts
/// are equal.
pub open spec fn literal_outcome(input: Seq<char>, literal: Seq<char>) -> OutcomeView {
    if input == literal {
        OutcomeView::Matched(Seq::empty())
    } else {
        OutcomeView::NoMatch
    }
}

/// Decides a literal by comparing the two texts.
pub fn literal_match(input: &String, literal: &String) -> (r: MatcherOutcome)
    ensures
        r@ == literal_outcome(input@, literal@),
{
    if *input == *literal {
        let captures: Vec<Option<String>> = Vec::new();
        assert(texts_of(captures@) =~= Seq::<Option<Seq<char>>>::empty());
        MatcherOutcome::Matched(captures)
    } else {
        MatcherOutcome::NoMatch
    }
}

/// The outcome of the inner matcher over the stripped text. Where case is
/// ignored, a literal is compared in lower case, and a single capture
/// looks for the lower-case forms of its filter in the lower-case text.
pub open spec fn inner_outcome(matcher: Matcher, text: Seq<char>) -> OutcomeView {
    match matcher.inner {
        InnerMatcher::Literal { literal } => if matcher.ignore_case {
            literal_outcome(lowercase_of(text), lowercase_of(literal@))
        } else {
            literal_outcome(text, literal@)
        },
        InnerMatcher::SingleCapture { filter, allow_empty } => match filter {
            Some(c) => if matcher.ignore_case {
                capture_outcome(text, allow_empty, lowercase_of(text), char_lowercase_of(c))
            } else {
                capture_outcome(text, allow_empty, text, seq![c])
            },
            None => capture_outcome(text, allow_empty, text, Seq::empty()),
        },
        InnerMatcher::RegExp { is_valid } => if is_valid {
            OutcomeView::NeedsRegExp(text)
        } else {
            OutcomeView::NoMatch
        },
    }
}

/// The outcome of matching `input` against a matcher.
pub open spec fn matcher_outcome(matcher: Matcher, input: Seq<char>) -> OutcomeView {
    match stripped_text(matcher, input) {
        Some(text) => inner_outcome(matcher, text),
        None => OutcomeView::NoMatch,
    }
}

/// Matches `input` against the matcher of a component. A matcher with a
/// regular expression is not decided here: the outcome names the text
/// that the expression has to be tried on.
pub fn matcher_matches(matcher: &Matcher, input: &str) -> (r: MatcherOutcome)
    ensures
        r@ == matcher_outcome(*matcher, input@),
{
    let text = match strip_affixes(matcher, input) {
        Some(text) => text,
        None => {
            return MatcherOutcome::NoMatch;
        },
    };
    match &matcher.inner {
        InnerMatcher::Literal { literal } => {
            if matcher.ignore_case {
                literal_match(&lowercased(text), &lowercased(literal.as_str()))
            } else {
                literal_match(&text.to_owned(), literal)
            }
        },
        InnerMatcher::SingleCapture { filter, allow_empty } => {
            match filter {
                Some(filter) => {
                    if matcher.ignore_case {
                        let haystack = lowercased(text);
                        let excluded = char_lowercased(*filter);
                        single_capture(text, *allow_empty, haystack.as_str(), &excluded)
                    } else {
                        let mut excluded: Vec<char> = Vec::new();
                        excluded.push(*filter);
                        assert(excluded@ =~= seq![*filter]);
                        single_capture(text, *allow_empty, text, &excluded)
                    }
                },
                None => {
                    let excluded: Vec<char> = Vec::new();
                    single_capture(text, *allow_empty, text, &excluded)
                },
            }
        },
        InnerMatcher::RegExp { is_valid } => {
            if *is_valid {
                MatcherOutcome::NeedsRegExp(text.to_owned())
            } else {
                MatcherOutcome::NoMatch
            }
        },
    }
}

} // verus!
