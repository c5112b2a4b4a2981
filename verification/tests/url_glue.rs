use quad_prep::match_results::{collect_regexp_matches, write_component_matches};
use quad_prep::maybe_string::{maybe_to_option_string, option_to_maybe_string, MaybeString};
use quad_prep::site_resolver::host_domain_range;
use quad_prep::url_init::{
    init_fields, init_from_string_and_base_url, pattern_init_fields, UrlpInit,
};
use quad_prep::url_matcher::{
    bytes_begin_with, bytes_end_with, literal_match, matcher_matches, single_capture,
    strip_affixes, InnerMatcher, Matcher, MatcherOutcome,
};
use thin_vec::ThinVec;

fn valid(s: &str) -> MaybeString {
    MaybeString { string: s.to_string(), valid: true }
}

fn invalid(s: &str) -> MaybeString {
    MaybeString { string: s.to_string(), valid: false }
}

#[test]
fn maybe_string_to_option() {
    assert_eq!(maybe_to_option_string(&valid("abc")), Some("abc".to_string()));
    assert_eq!(maybe_to_option_string(&valid("")), Some(String::new()));
    assert_eq!(maybe_to_option_string(&invalid("abc")), None);
    let m = MaybeString::new(&"x".to_string());
    assert!(m.valid);
    assert_eq!(m.string, "x");
    let n = MaybeString::none();
    assert!(!n.valid);
    assert_eq!(n.string, "");
}

#[test]
fn option_to_maybe_string_marks_absence() {
    let some = option_to_maybe_string(Some("héllo".to_string()));
    assert!(some.valid);
    assert_eq!(some.string, "héllo");
    let none = option_to_maybe_string(None);
    assert!(!none.valid);
    assert_eq!(none.string, "");
}

#[test]
fn regexp_matches_are_collected_in_order() {
    let mut results = ThinVec::new();
    results.push(valid("a"));
    results.push(invalid("ignored"));
    results.push(valid(""));
    assert_eq!(
        collect_regexp_matches(true, true, &results),
        Some(vec![Some("a".to_string()), None, Some(String::new())])
    );
    assert_eq!(collect_regexp_matches(false, true, &results), None);
    assert_eq!(collect_regexp_matches(true, false, &results), None);
    assert_eq!(collect_regexp_matches(true, true, &ThinVec::new()), Some(Vec::new()));
}

#[test]
fn component_matches_are_appended() {
    let mut res = ThinVec::new();
    res.push(valid("before"));
    let matched = write_component_matches(
        &Some(vec![Some("x".to_string()), None, Some("y".to_string())]),
        &mut res,
    );
    assert!(matched);
    assert_eq!(res.len(), 4);
    assert_eq!(res[0].string, "before");
    assert!(res[1].valid && res[1].string == "x");
    assert!(!res[2].valid && res[2].string.is_empty());
    assert!(res[3].valid && res[3].string == "y");
    assert!(!write_component_matches(&None, &mut res));
    assert_eq!(res.len(), 4);
    assert!(write_component_matches(&Some(Vec::new()), &mut res));
    assert_eq!(res.len(), 4);
}

#[test]
fn domain_range_is_the_tail_of_the_host() {
    assert_eq!(host_domain_range(15, Some(11)), (4, 15));
    assert_eq!(host_domain_range(11, Some(11)), (0, 11));
    assert_eq!(host_domain_range(11, Some(12)), (0, 11));
    assert_eq!(host_domain_range(11, Some(0)), (0, 11));
    assert_eq!(host_domain_range(11, None), (0, 11));
    assert_eq!(host_domain_range(0, Some(0)), (0, 0));
}

fn init(base: MaybeString) -> UrlpInit {
    UrlpInit {
        protocol: valid("https"),
        username: invalid(""),
        password: invalid("secret"),
        hostname: valid("example.com"),
        port: valid(""),
        pathname: valid("/a/:b"),
        search: invalid(""),
        hash: valid("top"),
        base_url: base,
    }
}

#[test]
fn init_fields_are_taken_over() {
    let fields = init_fields(&init(valid("")));
    assert_eq!(fields.protocol, Some("https".to_string()));
    assert_eq!(fields.username, None);
    assert_eq!(fields.password, None);
    assert_eq!(fields.hostname, Some("example.com".to_string()));
    assert_eq!(fields.port, Some(String::new()));
    assert_eq!(fields.pathname, Some("/a/:b".to_string()));
    assert_eq!(fields.search, None);
    assert_eq!(fields.hash, Some("top".to_string()));
    assert_eq!(fields.base_url, Some(String::new()));
    assert_eq!(init_fields(&init(invalid("x"))).base_url, None);
    assert_eq!(init_fields(&init(valid("http://a/"))).base_url, Some("http://a/".to_string()));
}

#[test]
fn empty_base_of_a_pattern_counts_as_none() {
    assert_eq!(pattern_init_fields(&init(valid(""))).base_url, None);
    assert_eq!(pattern_init_fields(&init(invalid("http://a/"))).base_url, None);
    let fields = pattern_init_fields(&init(valid("http://a/")));
    assert_eq!(fields.base_url, Some("http://a/".to_string()));
    assert_eq!(fields.pathname, Some("/a/:b".to_string()));
    assert_eq!(fields.username, None);
}

#[test]
fn constructor_string_gives_an_initialiser() {
    let init = init_from_string_and_base_url(Some("https://example.com/books/:id"), None).unwrap();
    assert_eq!(init.protocol, Some("https".to_string()));
    assert_eq!(init.hostname, Some("example.com".to_string()));
    assert_eq!(init.pathname, Some("/books/:id".to_string()));
    assert_eq!(init.base_url, None);
    let based =
        init_from_string_and_base_url(Some("/books/:id"), Some("https://example.com/x")).unwrap();
    assert_eq!(based.pathname, Some("/books/:id".to_string()));
    assert_eq!(based.base_url.unwrap().as_str(), "https://example.com/x");
}

#[test]
fn constructor_string_without_protocol_needs_a_base() {
    assert!(init_from_string_and_base_url(Some("/books/:id"), None).is_none());
    assert!(init_from_string_and_base_url(Some("/books/:id"), Some("not a url")).is_none());
    assert!(init_from_string_and_base_url(None, Some("https://example.com/")).is_none());
    assert!(init_from_string_and_base_url(None, None).is_none());
}

fn matcher(prefix: &str, suffix: &str, inner: InnerMatcher, ignore_case: bool) -> Matcher {
    Matcher { prefix: prefix.to_string(), suffix: suffix.to_string(), inner, ignore_case }
}

fn capture(filter: Option<char>, allow_empty: bool) -> InnerMatcher {
    InnerMatcher::SingleCapture { filter, allow_empty }
}

fn matched(captures: &[Option<&str>]) -> MatcherOutcome {
    MatcherOutcome::Matched(captures.iter().map(|c| c.map(|s| s.to_string())).collect())
}

#[test]
fn bytes_are_compared_at_both_ends() {
    assert!(bytes_begin_with(b"/old/x", b"/old/"));
    assert!(bytes_begin_with(b"abc", b""));
    assert!(bytes_begin_with(b"abc", b"abc"));
    assert!(!bytes_begin_with(b"abc", b"abd"));
    assert!(!bytes_begin_with(b"ab", b"abc"));
    assert!(bytes_end_with(b"x.js", b".js"));
    assert!(bytes_end_with(b"abc", b""));
    assert!(bytes_end_with(b"abc", b"abc"));
    assert!(!bytes_end_with(b"x.jss", b".js"));
    assert!(!bytes_end_with(b"js", b".js"));
}

#[test]
fn affixes_are_cut_off() {
    let m = matcher("/scripts/", ".js", capture(None, false), false);
    assert_eq!(strip_affixes(&m, "/scripts/main.js"), Some("main"));
    assert_eq!(strip_affixes(&m, "/scripts/.js"), Some(""));
    assert_eq!(strip_affixes(&m, "/scripts/js"), None);
    assert_eq!(strip_affixes(&m, "/script/main.js"), None);
    assert_eq!(strip_affixes(&m, "/scripts/main.jsx"), None);
    let bare = matcher("", "", capture(None, false), false);
    assert_eq!(strip_affixes(&bare, "anything"), Some("anything"));
    let accented = matcher("é", "ü", capture(None, false), false);
    assert_eq!(strip_affixes(&accented, "éaü"), Some("a"));
    assert_eq!(strip_affixes(&accented, "éü"), Some(""));
    assert_eq!(strip_affixes(&accented, "é"), None);
}

#[test]
fn literal_is_compared_exactly_or_in_lower_case() {
    let exact = matcher("/", "", InnerMatcher::Literal { literal: "Foo".to_string() }, false);
    assert_eq!(matcher_matches(&exact, "/Foo"), matched(&[]));
    assert_eq!(matcher_matches(&exact, "/foo"), MatcherOutcome::NoMatch);
    assert_eq!(matcher_matches(&exact, "Foo"), MatcherOutcome::NoMatch);
    let loose = matcher("/", "", InnerMatcher::Literal { literal: "Foo".to_string() }, true);
    assert_eq!(matcher_matches(&loose, "/fOO"), matched(&[]));
    assert_eq!(matcher_matches(&loose, "/ÉFOO"), MatcherOutcome::NoMatch);
    assert_eq!(matcher_matches(&loose, "/fo"), MatcherOutcome::NoMatch);
    assert_eq!(
        literal_match(&"a".to_string(), &"a".to_string()),
        matched(&[])
    );
    assert_eq!(literal_match(&"a".to_string(), &"A".to_string()), MatcherOutcome::NoMatch);
}

#[test]
fn single_capture_captures_the_stripped_text() {
    let m = matcher("/blog/", ".html", capture(Some('/'), false), false);
    assert_eq!(matcher_matches(&m, "/blog/post.html"), matched(&[Some("post")]));
    assert_eq!(matcher_matches(&m, "/blog/a/b.html"), MatcherOutcome::NoMatch);
    assert_eq!(matcher_matches(&m, "/blog/.html"), MatcherOutcome::NoMatch);
    let empty_ok = matcher("/blog/", "", capture(Some('/'), true), false);
    assert_eq!(matcher_matches(&empty_ok, "/blog/"), matched(&[Some("")]));
    let any = matcher("", "", capture(None, true), false);
    assert_eq!(matcher_matches(&any, "a/b"), matched(&[Some("a/b")]));
}

#[test]
fn single_capture_filter_ignores_case_when_asked() {
    let strict = matcher("", "", capture(Some('x'), false), false);
    assert_eq!(matcher_matches(&strict, "aXb"), matched(&[Some("aXb")]));
    assert_eq!(matcher_matches(&strict, "axb"), MatcherOutcome::NoMatch);
    let loose = matcher("", "", capture(Some('X'), false), true);
    assert_eq!(matcher_matches(&loose, "aXb"), MatcherOutcome::NoMatch);
    assert_eq!(matcher_matches(&loose, "axb"), MatcherOutcome::NoMatch);
    assert_eq!(matcher_matches(&loose, "ab"), matched(&[Some("ab")]));
    // The capture keeps the case of the input.
    let keeps = matcher("", "", capture(Some('/'), false), true);
    assert_eq!(matcher_matches(&keeps, "AbC"), matched(&[Some("AbC")]));
    assert_eq!(
        single_capture("AbC", false, "abc", &vec!['b', 'z']),
        MatcherOutcome::NoMatch
    );
    assert_eq!(single_capture("AbC", false, "abc", &vec!['y', 'z']), matched(&[Some("AbC")]));
    assert_eq!(single_capture("", false, "", &vec![]), MatcherOutcome::NoMatch);
    assert_eq!(single_capture("", true, "", &vec![]), matched(&[Some("")]));
}

#[test]
fn regular_expression_is_left_to_its_evaluator() {
    let m = matcher("/foo/", "", InnerMatcher::RegExp { is_valid: true }, false);
    assert_eq!(matcher_matches(&m, "/foo/12"), MatcherOutcome::NeedsRegExp("12".to_string()));
    assert_eq!(matcher_matches(&m, "/bar/12"), MatcherOutcome::NoMatch);
    let broken = matcher("/foo/", "", InnerMatcher::RegExp { is_valid: false }, false);
    assert_eq!(matcher_matches(&broken, "/foo/12"), MatcherOutcome::NoMatch);
}
