//! The fields of a URL pattern initialiser as they cross a C boundary, and
//! the initialiser that a constructor string gives.

use crate::maybe_string::{maybe_to_option_string, MaybeString};
use url::Url;
use urlpattern::UrlPatternInit;
use vstd::prelude::*;

verus! {

/// `url::Url`, carried through without a look inside.
#[verifier::external_type_specification]
#[verifier::external_body]
pub struct ExUrl(url::Url);

/// `urlpattern::UrlPatternInit`, carried through without a look inside.
#[verifier::external_type_specification]
#[verifier::external_body]
pub struct ExUrlPatternInit(urlpattern::UrlPatternInit);

/// The fields of an initialiser, each a text that may be absent.
pub struct UrlpInit {
    pub protocol: MaybeString,
    pub username: MaybeString,
    pub password: MaybeString,
    pub hostname: MaybeString,
    pub port: MaybeString,
    pub pathname: MaybeString,
    pub search: MaybeString,
    pub hash: MaybeString,
    pub base_url: MaybeString,
}

/// The fields of an initialiser as optional strings.
pub struct InitFields {
    pub protocol: Option<String>,
    pub username: Option<String>,
    pub password: Option<String>,
    pub hostname: Option<String>,
    pub port: Option<String>,
    pub pathname: Option<String>,
    pub search: Option<String>,
    pub hash: Option<String>,
    pub base_url: Option<String>,
}

/// The text of an optional string.
pub open spec fn field_text(s: Option<String>) -> Option<Seq<char>> {
    match s {
        Some(s) => Some(s@),
        None => None,
    }
}

/// The fields given take over the texts of `init`; the base URL is what
/// `base` says.
pub open spec fn fields_match(fields: InitFields, init: UrlpInit, base: Option<Seq<char>>) -> bool {
    &&& field_text(fields.protocol) == init.protocol.text()
    &&& field_text(fields.username) == init.username.text()
    &&& field_text(fields.password) == init.password.text()
    &&& field_text(fields.hostname) == init.hostname.text()
    &&& field_text(fields.port) == init.port.text()
    &&& field_text(fields.pathname) == init.pathname.text()
    &&& field_text(fields.search) == init.search.text()
    &&& field_text(fields.hash) == init.hash.text()
    &&& field_text(fields.base_url) == base
}

/// The base URL to parse for a pattern: the text of a valid base that is
/// not empty.
pub open spec fn base_to_parse(base: MaybeString) -> Option<Seq<char>> {
    if base.valid && base.string@.len() > 0 {
        Some(base.string@)
    } else {
        None
    }
}

/// The fields of `init`, with every valid base URL kept as it is.
pub fn init_fields(init: &UrlpInit) -> (fields: InitFields)
    ensures
        fields_match(fields, *init, init.base_url.text()),
{
    InitFields {
        protocol: maybe_to_option_string(&init.protocol),
        username: maybe_to_option_string(&init.username),
        password: maybe_to_option_string(&init.password),
        hostname: maybe_to_option_string(&init.hostname),
        port: maybe_to_option_string(&init.port),
        pathname: maybe_to_option_string(&init.pathname),
        search: maybe_to_option_string(&init.search),
        hash: maybe_to_option_string(&init.hash),
        base_url: maybe_to_option_string(&init.base_url),
    }
}

/// The fields of `init` for a pattern: an empty base URL counts as none.
pub fn pattern_init_fields(init: &UrlpInit) -> (fields: InitFields)
    ensures
        fields_match(fields, *init, base_to_parse(init.base_url)),
{
    let maybe_base = if init.base_url.valid {
        let s = init.base_url.string.clone();
        if s.as_str().is_empty() {
            None
        } else {
            Some(s)
        }
    } else {
        None
    };
    InitFields {
        protocol: maybe_to_option_string(&init.protocol),
        username: maybe_to_option_string(&init.username),
        password: maybe_to_option_string(&init.password),
        hostname: maybe_to_option_string(&init.hostname),
        port: maybe_to_option_string(&init.port),
        pathname: maybe_to_option_string(&init.pathname),
        search: maybe_to_option_string(&init.search),
        hash: maybe_to_option_string(&init.hash),
        base_url: maybe_base,
    }
}

/// Whether `Url::parse` accepts a text.
pub uninterp spec fn url_parses(text: Seq<char>) -> bool;

/// Whether `UrlPatternInit::parse_constructor_string`, with regular
/// expressions of the `regex` crate, accepts a constructor string, with or
/// without a base URL.
pub uninterp spec fn constructor_string_parses(pattern: Seq<char>, has_base_url: bool) -> bool;

/// Calls `Url::parse`. Whether it succeeds is named `url_parses`; nothing
/// is claimed of the URL it gives.
#[verifier::external_body]
fn parse_url(text: &str) -> (url: Option<Url>)
    ensures
        url.is_some() == url_parses(text@),
{
    Url::parse(text).ok()
}

/// Calls `UrlPatternInit::parse_constructor_string` with regular
/// expressions of the `regex` crate. Whether it succeeds depends on the
/// string and on whether a base URL is given, and is named
/// `constructor_string_parses`; nothing is claimed of the initialiser it
/// gives.
#[verifier::external_body]
fn parse_constructor_string(pattern: &str, base_url: Option<Url>) -> (init: Option<UrlPatternInit>)
    ensures
        init.is_some() == constructor_string_parses(pattern@, base_url.is_some()),
{
    UrlPatternInit::parse_constructor_string::<regex::Regex>(pattern, base_url).ok()
}

/// The initialiser of a constructor string, given the outcome of parsing
/// the base URL: the parsed string, if there is one.
pub fn init_with_base(input: Option<&str>, base: Option<Url>) -> (init: Option<UrlPatternInit>)
    ensures
        init.is_some() == (input.is_some() && constructor_string_parses(
            input.unwrap()@,
            base.is_some(),
        )),
{
    match input {
        Some(input) => parse_constructor_string(input, base),
        None => None,
    }
}

/// The initialiser that a constructor string gives. A base URL that is
/// absent or cannot be parsed counts as none. There is an initialiser
/// exactly if there is an input and the parser accepts it.
pub fn init_from_string_and_base_url(input: Option<&str>, base_url: Option<&str>) -> (init: Option<
    UrlPatternInit,
>)
    ensures
        init.is_some() == (input.is_some() && constructor_string_parses(
            input.unwrap()@,
            base_url.is_some() && url_parses(base_url.unwrap()@),
        )),
{
    if input.is_none() {
        return None;
    }
    let maybe_base = match base_url {
        Some(text) => parse_url(text),
        None => None,
    };
    init_with_base(input, maybe_base)
}

} // verus!
