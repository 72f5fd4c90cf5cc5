//! Absolute URLs, as `http_types::Url` holds them.
//!
//! A `Url` keeps its own serialization and is a function of it: two URLs with
//! the same text are the same URL. The contracts here speak of that text.

use vstd::prelude::*;
use vstd::utf8::encode_utf8;

verus! {

/// `http_types::Url`, the `Url` of the `url` crate: opaque but for the text
/// that `url_text` names.
#[verifier::external_type_specification]
#[verifier::external_body]
pub struct ExUrl(http_types::Url);

/// The error of `Url::parse`: opaque.
#[verifier::external_type_specification]
#[verifier::external_body]
pub struct ExUrlParseError(http_types::url::ParseError);

/// The serialization that a `Url` holds: the text that `Url::as_str` returns.
pub uninterp spec fn url_text(url: http_types::Url) -> Seq<char>;

/// What `Url::parse` makes of a text: the serialization of the parsed URL, or
/// `None` where the text is no absolute URL.
pub uninterp spec fn parsed_url(input: Seq<char>) -> Option<Seq<char>>;

/// The serialization of a URL after `Url::set_path`: the URL with its path
/// replaced by the percent-encoded, dot-normalised input.
pub uninterp spec fn url_with_path(url: Seq<char>, path: Seq<char>) -> Seq<char>;

/// The serialization of a URL after `Url::set_query` with a query: the URL
/// with `?` and the percent-encoded input in place of any former query.
pub uninterp spec fn url_with_query(url: Seq<char>, query: Seq<char>) -> Seq<char>;

/// A `Url` counts its bytes in 32 bits. Each byte of an input's UTF-8 text
/// becomes at most three bytes of the URL, where it is percent-encoded, and
/// a few separators may be added; sixteen bytes are left for them.
pub open spec fn url_edit_fits(url: Seq<char>, input: Seq<char>) -> bool {
    url.len() + 3 * encode_utf8(input).len() + 16 <= u32::MAX
}

/// `Url::parse`. The outcome is a function of the text alone.
#[verifier::external_body]
pub(crate) fn parse_url(input: &str) -> (r: Result<http_types::Url, http_types::url::ParseError>)
    ensures
        match r {
            Ok(url) => parsed_url(input@) == Some(url_text(url)),
            Err(_) => parsed_url(input@) is None,
        },
{
    http_types::Url::parse(input)
}

/// `Clone` of `Url`: the copy holds the same serialization.
pub assume_specification[ <http_types::Url as Clone>::clone ](url: &http_types::Url) -> (r:
    http_types::Url)
    ensures
        url_text(r) == url_text(*url),
;

/// `Url::as_str`: the serialization.
pub assume_specification<'a>[ http_types::Url::as_str ](url: &'a http_types::Url) -> (r: &'a str)
    ensures
        r@ == url_text(*url),
;

/// `Url::set_path`. The call panics where the new serialization outgrows 32
/// bits, which `requires` leaves out.
pub assume_specification[ http_types::Url::set_path ](url: &mut http_types::Url, path: &str)
    requires
        url_edit_fits(url_text(*old(url)), path@),
    ensures
        url_text(*final(url)) == url_with_path(url_text(*old(url)), path@),
;

/// `Url::set_query` with a query. The call panics where the new
/// serialization outgrows 32 bits, which `requires` leaves out.
#[verifier::external_body]
pub(crate) fn set_url_query(url: &mut http_types::Url, query: &str)
    requires
        url_edit_fits(url_text(*old(url)), query@),
    ensures
        url_text(*final(url)) == url_with_query(url_text(*old(url)), query@),
{
    url.set_query(Some(query))
}

} // verus!
