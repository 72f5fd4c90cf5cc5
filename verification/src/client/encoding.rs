//! Text encodings that the engine takes from other crates: Base64, query
//! strings, form bodies and JSON.

use vstd::prelude::*;

verus! {

/// The error of `serde_qs`: opaque.
#[verifier::external_type_specification]
#[verifier::external_body]
pub struct ExQueryStringError(serde_qs::Error);

/// The error of `serde_urlencoded`'s serializer: opaque.
#[verifier::external_type_specification]
#[verifier::external_body]
pub struct ExFormError(serde_urlencoded::ser::Error);

/// The error of `serde_json`: opaque.
#[verifier::external_type_specification]
#[verifier::external_body]
pub struct ExJsonError(serde_json::Error);

/// A JSON value of any shape: opaque, carried through as it is.
#[verifier::external_type_specification]
#[verifier::external_body]
pub struct ExJsonValue(serde_json::Value);

/// The character of a six-bit value in the standard Base64 alphabet: `A` to
/// `Z`, `a` to `z`, `0` to `9`, `+` and `/`.
pub open spec fn base64_char(value: int) -> char
    recommends
        0 <= value < 64,
{
    if value < 26 {
        ((65 + value) as u8) as char
    } else if value < 52 {
        ((71 + value) as u8) as char
    } else if value < 62 {
        ((value - 4) as u8) as char
    } else if value == 62 {
        '+'
    } else {
        '/'
    }
}

/// The padded Base64 text of a byte string in the standard alphabet, as
/// `base64`'s `STANDARD` engine writes it: every three bytes become four
/// characters of six bits each, and a last group of one or two bytes is
/// filled with zero bits and padded with `=` to four characters.
pub open spec fn base64_standard(data: Seq<u8>) -> Seq<char>
    decreases data.len(),
{
    if data.len() == 0 {
        Seq::empty()
    } else if data.len() == 1 {
        let a = data[0] as int;
        seq![base64_char(a / 4), base64_char(a % 4 * 16), '=', '=']
    } else if data.len() == 2 {
        let a = data[0] as int;
        let b = data[1] as int;
        seq![
            base64_char(a / 4),
            base64_char(a % 4 * 16 + b / 16),
            base64_char(b % 16 * 4),
            '=',
        ]
    } else {
        let a = data[0] as int;
        let b = data[1] as int;
        let c = data[2] as int;
        seq![
            base64_char(a / 4),
            base64_char(a % 4 * 16 + b / 16),
            base64_char(b % 16 * 4 + c / 64),
            base64_char(c % 64),
        ] + base64_standard(data.skip(3))
    }
}

/// Base64 text holds four characters for every three bytes, the last group
/// counted in full.
pub proof fn lemma_base64_length(data: Seq<u8>)
    ensures
        base64_standard(data).len() == (data.len() + 2) / 3 * 4,
    decreases data.len(),
{
    if data.len() >= 3 {
        lemma_base64_length(data.skip(3));
    }
}

/// What `serde_qs` writes for a map of the one entry `key`, `value`: the
/// percent-encoded pair, or `None` where it refuses the entry.
pub uninterp spec fn query_pair_text(key: Seq<char>, value: Seq<char>) -> Option<Seq<char>>;

/// What `serde_urlencoded` writes for a sequence of key/value pairs: the
/// `application/x-www-form-urlencoded` text, or `None` where it refuses them.
pub uninterp spec fn form_text(pairs: Seq<(Seq<char>, Seq<char>)>) -> Option<Seq<char>>;

/// What `serde_json::Error::is_eof` answers of an error: whether decoding
/// failed because the input ended too early.
pub uninterp spec fn json_error_at_end(error: serde_json::Error) -> bool;

/// The JSON text that `serde_json` writes for a JSON value, or `None` where
/// it cannot write the value.
pub uninterp spec fn json_text(value: serde_json::Value) -> Option<Seq<char>>;

/// The text that `Display` writes for a `serde_json::Error`.
pub uninterp spec fn json_error_text(error: serde_json::Error) -> Seq<char>;

/// The characters that both `serde_qs` and `serde_urlencoded` copy as they
/// are: ASCII letters and digits, `*`, `-`, `.` and `_`. Every other byte is
/// percent-encoded or, for a space, written as `+`.
pub open spec fn is_plain_char(c: char) -> bool {
    ||| '0' <= c <= '9'
    ||| 'A' <= c <= 'Z'
    ||| 'a' <= c <= 'z'
    ||| c == '*'
    ||| c == '-'
    ||| c == '.'
    ||| c == '_'
}

/// A text of characters that are copied as they are.
pub open spec fn is_plain(text: Seq<char>) -> bool {
    forall|i: int| 0 <= i < text.len() ==> is_plain_char(#[trigger] text[i])
}

/// Pairs whose keys and values are all copied as they are.
pub open spec fn all_plain(pairs: Seq<(Seq<char>, Seq<char>)>) -> bool {
    forall|i: int|
        0 <= i < pairs.len() ==> is_plain((#[trigger] pairs[i]).0) && is_plain(pairs[i].1)
}

/// A key and a value with `=` between them.
pub open spec fn pair_text(key: Seq<char>, value: Seq<char>) -> Seq<char> {
    key + seq!['='] + value
}

/// Pairs written one after the other, each as key, `=` and value, with `&`
/// between them.
pub open spec fn joined_pairs(pairs: Seq<(Seq<char>, Seq<char>)>) -> Seq<char>
    decreases pairs.len(),
{
    if pairs.len() == 0 {
        Seq::empty()
    } else if pairs.len() == 1 {
        pair_text(pairs[0].0, pairs[0].1)
    } else {
        joined_pairs(pairs.drop_last()) + seq!['&'] + pair_text(pairs.last().0, pairs.last().1)
    }
}

/// Pairs that are joined give a text that is not empty as soon as there is
/// one pair: each pair holds at least its `=`.
pub proof fn lemma_joined_pairs_not_empty(pairs: Seq<(Seq<char>, Seq<char>)>)
    requires
        pairs.len() > 0,
    ensures
        joined_pairs(pairs).len() > 0,
{
    let last = pair_text(pairs.last().0, pairs.last().1);
    assert(last.len() > 0);
}

/// The largest input that `base64` can size the output for.
pub open spec fn base64_fits(len: nat) -> bool {
    len / 3 * 4 + 4 <= usize::MAX
}

/// `Engine::encode` on `general_purpose::STANDARD`, the engine of the
/// standard alphabet with padding. The call panics where it cannot compute
/// the output's size, which `requires` leaves out; the result is the Base64
/// text of exactly the bytes given.
#[verifier::external_body]
pub(crate) fn base64_encode(data: &[u8]) -> (r: String)
    requires
        base64_fits(data@.len()),
    ensures
        r@ == base64_standard(data@),
{
    base64::Engine::encode(&base64::engine::general_purpose::STANDARD, data)
}

/// `serde_qs::to_string` on a map that holds one entry. The result is a
/// function of key and value alone. The serializer writes the key, `=` and
/// the value, each percent-encoded but for the characters of `is_plain_char`
/// (its `QS_ENCODE_SET` is everything not alphanumeric, less space, `*`, `-`,
/// `.` and `_`); so a pair of plain texts is written as it is, and is never
/// refused.
#[verifier::external_body]
pub(crate) fn encode_query_pair(key: &str, value: &str) -> (r: Result<String, serde_qs::Error>)
    ensures
        match r {
            Ok(text) => query_pair_text(key@, value@) == Some(text@),
            Err(_) => query_pair_text(key@, value@) is None,
        },
        is_plain(key@) && is_plain(value@) ==> r is Ok && r->Ok_0@ == pair_text(key@, value@),
{
    let mut entry = std::collections::BTreeMap::new();
    entry.insert(key, value);
    serde_qs::to_string(&entry)
}

/// `serde_urlencoded::to_string` on a sequence of key/value pairs. The result
/// is a function of the pairs alone. The serializer writes each pair as key,
/// `=` and value, with `&` between pairs, and leaves the bytes of
/// `is_plain_char` unchanged (`byte_serialized_unchanged` of
/// `form_urlencoded`); so plain pairs are written as they are, and are never
/// refused.
#[verifier::external_body]
pub(crate) fn encode_form(pairs: &Vec<(String, String)>) -> (r: Result<
    String,
    serde_urlencoded::ser::Error,
>)
    ensures
        match r {
            Ok(text) => form_text(pairs.deep_view()) == Some(text@),
            Err(_) => form_text(pairs.deep_view()) is None,
        },
        all_plain(pairs.deep_view()) ==> r is Ok && r->Ok_0@ == joined_pairs(pairs.deep_view()),
{
    serde_urlencoded::to_string(pairs)
}

/// `Display` of `serde_qs::Error`: the text that describes the failure.
#[verifier::external_body]
pub(crate) fn query_error_message(error: &serde_qs::Error) -> (r: String) {
    error.to_string()
}

/// `Display` of `serde_urlencoded::ser::Error`: the text that describes the
/// failure.
#[verifier::external_body]
pub(crate) fn form_error_message(error: &serde_urlencoded::ser::Error) -> (r: String) {
    error.to_string()
}

/// `serde_json::from_str`. What it returns depends on how the target type
/// reads JSON, so nothing is claimed of it.
#[verifier::external_body]
pub(crate) fn json_from_str<T: serde::de::DeserializeOwned>(text: &str) -> (r: Result<
    T,
    serde_json::Error,
>) {
    serde_json::from_str(text)
}

/// `serde_json::to_string` on a JSON value. The text is a function of the
/// value alone.
#[verifier::external_body]
pub(crate) fn json_to_string(value: &serde_json::Value) -> (r: Result<String, serde_json::Error>)
    ensures
        match r {
            Ok(text) => json_text(*value) == Some(text@),
            Err(_) => json_text(*value) is None,
        },
{
    serde_json::to_string(value)
}

/// `serde_json::Error::is_eof`: whether decoding failed because the input
/// ended too early. The answer is a function of the error alone.
pub assume_specification[ serde_json::Error::is_eof ](error: &serde_json::Error) -> (r: bool)
    ensures
        r == json_error_at_end(*error),
;

/// `Clone` of `serde_json::Value`, which the crate derives: the copy is the
/// same JSON value.
pub assume_specification[ <serde_json::Value as Clone>::clone ](value: &serde_json::Value) -> (r:
    serde_json::Value)
    ensures
        r == *value,
;

/// `Display` of `serde_json::Error`: the text that describes the failure. It
/// is a function of the error alone.
#[verifier::external_body]
pub(crate) fn json_error_message(error: &serde_json::Error) -> (r: String)
    ensures
        r@ == json_error_text(*error),
{
    error.to_string()
}

} // verus!
