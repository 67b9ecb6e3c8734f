//! What the library takes from outside: fresh identifiers, the clock, percent-encoding,
//! request headers and the reading of bytes as text.

use axum::http::HeaderMap;
use axum::http::HeaderValue;
use std::time::Duration;
use std::time::SystemTime;
use std::time::SystemTimeError;
use vstd::prelude::*;
use vstd::utf8::decode_utf8;
use vstd::utf8::encode_utf8;
use vstd::utf8::valid_utf8;

verus! {

// ---- fresh identifiers ----

/// Whether `c` is a hexadecimal digit in lower case.
pub open spec fn is_lower_hex(c: char) -> bool {
    '0' <= c <= '9' || 'a' <= c <= 'f'
}

/// Whether `s` is a random UUID in its hyphenated form: groups of eight, four, four, four
/// and twelve lower-case hexadecimal digits, with the marks of version four and of the
/// standard variant.
pub open spec fn is_random_uuid(s: Seq<char>) -> bool {
    &&& s.len() == 36
    &&& forall|i: int|
        0 <= i < 36 ==> if i == 8 || i == 13 || i == 18 || i == 23 {
            #[trigger] s[i] == '-'
        } else {
            is_lower_hex(s[i])
        }
    &&& s[14] == '4'
    &&& s[19] == '8' || s[19] == '9' || s[19] == 'a' || s[19] == 'b'
}

/// `uuid::Uuid::new_v4`, written out by its `Display`: the hyphenated text of a random
/// UUID. Which one it is rests on chance.
#[verifier::external_body]
pub(crate) fn random_uuid() -> (id: String)
    ensures
        is_random_uuid(id@),
{
    uuid::Uuid::new_v4().to_string()
}

// ---- the clock ----

/// `std::time::SystemTime`, a point in time.
#[verifier::external_type_specification]
#[verifier::external_body]
pub struct ExSystemTime(SystemTime);

/// `std::time::SystemTimeError`, the error where time runs backwards.
#[verifier::external_type_specification]
#[verifier::external_body]
pub struct ExSystemTimeError(SystemTimeError);

/// `SystemTime::now`, of which nothing can be known before.
pub assume_specification[ SystemTime::now ]() -> SystemTime
;

/// `SystemTime::duration_since` the Unix epoch, of which nothing is known where the clock
/// is not: it depends on the time.
#[verifier::external_body]
pub(crate) fn since_unix_epoch(now: SystemTime) -> Result<Duration, SystemTimeError> {
    now.duration_since(SystemTime::UNIX_EPOCH)
}

/// `Duration::as_secs`, the whole seconds of a duration.
pub assume_specification[ Duration::as_secs ](duration: &Duration) -> u64
;

// ---- percent-encoding ----

/// Whether percent-encoding leaves the byte `b` as it is.
pub open spec fn is_unreserved(b: u8) -> bool {
    ||| 0x30 <= b <= 0x39
    ||| 0x41 <= b <= 0x5a
    ||| 0x61 <= b <= 0x7a
    ||| b == 0x2d
    ||| b == 0x2e
    ||| b == 0x5f
    ||| b == 0x7e
}

/// The hexadecimal digit for `d`, which is less than sixteen, in upper case.
pub open spec fn upper_hex(d: u8) -> char {
    if d < 10 {
        (0x30 + d) as char
    } else {
        (0x37 + d) as char
    }
}

/// One byte, percent-encoded.
pub open spec fn percent_byte(b: u8) -> Seq<char> {
    if is_unreserved(b) {
        seq![b as char]
    } else {
        seq!['%', upper_hex(b / 16), upper_hex(b % 16)]
    }
}

/// Bytes, percent-encoded one by one.
pub open spec fn percent_encoded(bytes: Seq<u8>) -> Seq<char>
    decreases bytes.len(),
{
    if bytes.len() == 0 {
        Seq::empty()
    } else {
        percent_encoded(bytes.drop_last()) + percent_byte(bytes.last())
    }
}

/// `urlencoding::encode`: the UTF-8 bytes of `text`, each ASCII letter or digit, hyphen,
/// dot, underscore and tilde as it is, each other byte as a percent sign and two
/// hexadecimal digits in upper case.
#[verifier::external_body]
pub(crate) fn percent_encode(text: &str) -> (encoded: String)
    ensures
        encoded@ == percent_encoded(encode_utf8(text@)),
{
    urlencoding::encode(text).into_owned()
}

// ---- request headers ----

/// `axum::http::HeaderValue`, the value of one header.
#[verifier::external_type_specification]
#[verifier::external_body]
pub struct ExHeaderValue(HeaderValue);

/// `axum::http::HeaderMap`, the headers of a request.
#[verifier::external_type_specification]
#[verifier::external_body]
#[verifier::reject_recursive_types(T)]
pub struct ExHeaderMap<T>(HeaderMap<T>);

/// What a header map holds: for each header name, in lower case, the bytes of its values
/// in the order in which they came.
pub uninterp spec fn header_contents(headers: &HeaderMap) -> Map<Seq<char>, Seq<Seq<u8>>>;

/// Whether `name` holds lower-case ASCII letters and hyphens only.
pub open spec fn is_lower_header_name(name: Seq<char>) -> bool {
    forall|i: int| 0 <= i < name.len() ==> 'a' <= #[trigger] name[i] <= 'z' || name[i] == '-'
}

/// Whether `b` is a visible ASCII character, a space or a tab.
pub open spec fn is_plain_header_byte(b: u8) -> bool {
    0x20 <= b < 0x7f || b == 0x9
}

/// The value `bytes` as text, where it holds visible ASCII, spaces and tabs only.
pub open spec fn header_text(bytes: Seq<u8>) -> Option<Seq<char>> {
    if forall|i: int| 0 <= i < bytes.len() ==> is_plain_header_byte(#[trigger] bytes[i]) {
        Some(bytes.map_values(|b: u8| b as char))
    } else {
        None
    }
}

/// The first value under `name` as text, where there is one and it can be read as text.
pub open spec fn first_header_text(
    contents: Map<Seq<char>, Seq<Seq<u8>>>,
    name: Seq<char>,
) -> Option<Seq<char>> {
    if contents.contains_key(name) && contents[name].len() > 0 {
        header_text(contents[name][0])
    } else {
        None
    }
}

/// `HeaderMap::get`, for a name in lower case, and `HeaderValue::to_str` on what it finds:
/// the first value under that name, as text, or nothing where there is no value or the
/// first one holds a byte that is neither visible ASCII nor a space or tab.
#[verifier::external_body]
pub(crate) fn read_header(headers: &HeaderMap, name: &str) -> (value: Option<String>)
    requires
        is_lower_header_name(name@),
    ensures
        value.deep_view() == first_header_text(header_contents(headers), name@),
{
    let value = headers.get(name)?;
    let text = value.to_str().ok()?;
    Some(text.to_owned())
}

// ---- bytes as text ----

/// What `String::from_utf8` says of bytes that are not UTF-8.
pub uninterp spec fn utf8_complaint(bytes: Seq<u8>) -> Seq<char>;

/// `String::from_utf8`: the text whose UTF-8 encoding the bytes are, or the words of its
/// error where they encode none.
#[verifier::external_body]
pub(crate) fn exact_text(bytes: Vec<u8>) -> (text: Result<String, String>)
    ensures
        text is Ok <==> valid_utf8(bytes@),
        text is Ok ==> text->Ok_0@ == decode_utf8(bytes@),
        text is Err ==> text->Err_0@ == utf8_complaint(bytes@),
{
    String::from_utf8(bytes).map_err(|e| e.to_string())
}

/// What `String::from_utf8_lossy` makes of bytes.
pub uninterp spec fn lossy(bytes: Seq<u8>) -> Seq<char>;

/// `String::from_utf8_lossy`: the text whose UTF-8 encoding the bytes are, and where they
/// encode none, a text in which replacement characters stand for what could not be read.
#[verifier::external_body]
pub(crate) fn lossy_text(bytes: &Vec<u8>) -> (text: String)
    ensures
        text@ == lossy(bytes@),
        valid_utf8(bytes@) ==> text@ == decode_utf8(bytes@),
{
    String::from_utf8_lossy(bytes).into_owned()
}

// ---- text in quotes ----

/// What the `Debug` of `str` makes of a text: the text in quotes, with escapes.
pub uninterp spec fn quoted(text: Seq<char>) -> Seq<char>;

/// The `Debug` of `str`.
#[verifier::external_body]
pub(crate) fn quoted_text(text: &str) -> (form: String)
    ensures
        form@ == quoted(text@),
{
    format!("{:?}", text)
}

} // verus!
