//! Calls into outside code whose contracts are trusted: percent-encoding,
//! URL parsing, random choice and Unicode lowercasing.
use vstd::prelude::*;
use crate::text::lower_char;
use rand::RngExt;
use vstd::utf8::encode_utf8;

verus! {

/// Bytes that percent-encoding leaves as they are: ASCII alphanumerics and `-._~`.
pub open spec fn is_unreserved_byte(b: u8) -> bool {
    (48 <= b && b <= 57) || (65 <= b && b <= 90) || (97 <= b && b <= 122) || b == 45 || b == 46
        || b == 95 || b == 126
}

/// An upper-case hexadecimal digit.
pub open spec fn hex_upper(d: int) -> char {
    if d < 10 {
        (d + 48) as char
    } else {
        (d + 55) as char
    }
}

/// Percent-encoding of a byte string: unreserved bytes as characters, every
/// other byte as `%` and two upper-case hexadecimal digits.
pub open spec fn percent_encode(bytes: Seq<u8>) -> Seq<char>
    decreases bytes.len(),
{
    if bytes.len() == 0 {
        Seq::<char>::empty()
    } else {
        let b = bytes[0];
        let head = if is_unreserved_byte(b) {
            seq![(b as u32) as char]
        } else {
            seq!['%', hex_upper((b / 16) as int), hex_upper((b % 16) as int)]
        };
        head + percent_encode(bytes.drop_first())
    }
}

/// `urlencoding::encode`: percent-encodes every byte of the UTF-8 encoding
/// except ASCII alphanumerics and `-`, `_`, `.`, `~`, with upper-case hex digits.
#[verifier::external_body]
pub(crate) fn url_encode(s: &str) -> (r: String)
    ensures
        r@ == percent_encode(encode_utf8(s@)),
{
    urlencoding::encode(s).into_owned()
}

/// What `reqwest::Url::parse` gives for a text: `None` when parsing fails,
/// else the URL's scheme, its host (`host_str`) and its serialization.
pub uninterp spec fn url_parse(text: Seq<char>) -> Option<(Seq<char>, Option<Seq<char>>, Seq<char>)>;

/// The parts of a parsed URL that the library reads.
pub struct UrlParts {
    pub scheme: String,
    pub host: Option<String>,
    pub serialization: String,
}

pub open spec fn opt_string_view(v: Option<String>) -> Option<Seq<char>> {
    match v {
        Some(s) => Some(s@),
        None => None,
    }
}

/// `reqwest::Url::parse`, with the parsed URL read through `scheme()`,
/// `host_str()` and its string form. The contract only names the result:
/// URL parsing (the WHATWG URL standard) is not restated here.
#[verifier::external_body]
pub(crate) fn parse_url(text: &str) -> (r: Option<UrlParts>)
    ensures
        r matches Some(p) ==> url_parse(text@) == Some(
            (p.scheme@, opt_string_view(p.host), p.serialization@),
        ),
        r is None ==> url_parse(text@) is None,
{
    match reqwest::Url::parse(text) {
        Ok(url) => Some(
            UrlParts {
                scheme: url.scheme().to_string(),
                host: url.host_str().map(|h| h.to_string()),
                serialization: url.to_string(),
            },
        ),
        Err(_) => None,
    }
}

/// `rand::rng().random_range(0..n)`: some number below `n`. The choice is
/// random, so nothing more is said of it.
#[verifier::external_body]
pub(crate) fn random_below(n: u64) -> (r: u64)
    requires
        n > 0,
    ensures
        r < n,
{
    rand::rng().random_range(0..n)
}

/// What `char::to_lowercase` yields for a character (its Unicode lowercase mapping).
pub uninterp spec fn unicode_lowercase(c: char) -> Seq<char>;

/// `char::to_lowercase`, collected. An ASCII character maps to its ASCII
/// lowercase; the contract names the mapping of the other characters without
/// restating Unicode's tables.
#[verifier::external_body]
pub(crate) fn char_to_lowercase(c: char) -> (r: Vec<char>)
    ensures
        r@ == unicode_lowercase(c),
        (c as u32) < 128 ==> r@ == seq![lower_char(c)],
{
    c.to_lowercase().collect()
}

} // verus!
