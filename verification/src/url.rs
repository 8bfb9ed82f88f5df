//! The addresses of the remote store: where the listing of an ecosystem, its
//! full archive and a single object are fetched from.

use vstd::prelude::*;
use vstd::string::{StringExecFns, StringSliceAdditionalSpecFns};
use vstd::utf8::encode_utf8;

verus! {

/// The root of the storage API, up to and with the slash before the bucket.
pub const BASE_API_URL: &'static str = "https://storage.googleapis.com/storage/v1/b/";

/// The bucket that holds the advisories.
pub const BUCKET_NAME: &'static str = "osv-vulnerabilities";

/// The fields asked of a listing.
pub const LISTING_FIELDS: &'static str = "name,timeCreated,updated,id";

/// Whether a byte stands for itself in a path segment: a letter, a digit, or
/// one of `-`, `.`, `_`, `~`.
pub open spec fn unreserved(byte: u8) -> bool {
    ||| 0x41 <= byte <= 0x5a
    ||| 0x61 <= byte <= 0x7a
    ||| 0x30 <= byte <= 0x39
    ||| byte == 0x2d
    ||| byte == 0x2e
    ||| byte == 0x5f
    ||| byte == 0x7e
}

/// The lower-case hexadecimal digit of a value below sixteen.
pub open spec fn hex_digit_of(value: u8) -> char {
    if value < 10 {
        ((0x30 + value) as u8) as char
    } else {
        ((0x61 + value - 10) as u8) as char
    }
}

/// The characters that stand for one byte in a path segment: the byte
/// itself where it is unreserved, else `%` and its two hexadecimal digits.
pub open spec fn escaped_byte(byte: u8) -> Seq<char> {
    if unreserved(byte) {
        seq![byte as char]
    } else {
        seq!['%', hex_digit_of(byte / 16), hex_digit_of(byte % 16)]
    }
}

/// The first `k` bytes, escaped for a path segment.
pub open spec fn escaped_within(bytes: Seq<u8>, k: int) -> Seq<char>
    decreases k,
{
    if k <= 0 {
        Seq::empty()
    } else {
        escaped_within(bytes, k - 1) + escaped_byte(bytes[k - 1])
    }
}

/// A text escaped for a path segment: its UTF-8 bytes, each escaped.
pub open spec fn path_escaped(text: Seq<char>) -> Seq<char> {
    escaped_within(encode_utf8(text), encode_utf8(text).len() as int)
}

/// Appends one character with `String::push`: the text afterwards is the
/// text before with the character at its end.
#[verifier::external_body]
fn push_char(text: &mut String, c: char)
    ensures
        final(text)@ == old(text)@.push(c),
{
    text.push(c)
}

fn hex_digit(value: u8) -> (digit: char)
    requires
        value < 16,
    ensures
        digit == hex_digit_of(value),
{
    if value < 10 {
        (0x30 + value) as char
    } else {
        (0x61 + value - 10) as char
    }
}

/// Escapes a text for use as one path segment: its UTF-8 bytes, each
/// unreserved byte as it is and every other as `%` and two lower-case
/// hexadecimal digits.
pub fn path_escape(text: &str) -> (escaped: String)
    ensures
        escaped@ == path_escaped(text@),
{
    let bytes = text.as_bytes();
    let mut escaped = String::new();
    let mut i: usize = 0;
    while i < bytes.len()
        invariant
            i <= bytes.len(),
            bytes@ == text.spec_bytes(),
            escaped@ == escaped_within(bytes@, i as int),
        decreases bytes.len() - i,
    {
        let byte = bytes[i];
        let plain = (0x41 <= byte && byte <= 0x5a) || (0x61 <= byte && byte <= 0x7a) || (0x30
            <= byte && byte <= 0x39) || byte == 0x2d || byte == 0x2e || byte == 0x5f || byte
            == 0x7e;
        let ghost before = escaped@;
        if plain {
            push_char(&mut escaped, byte as char);
            assert(escaped@ =~= before + escaped_byte(byte));
        } else {
            push_char(&mut escaped, '%');
            push_char(&mut escaped, hex_digit(byte / 16));
            push_char(&mut escaped, hex_digit(byte % 16));
            assert(escaped@ =~= before + escaped_byte(byte));
        }
        i += 1;
    }
    escaped
}

/// The address of an object's content.
pub open spec fn object_url_of(name: Seq<char>) -> Seq<char> {
    BASE_API_URL@ + BUCKET_NAME@ + "/o/"@ + path_escaped(name) + "?alt=media"@
}

/// The address of the full archive of an ecosystem: the object `all.zip`
/// under the ecosystem's name.
pub open spec fn archive_url_of(ecosystem: Seq<char>) -> Seq<char> {
    BASE_API_URL@ + BUCKET_NAME@ + "/o/"@ + path_escaped(ecosystem) + "%2fall.zip?alt=media"@
}

/// The address of a page of the listing of an ecosystem: the first page
/// without a token, a later page with the token of the page before it.
pub open spec fn listing_url_of(ecosystem: Seq<char>, token: Option<Seq<char>>) -> Seq<char> {
    let first = BASE_API_URL@ + BUCKET_NAME@ + "/o/"@ + path_escaped(ecosystem) + "/?fields="@
        + LISTING_FIELDS@;
    match token {
        None => first,
        Some(t) => first + "&pageToken="@ + path_escaped(t),
    }
}

fn objects_root() -> (root: String)
    ensures
        root@ == BASE_API_URL@ + BUCKET_NAME@ + "/o/"@,
{
    String::from_str(BASE_API_URL).concat(BUCKET_NAME).concat("/o/")
}

/// The address from which the content of the object `name` is fetched.
pub fn object_url(name: &str) -> (url: String)
    ensures
        url@ == object_url_of(name@),
{
    let escaped = path_escape(name);
    objects_root().concat(escaped.as_str()).concat("?alt=media")
}

/// The address from which the full archive of an ecosystem is fetched.
pub fn archive_url(ecosystem: &str) -> (url: String)
    ensures
        url@ == archive_url_of(ecosystem@),
{
    let escaped = path_escape(ecosystem);
    objects_root().concat(escaped.as_str()).concat("%2fall.zip?alt=media")
}

/// The address from which a page of the listing of an ecosystem is fetched.
pub fn listing_url(ecosystem: &str, token: Option<&String>) -> (url: String)
    ensures
        url@ == listing_url_of(
            ecosystem@,
            match token {
                Some(t) => Some(t@),
                None => None,
            },
        ),
{
    let escaped = path_escape(ecosystem);
    let first = objects_root().concat(escaped.as_str()).concat("/?fields=").concat(LISTING_FIELDS);
    match token {
        None => first,
        Some(t) => {
            let page = path_escape(t.as_str());
            first.concat("&pageToken=").concat(page.as_str())
        },
    }
}

} // verus!
