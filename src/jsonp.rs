//! JSONP wrappers that hand a file to a page as a base64 data URL.
use vstd::prelude::*;

use base64::Engine;

use crate::text::{concat_text, same_text};

verus! {

/// The standard base64 alphabet.
pub open spec fn base64_alphabet() -> Seq<char> {
    seq![
        'A', 'B', 'C', 'D', 'E', 'F', 'G', 'H', 'I', 'J', 'K', 'L', 'M', 'N', 'O', 'P',
        'Q', 'R', 'S', 'T', 'U', 'V', 'W', 'X', 'Y', 'Z', 'a', 'b', 'c', 'd', 'e', 'f',
        'g', 'h', 'i', 'j', 'k', 'l', 'm', 'n', 'o', 'p', 'q', 'r', 's', 't', 'u', 'v',
        'w', 'x', 'y', 'z', '0', '1', '2', '3', '4', '5', '6', '7', '8', '9', '+', '/',
    ]
}

/// The base64 character for a six-bit value.
pub open spec fn b64(n: u8) -> char {
    base64_alphabet()[n as int]
}

/// Standard base64 with padding: each group of three bytes becomes four
/// characters of six bits each, high bits first; a final group of one or two
/// bytes is filled with zero bits and padded with `=` to four characters.
pub open spec fn base64_of(b: Seq<u8>) -> Seq<char>
    decreases b.len(),
{
    if b.len() == 0 {
        Seq::<char>::empty()
    } else if b.len() == 1 {
        seq![b64(b[0] >> 2u8), b64((b[0] & 3u8) << 4u8), '=', '=']
    } else if b.len() == 2 {
        seq![
            b64(b[0] >> 2u8),
            b64(((b[0] & 3u8) << 4u8) | (b[1] >> 4u8)),
            b64((b[1] & 15u8) << 2u8),
            '=',
        ]
    } else {
        seq![
            b64(b[0] >> 2u8),
            b64(((b[0] & 3u8) << 4u8) | (b[1] >> 4u8)),
            b64(((b[1] & 15u8) << 2u8) | (b[2] >> 6u8)),
            b64(b[2] & 63u8),
        ] + base64_of(b.subrange(3, b.len() as int))
    }
}

/// Relies on base64's `general_purpose::STANDARD.encode`: the standard
/// alphabet with padding. It panics only when the encoded length overflows
/// `usize`, which the bound rules out.
#[verifier::external_body]
fn encode_base64(bytes: &[u8]) -> (r: String)
    requires
        bytes@.len() <= usize::MAX / 2,
    ensures
        r@ == base64_of(bytes@),
{
    base64::engine::general_purpose::STANDARD.encode(bytes)
}

/// The MIME type that the extension of a path suggests, or the empty text.
pub uninterp spec fn mime_of_path(path: Seq<char>) -> Seq<char>;

/// Relies on `mime_guess::from_path(..).first_raw()`: the first MIME type
/// its table lists for the path's extension, a function of the path alone;
/// the empty text where none is listed.
#[verifier::external_body]
fn guess_mime(path: &str) -> (r: String)
    ensures
        r@ == mime_of_path(path@),
{
    mime_guess::from_path(path).first_raw().unwrap_or("").to_string()
}

/// Whether a MIME type is one of the images a page shows directly.
pub open spec fn is_jpeg(content_type: Seq<char>) -> bool {
    content_type == "image/jpeg"@ || content_type == "image/jpg"@
}

/// The MIME type written into the data URL.
pub open spec fn data_type(content_type: Seq<char>) -> Seq<char> {
    if is_jpeg(content_type) {
        "image/jpeg"@
    } else if content_type == "image/png"@ {
        "image/png"@
    } else {
        "application/octet-stream"@
    }
}

/// The quote around the callback's name: double for images, single otherwise.
pub open spec fn name_quote(content_type: Seq<char>) -> Seq<char> {
    if is_jpeg(content_type) || content_type == "image/png"@ {
        "\""@
    } else {
        "'"@
    }
}

/// The script: if the page defined `jsonp_<hash>`, call it with the data URL.
pub open spec fn jsonp_text(content_type: Seq<char>, encoded: Seq<char>, hash_code: Seq<char>) -> Seq<
    char,
> {
    let q = name_quote(content_type);
    let callee = "window["@ + q + "jsonp_"@ + hash_code + q + "]"@;
    callee + " && "@ + callee + "(\"data:"@ + data_type(content_type) + ";base64,"@ + encoded
        + "\")"@
}

/// The script for a file whose bytes are already base64 text.
pub fn jsonp_wrap(content_type: &str, encoded: &str, hash_code: &str) -> (r: String)
    ensures
        r@ == jsonp_text(content_type@, encoded@, hash_code@),
{
    let jpeg = same_text(content_type, "image/jpeg") || same_text(content_type, "image/jpg");
    let png = same_text(content_type, "image/png");
    let (q, kind) = if jpeg {
        ("\"", "image/jpeg")
    } else if png {
        ("\"", "image/png")
    } else {
        ("'", "application/octet-stream")
    };
    let a = concat_text("window[", q);
    let a = concat_text(a.as_str(), "jsonp_");
    let a = concat_text(a.as_str(), hash_code);
    let a = concat_text(a.as_str(), q);
    let callee = concat_text(a.as_str(), "]");
    let t = concat_text(callee.as_str(), " && ");
    let t = concat_text(t.as_str(), callee.as_str());
    let t = concat_text(t.as_str(), "(\"data:");
    let t = concat_text(t.as_str(), kind);
    let t = concat_text(t.as_str(), ";base64,");
    let t = concat_text(t.as_str(), encoded);
    let t = concat_text(t.as_str(), "\")");
    assert(t@ =~= jsonp_text(content_type@, encoded@, hash_code@));
    t
}

/// The script that hands `input`, base64-encoded, to the page's
/// `jsonp_<hash>` callback, labelled with the file's MIME type.
pub fn generate_jsonp_content(content_type: &str, input: &[u8], hash_code: &str) -> (r: String)
    requires
        input@.len() <= usize::MAX / 2,
    ensures
        r@ == jsonp_text(content_type@, base64_of(input@), hash_code@),
{
    let encoded = encode_base64(input);
    jsonp_wrap(content_type, encoded.as_str(), hash_code)
}

/// The script for the content of the file at `path`, labelled with the MIME
/// type its extension suggests.
pub fn jsonp_for_file(path: &str, content: &[u8], hash_code: &str) -> (r: String)
    requires
        content@.len() <= usize::MAX / 2,
    ensures
        r@ == jsonp_text(mime_of_path(path@), base64_of(content@), hash_code@),
{
    let content_type = guess_mime(path);
    generate_jsonp_content(content_type.as_str(), content, hash_code)
}

} // verus!
