//! Building the mermaid.live editor link for a rendered diagram.
//!
//! The hosted editor takes the diagram wrapped in a small JSON document,
//! deflate-compressed and base64-encoded into the URL fragment.

use vstd::prelude::*;
use vstd::string::StringExecFns;
use vstd::utf8::encode_utf8;

use std::io::Write;

use base64::Engine;

verus! {

/// What serde_json makes of a string slice: a quoted, escaped JSON string.
pub uninterp spec fn json_string_of(s: Seq<char>) -> Seq<char>;

/// What flate2's zlib encoder makes of a byte sequence at the default level.
pub uninterp spec fn deflate_of(bytes: Seq<u8>) -> Seq<u8>;

/// What base64's URL-safe, unpadded engine makes of a byte sequence.
pub uninterp spec fn base64_url_of(bytes: Seq<u8>) -> Seq<char>;

/// Relies on serde_json::to_string for a string slice: it quotes and
/// escapes the characters, depends on them alone, and writing to an
/// in-memory buffer cannot fail.
#[verifier::external_body]
fn json_quote(s: &str) -> (r: String)
    ensures
        r@ == json_string_of(s@),
{
    serde_json::to_string(s).unwrap()
}

/// Relies on flate2's ZlibEncoder (new, write_all, finish) at the default
/// compression level: writing to an in-memory buffer cannot fail, and the
/// output depends on the input bytes alone.
#[verifier::external_body]
fn zlib_deflate(data: &[u8]) -> (r: Vec<u8>)
    ensures
        r@ == deflate_of(data@),
{
    let mut encoder = flate2::write::ZlibEncoder::new(Vec::new(), flate2::Compression::default());
    encoder.write_all(data).unwrap();
    encoder.finish().unwrap()
}

/// Relies on base64's BASE64_URL_SAFE_NO_PAD engine: the URL-safe
/// alphabet without padding, a function of the input bytes alone.
#[verifier::external_body]
fn base64_url_encode(data: &[u8]) -> (r: String)
    ensures
        r@ == base64_url_of(data@),
{
    base64::prelude::BASE64_URL_SAFE_NO_PAD.encode(data)
}

/// The JSON document the hosted editor expects: the diagram under a
/// single `code` member.
pub open spec fn live_payload_text(code: Seq<char>) -> Seq<char> {
    "{\"code\":"@ + json_string_of(code) + "}"@
}

/// The full editor link: a fixed prefix, then the payload compressed and
/// encoded for the URL fragment.
pub open spec fn live_url_text(code: Seq<char>) -> Seq<char> {
    "https://mermaid.live/edit#pako:"@ + base64_url_of(
        deflate_of(encode_utf8(live_payload_text(code))),
    )
}

/// The JSON payload wrapping a rendered diagram for the hosted editor.
pub fn live_payload(code: &str) -> (r: String)
    ensures
        r@ == live_payload_text(code@),
{
    let mut r = "{\"code\":".to_owned();
    let quoted = json_quote(code);
    r.append(quoted.as_str());
    r.append("}");
    r
}

/// The mermaid.live editor link for a rendered diagram.
pub fn mermaid_live_url(mermaid: &str) -> (r: String)
    ensures
        r@ == live_url_text(mermaid@),
{
    let payload = live_payload(mermaid);
    let compressed = zlib_deflate(payload.as_str().as_bytes());
    let encoded = base64_url_encode(compressed.as_slice());
    let mut r = "https://mermaid.live/edit#pako:".to_owned();
    r.append(encoded.as_str());
    r
}

} // verus!
