//! HTTP basic authentication: the header that carries a user's API token.
use vstd::prelude::*;
use vstd::utf8::encode_utf8;
use base64::Engine;
use crate::text::{concat2, concat3};

verus! {

/// The base64 digit for a six-bit value (standard alphabet).
pub open spec fn b64_digit(v: int) -> char {
    if v < 26 {
        (65 + v) as char
    } else if v < 52 {
        (97 + v - 26) as char
    } else if v < 62 {
        (48 + v - 52) as char
    } else if v == 62 {
        '+'
    } else {
        '/'
    }
}

/// The standard base64 encoding of `b` with `=` padding (RFC 4648, section 4).
pub open spec fn base64_seq(b: Seq<u8>) -> Seq<char>
    decreases b.len(),
{
    if b.len() == 0 {
        Seq::empty()
    } else if b.len() == 1 {
        seq![b64_digit(b[0] as int / 4), b64_digit((b[0] as int % 4) * 16), '=', '=']
    } else if b.len() == 2 {
        seq![
            b64_digit(b[0] as int / 4),
            b64_digit((b[0] as int % 4) * 16 + b[1] as int / 16),
            b64_digit((b[1] as int % 16) * 4),
            '=',
        ]
    } else {
        seq![
            b64_digit(b[0] as int / 4),
            b64_digit((b[0] as int % 4) * 16 + b[1] as int / 16),
            b64_digit((b[1] as int % 16) * 4 + b[2] as int / 64),
            b64_digit(b[2] as int % 64),
        ] + base64_seq(b.subrange(3, b.len() as int))
    }
}

/// `base64::engine::general_purpose::STANDARD.encode`: the standard alphabet with
/// padding, which is RFC 4648's base64. It panics where the encoded length overflows a
/// `usize`, which the bound on the input rules out.
#[verifier::external_body]
fn base64_standard(bytes: &[u8]) -> (r: String)
    requires
        bytes@.len() <= usize::MAX / 2,
    ensures
        r@ == base64_seq(bytes@),
{
    base64::engine::general_purpose::STANDARD.encode(bytes)
}

/// The `username:token` text whose bytes an auth header encodes.
pub open spec fn credentials(username: Seq<char>, api_token: Seq<char>) -> Seq<char> {
    username + ":"@ + api_token
}

/// Whether the credentials are short enough to be encoded.
pub open spec fn credentials_fit(username: Seq<char>, api_token: Seq<char>) -> bool {
    encode_utf8(credentials(username, api_token)).len() <= usize::MAX / 2
}

/// The HTTP basic authorization header for a user and API token.
pub open spec fn auth_header_text(username: Seq<char>, api_token: Seq<char>) -> Seq<char> {
    "Basic "@ + base64_seq(encode_utf8(credentials(username, api_token)))
}

/// The header that authenticates `username` with `api_token`: `Basic ` and the base64
/// of the UTF-8 bytes of `username:api_token`.
pub fn basic_auth_header(username: &str, api_token: &str) -> (r: String)
    requires
        credentials_fit(username@, api_token@),
    ensures
        r@ == auth_header_text(username@, api_token@),
{
    let creds = concat3(username, ":", api_token);
    let bytes = creds.as_str().as_bytes_vec();
    let encoded = base64_standard(bytes.as_slice());
    concat2("Basic ", encoded.as_str())
}

} // verus!
