//! Encodings the link and the auth header need, stated exactly:
//! percent-encoding over UTF-8 bytes, and standard base64 with padding.
//! The executable work is done by outside crates behind trusted wrappers;
//! the spec functions here say byte for byte what those calls return.

use vstd::prelude::*;
use vstd::string::{StringExecFns, StringSliceAdditionalSpecFns};
use base64::Engine;

verus! {

/// The sixteen hexadecimal digit characters, upper case.
pub open spec fn hex_upper(v: int) -> char {
    ((if v < 10 {
        v + 0x30
    } else {
        v + 0x37
    }) as u8) as char
}

/// A byte that percent-encoding passes through unchanged: ASCII
/// alphanumerics and `-`, `.`, `_`, `~`.
pub open spec fn url_unreserved(b: u8) -> bool {
    (0x30 <= b && b <= 0x39) || (0x41 <= b && b <= 0x5a) || (0x61 <= b && b <= 0x7a) || b == 0x2d
        || b == 0x2e || b == 0x5f || b == 0x7e
}

/// Percent-encoding of a byte sequence: every byte outside the
/// unreserved set becomes `%` and two upper-case hex digits.
pub open spec fn percent_encoded(bs: Seq<u8>) -> Seq<char>
    decreases bs.len(),
{
    if bs.len() == 0 {
        Seq::<char>::empty()
    } else {
        let b = bs[0];
        let head = if url_unreserved(b) {
            seq![b as char]
        } else {
            seq!['%', hex_upper(b as int / 16), hex_upper(b as int % 16)]
        };
        head + percent_encoded(bs.drop_first())
    }
}

/// Relies on urlencoding's `encode`: percent-encodes every UTF-8 byte
/// except alphanumerics and `-`, `.`, `_`, `~`, with upper-case hex.
#[verifier::external_body]
pub fn percent_encode(s: &str) -> (r: String)
    ensures
        r@ == percent_encoded(s.spec_bytes()),
{
    urlencoding::encode(s).into_owned()
}

/// The standard base64 alphabet: `A`-`Z`, `a`-`z`, `0`-`9`, `+`, `/`.
pub open spec fn b64_char(v: int) -> char {
    ((if v < 26 {
        v + 0x41
    } else if v < 52 {
        v + 0x47
    } else if v < 62 {
        v - 52 + 0x30
    } else if v == 62 {
        0x2b
    } else {
        0x2f
    }) as u8) as char
}

/// Standard base64 with `=` padding, three input bytes to four output
/// characters.
pub open spec fn base64_encoded(bs: Seq<u8>) -> Seq<char>
    decreases bs.len(),
{
    if bs.len() == 0 {
        Seq::<char>::empty()
    } else if bs.len() == 1 {
        let b0 = bs[0] as int;
        seq![b64_char(b0 / 4), b64_char((b0 % 4) * 16), '=', '=']
    } else if bs.len() == 2 {
        let b0 = bs[0] as int;
        let b1 = bs[1] as int;
        seq![b64_char(b0 / 4), b64_char((b0 % 4) * 16 + b1 / 16), b64_char((b1 % 16) * 4), '=']
    } else {
        let b0 = bs[0] as int;
        let b1 = bs[1] as int;
        let b2 = bs[2] as int;
        seq![
            b64_char(b0 / 4),
            b64_char((b0 % 4) * 16 + b1 / 16),
            b64_char((b1 % 16) * 4 + b2 / 64),
            b64_char(b2 % 64),
        ] + base64_encoded(bs.subrange(3, bs.len() as int))
    }
}

/// Relies on base64's `STANDARD` engine: RFC 4648 base64 with padding.
#[verifier::external_body]
pub fn base64_standard(bs: &[u8]) -> (r: String)
    ensures
        r@ == base64_encoded(bs@),
{
    base64::engine::general_purpose::STANDARD.encode(bs)
}

/// The basic-auth header for the fixed `riot` user and a discovered
/// token: `Basic `, then base64 over the UTF-8 bytes of `riot:<token>`.
pub open spec fn basic_auth_value(password: Seq<char>) -> Seq<char> {
    "Basic "@ + base64_encoded(vstd::utf8::encode_utf8("riot:"@ + password))
}

/// Builds the basic-auth header value for a discovered token.
pub fn basic_auth_header(password: &str) -> (r: String)
    ensures
        r@ == basic_auth_value(password@),
{
    let mut creds = String::from_str("riot:");
    creds.append(password);
    let encoded = base64_standard(creds.as_str().as_bytes());
    let mut out = String::from_str("Basic ");
    out.append(encoded.as_str());
    proof {
        assert(out@ =~= basic_auth_value(password@));
    }
    out
}

} // verus!
