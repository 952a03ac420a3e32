//! Bilibili Open Live Platform request signing.
//!
//! A signed request carries the header
//! `id=<key id>,ts=<time>,nonce=<nonce>,md5=<body digest>,version=1.0,rmk=,sign=<signature>`
//! where the signature is the HMAC-SHA256, under the key secret, of the key
//! id, time, nonce and body digest written one after the other.

use vstd::prelude::*;
use vstd::string::*;
use vstd::utf8::encode_utf8;

use crate::crypto::{hmac_sha256, hmac_sha256_of, sha256, sha256_of, time_since_epoch};
use crate::text::{decimal, hex_digit, hex_digit_of, hex_string, hex_text, push_char, u64_to_decimal};

verus! {

/// The Open Live Platform base URL.
pub const BILI_OPEN_LIVE_BASE: &'static str = "https://live-open.biliapi.com";

/// Encodes bytes as lower-case hexadecimal text.
pub fn to_hex(bytes: &[u8]) -> (s: String)
    ensures
        s@ == hex_text(bytes@, false),
{
    hex_string(bytes, false)
}

/// The last `width` hexadecimal digits of `n`, in lower case, zero-padded.
pub open spec fn hex_fixed(n: nat, width: nat) -> Seq<char>
    decreases width,
{
    if width == 0 {
        Seq::empty()
    } else {
        hex_fixed(n / 16, (width - 1) as nat).push(hex_digit(n % 16, false))
    }
}

/// The last `width` hexadecimal digits of `n`, zero-padded (`{n:0width$x}`
/// for `n < 16^width`).
fn hex_fixed_exec(n: u64, width: usize) -> (r: String)
    ensures
        r@ == hex_fixed(n as nat, width as nat),
    decreases width,
{
    if width == 0 {
        return String::new();
    }
    let mut s = hex_fixed_exec(n / 16, width - 1);
    push_char(&mut s, hex_digit_of((n % 16) as u8, false));
    s
}

/// The body digest: the first 16 bytes of the body's SHA-256, in hex.
pub open spec fn body_digest(body: Seq<char>) -> Seq<char> {
    hex_text(sha256_of(encode_utf8(body)).take(16), false)
}

/// The Authorization header of a request with body `body`, signed at `secs`
/// seconds past the epoch with nonce `nanos` (sub-second nanoseconds).
pub open spec fn signed_header(key_id: Seq<char>, key_secret: Seq<char>, body: Seq<char>, secs: u64, nanos: u32) -> Seq<char> {
    let ts = decimal(secs as nat);
    let nonce = hex_fixed(nanos as nat, 8);
    let digest = body_digest(body);
    let to_sign = key_id + ts + nonce + digest;
    let signature = hex_text(hmac_sha256_of(encode_utf8(key_secret), encode_utf8(to_sign)), false);
    "id="@ + key_id + ",ts="@ + ts + ",nonce="@ + nonce + ",md5="@ + digest + ",version=1.0,rmk=,sign="@
        + signature
}

/// The Authorization header of a request signed at the given time.
pub fn sign_request_at(key_id: &str, key_secret: &str, body: &str, secs: u64, nanos: u32) -> (r: String)
    ensures
        r@ == signed_header(key_id@, key_secret@, body@, secs, nanos),
{
    let ts = u64_to_decimal(secs);
    let nonce = hex_fixed_exec(nanos as u64, 8);
    let digest_bytes = sha256(body.as_bytes());
    let mut head: Vec<u8> = Vec::new();
    let mut i: usize = 0;
    while i < 16
        invariant
            i <= 16,
            digest_bytes@.len() == 32,
            head@ == digest_bytes@.take(i as int),
        decreases 16 - i,
    {
        head.push(digest_bytes[i]);
        assert(digest_bytes@.take(i + 1) =~= digest_bytes@.take(i as int).push(digest_bytes@[i as int]));
        i = i + 1;
    }
    let digest = to_hex(head.as_slice());
    let mut to_sign = String::from_str(key_id);
    to_sign.append(ts.as_str());
    to_sign.append(nonce.as_str());
    to_sign.append(digest.as_str());
    let mac = hmac_sha256(key_secret.as_bytes(), to_sign.as_str().as_bytes());
    let signature = to_hex(mac.as_slice());
    let mut r = String::from_str("id=");
    r.append(key_id);
    r.append(",ts=");
    r.append(ts.as_str());
    r.append(",nonce=");
    r.append(nonce.as_str());
    r.append(",md5=");
    r.append(digest.as_str());
    r.append(",version=1.0,rmk=,sign=");
    r.append(signature.as_str());
    r
}

/// The Authorization header of a request signed now.
pub fn sign_request(key_id: &str, key_secret: &str, body: &str) -> (r: String)
    ensures
        exists|secs: u64, nanos: u32| nanos < 1_000_000_000 && r@ == signed_header(key_id@, key_secret@, body@, secs, nanos),
{
    let (secs, _millis, nanos) = time_since_epoch();
    sign_request_at(key_id, key_secret, body, secs, nanos)
}

/// A signed POST to the Open Live Platform: its URL and Authorization header.
pub fn signed_post(key_id: &str, key_secret: &str, path: &str, body: &str) -> (r: (String, String))
    ensures
        r.0@ == BILI_OPEN_LIVE_BASE@ + path@,
        exists|secs: u64, nanos: u32| r.1@ == signed_header(key_id@, key_secret@, body@, secs, nanos),
{
    let mut url = String::from_str(BILI_OPEN_LIVE_BASE);
    url.append(path);
    (url, sign_request(key_id, key_secret, body))
}

} // verus!
