//! Signed registration: when a client secret is configured, a registration
//! request must prove possession of it with a keyed-hash tag over
//! device-id followed by the decimal timestamp, sent hex-encoded.

use vstd::prelude::*;
use vstd::string::StringExecFns;
use vstd::utf8::encode_utf8;

use crate::decimal::dec_rep_signed;
use crate::decimal::i64_to_dec;

verus! {

pub open spec fn is_hex_digit_byte(b: u8) -> bool {
    (0x30 <= b <= 0x39) || (0x41 <= b <= 0x46) || (0x61 <= b <= 0x66)
}

pub open spec fn hex_digit_val(b: u8) -> u8 {
    if 0x30 <= b <= 0x39 {
        (b - 0x30) as u8
    } else if 0x41 <= b <= 0x46 {
        (b - 0x41 + 10) as u8
    } else {
        (b - 0x61 + 10) as u8
    }
}

/// The bytes a hex string denotes: defined exactly when the length is even
/// and every byte is a hex digit of either case; each digit pair yields the
/// byte high·16 + low.
pub open spec fn spec_hex_decode(s: Seq<u8>) -> Option<Seq<u8>> {
    if s.len() % 2 == 0 && (forall|i: int| 0 <= i < s.len() ==> is_hex_digit_byte(s[i])) {
        Some(
            Seq::new(
                (s.len() / 2) as nat,
                |i: int| (hex_digit_val(s[2 * i]) * 16 + hex_digit_val(s[2 * i + 1])) as u8,
            ),
        )
    } else {
        None
    }
}

/// Relies on hex::decode: it succeeds exactly on an even-length input of
/// hex digits (either case) and yields the byte high·16 + low for each
/// digit pair.
#[verifier::external_body]
fn hex_decode(data: &[u8]) -> (r: Option<Vec<u8>>)
    ensures
        match r {
            Some(v) => spec_hex_decode(data@) == Some(v@),
            None => spec_hex_decode(data@) is None,
        },
{
    match hex::decode(data) {
        Ok(v) => Some(v),
        Err(_) => None,
    }
}

/// The HMAC-SHA-256 tag of `msg` under `key`: a function of key and
/// message alone, named here rather than spelled out.
pub uninterp spec fn hmac_sha256_of(key: Seq<u8>, msg: Seq<u8>) -> Seq<u8>;

/// Relies on hmac::Hmac over sha2::Sha256: the 32-byte keyed-hash tag of
/// the message under the key, a function of the two alone.
/// `new_from_slice` accepts keys of any length and never fails.
#[verifier::external_body]
fn hmac_sha256(key: &[u8], msg: &[u8]) -> (r: Vec<u8>)
    ensures
        r@ == hmac_sha256_of(key@, msg@),
        r@.len() == 32,
{
    let mut mac = <hmac::Hmac<sha2::Sha256> as hmac::KeyInit>::new_from_slice(key).expect(
        "HMAC accepts keys of any length",
    );
    hmac::Mac::update(&mut mac, msg);
    hmac::Mac::finalize(mac).into_bytes().to_vec()
}

fn bytes_eq(a: &Vec<u8>, b: &Vec<u8>) -> (r: bool)
    ensures
        r == (a@ == b@),
{
    if a.len() != b.len() {
        return false;
    }
    let n = a.len();
    let mut i: usize = 0;
    while i < n
        invariant
            0 <= i <= n,
            n == a@.len() == b@.len(),
            forall|j: int| 0 <= j < i ==> a@[j] == b@[j],
        decreases n - i,
    {
        if a[i] != b[i] {
            return false;
        }
        i = i + 1;
    }
    proof {
        assert(a@ =~= b@);
    }
    true
}

/// The text that is signed: the device id followed by the decimal
/// timestamp.
pub open spec fn signed_message(device_id: Seq<char>, timestamp: int) -> Seq<char> {
    device_id + dec_rep_signed(timestamp)
}

/// Whether `signature` hex-spells the keyed-hash tag of the signed message
/// under `secret`.
pub open spec fn signature_ok(
    device_id: Seq<char>,
    timestamp: int,
    signature: Seq<char>,
    secret: Seq<char>,
) -> bool {
    match spec_hex_decode(encode_utf8(signature)) {
        Some(tag) => tag == hmac_sha256_of(
            encode_utf8(secret),
            encode_utf8(signed_message(device_id, timestamp)),
        ),
        None => false,
    }
}

/// Recomputes the expected tag for (device id, timestamp) under the secret
/// and compares it against the hex-decoded signature. A signature that is
/// not valid hex, or whose bytes differ anywhere from the expected tag,
/// is rejected.
pub fn verify_signature(device_id: &str, timestamp: i64, signature: &str, client_secret: &str) -> (r:
    bool)
    ensures
        r == signature_ok(device_id@, timestamp as int, signature@, client_secret@),
{
    let mut message = String::from_str(device_id);
    let ts = i64_to_dec(timestamp);
    message.append(ts.as_str());
    let expected = hmac_sha256(client_secret.as_bytes(), message.as_str().as_bytes());
    match hex_decode(signature.as_bytes()) {
        Some(given) => bytes_eq(&given, &expected),
        None => false,
    }
}

} // verus!
