//! Request authentication: the headers that prove to the service that the
//! caller holds an account's shared secret, without sending the secret.

use base64::Engine;
use hmac::{Hmac, Mac};
use sha2::Sha256;
use vstd::prelude::*;

verus! {

/// The header that names the account.
pub const ACCOUNT_HEADER: &'static str = "X-ACCT-ID";

/// The header that carries the signature of the payload.
pub const SIGNATURE_HEADER: &'static str = "X-PAYLOAD-SIG";

/// The standard, padded base64 encoding of a text's UTF-8 bytes.
pub uninterp spec fn base64_text(text: Seq<char>) -> Seq<char>;

/// The HMAC-SHA256 of a message under a key, both taken as UTF-8 bytes, in
/// lower-case hexadecimal.
pub uninterp spec fn hmac_sha256_hex(key: Seq<char>, message: Seq<char>) -> Seq<char>;

/// `base64::Engine::encode` of the standard engine: the base64 text of the
/// argument's bytes, which depends on them alone. The encoder gives up only
/// where the encoded length exceeds `usize`, which no string in memory
/// reaches.
#[verifier::external_body]
fn base64_encode(text: &str) -> (encoded: String)
    ensures
        encoded@ == base64_text(text@),
{
    base64::engine::general_purpose::STANDARD.encode(text)
}

/// `hmac::Hmac::<Sha256>`, keyed with `new_from_slice`, fed with `update`
/// and closed with `finalize`, then `hex::encode`: the code of the message
/// under the key, which depends on the two alone. HMAC takes a key of any
/// length, so keying never fails.
#[verifier::external_body]
fn hmac_hex(key: &str, message: &str) -> (digest: String)
    ensures
        digest@ == hmac_sha256_hex(key@, message@),
{
    let mut mac = Hmac::<Sha256>::new_from_slice(key.as_bytes()).expect("a key of any length");
    mac.update(message.as_bytes());
    hex::encode(mac.finalize().into_bytes())
}

/// The credentials attached to one request.
#[derive(Debug, Clone)]
pub struct AuthHeaders {
    /// The value of the account header.
    pub account_id: String,
    /// The value of the signature header.
    pub signature: String,
}

/// The signature of a payload under a shared secret: the keyed hash of the
/// payload's base64 text.
pub open spec fn signature_of(shared_secret: Seq<char>, payload: Seq<char>) -> Seq<char> {
    hmac_sha256_hex(shared_secret, base64_text(payload))
}

/// The payload that a request is signed over: its body where it has one,
/// otherwise its path.
pub open spec fn signed_payload(path: Seq<char>, body: Option<Seq<char>>) -> Seq<char> {
    match body {
        Some(b) => b,
        None => path,
    }
}

/// Signs a payload with the shared secret.
pub fn sign(shared_secret: &str, payload: &str) -> (signature: String)
    ensures
        signature@ == signature_of(shared_secret@, payload@),
{
    let encoded = base64_encode(payload);
    hmac_hex(shared_secret, encoded.as_str())
}

/// The credentials for one request: the account, and the signature of the
/// payload under the account's secret. The secret itself is in neither.
pub fn authenticate(account_id: &str, shared_secret: &str, payload: &str) -> (headers: AuthHeaders)
    ensures
        headers.account_id@ == account_id@,
        headers.signature@ == signature_of(shared_secret@, payload@),
{
    AuthHeaders { account_id: account_id.to_owned(), signature: sign(shared_secret, payload) }
}

} // verus!
