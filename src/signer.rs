//! Ed25519 signing of canonical envelopes, and the signed response.
use crate::clock::{clock_timestamp, read_clock_millis, timestamp_of_reading};
use crate::envelope::{CanonicalEncode, IntentMessage, IntentScope};
use crate::error::EnclaveError;
use fastcrypto::ed25519::{Ed25519KeyPair, Ed25519PublicKey, Ed25519Signature};
use fastcrypto::traits::{KeyPair, Signer, ToFromBytes, VerifyingKey};
use vstd::prelude::*;

verus! {

#[verifier::external_type_specification]
#[verifier::external_body]
pub struct ExEd25519KeyPair(Ed25519KeyPair);

/// Whether `sig` is a valid Ed25519 signature of `msg` under the public key
/// whose 32-byte encoding is `public_key`.
pub uninterp spec fn ed25519_accepts(public_key: Seq<u8>, msg: Seq<u8>, sig: Seq<u8>) -> bool;

/// The 32-byte encoding of the public key of `kp`.
pub uninterp spec fn ed25519_public_of(kp: Ed25519KeyPair) -> Seq<u8>;

/// Relies on fastcrypto's `KeyPair::public` for `Ed25519KeyPair` (the
/// verification key derived from the private key when the pair is made) and
/// on `ToFromBytes::as_bytes` for `Ed25519PublicKey`.
#[verifier::external_body]
pub fn public_key_bytes(kp: &Ed25519KeyPair) -> (r: Vec<u8>)
    ensures
        r@ == ed25519_public_of(*kp),
{
    kp.public().as_bytes().to_vec()
}

/// Relies on fastcrypto's `Signer::sign` for `Ed25519KeyPair`, which signs
/// with the pair's private key, and on `AsRef<[u8]>` for `Ed25519Signature`,
/// which gives the 64 raw signature bytes; an Ed25519 signature made with the
/// private key verifies under the matching public key.
#[verifier::external_body]
fn ed25519_sign(kp: &Ed25519KeyPair, msg: &Vec<u8>) -> (r: Vec<u8>)
    ensures
        r@.len() == 64,
        ed25519_accepts(ed25519_public_of(*kp), msg@, r@),
{
    let sig: Ed25519Signature = kp.sign(msg.as_slice());
    sig.as_ref().to_vec()
}

/// Relies on fastcrypto's `VerifyingKey::verify` for `Ed25519PublicKey`, after
/// `ToFromBytes::from_bytes` of the key and of the signature; bytes that do
/// not parse are not accepted.
#[verifier::external_body]
fn ed25519_verify(public_key: &Vec<u8>, msg: &Vec<u8>, sig: &Vec<u8>) -> (r: bool)
    ensures
        r == ed25519_accepts(public_key@, msg@, sig@),
{
    match (Ed25519PublicKey::from_bytes(public_key), Ed25519Signature::from_bytes(sig)) {
        (Ok(pk), Ok(s)) => pk.verify(msg, &s).is_ok(),
        _ => false,
    }
}

/// An envelope together with the signature over its canonical encoding.
pub struct ProcessedDataResponse<T> {
    pub response: T,
    pub signature: Vec<u8>,
}

/// Builds the envelope (`payload`, `timestamp_ms`, `intent`), encodes it and
/// signs the encoding with `kp`.
pub fn to_signed_response<T: CanonicalEncode>(
    kp: &Ed25519KeyPair,
    payload: T,
    timestamp_ms: u64,
    intent: IntentScope,
) -> (r: ProcessedDataResponse<IntentMessage<T>>)
    ensures
        r.response.data == payload,
        r.response.timestamp_ms == timestamp_ms,
        r.response.intent == intent,
        r.signature@.len() == 64,
        ed25519_accepts(ed25519_public_of(*kp), r.response.spec_bytes(), r.signature@),
{
    let msg = IntentMessage::new(payload, timestamp_ms, intent);
    let bytes = msg.to_bytes();
    let signature = ed25519_sign(kp, &bytes);
    ProcessedDataResponse { response: msg, signature }
}

/// Signs `payload` for `intent`, stamped with the timestamp of the clock
/// reading `reading` (milliseconds since the Unix epoch, `None` where the
/// clock reads before the epoch); a reading without a timestamp fails.
pub fn signed_response_at<T: CanonicalEncode>(
    kp: &Ed25519KeyPair,
    payload: T,
    intent: IntentScope,
    reading: Option<u128>,
) -> (r: Result<ProcessedDataResponse<IntentMessage<T>>, EnclaveError>)
    ensures
        match clock_timestamp(reading) {
            Some(t) => r matches Ok(s) && s.response.data == payload && s.response.intent == intent
                && s.response.timestamp_ms == t && s.signature@.len() == 64 && ed25519_accepts(
                ed25519_public_of(*kp),
                s.response.spec_bytes(),
                s.signature@,
            ),
            None => r matches Err(e) && e == EnclaveError::ClockError,
        },
{
    let timestamp_ms = timestamp_of_reading(reading)?;
    Ok(to_signed_response(kp, payload, timestamp_ms, intent))
}

/// Signs `payload` for `intent`, stamped with the current time read from the
/// system clock; a clock that cannot be read fails the request.
pub fn assemble_signed_response<T: CanonicalEncode>(
    kp: &Ed25519KeyPair,
    payload: T,
    intent: IntentScope,
) -> (r: Result<ProcessedDataResponse<IntentMessage<T>>, EnclaveError>)
    ensures
        match r {
            Ok(s) => s.response.data == payload && s.response.intent == intent
                && s.signature@.len() == 64 && ed25519_accepts(
                ed25519_public_of(*kp),
                s.response.spec_bytes(),
                s.signature@,
            ),
            Err(e) => e == EnclaveError::ClockError,
        },
{
    signed_response_at(kp, payload, intent, read_clock_millis())
}

/// Re-encodes the returned envelope and checks the returned signature
/// against `public_key`.
pub fn verify_signed_response<T: CanonicalEncode>(
    public_key: &Vec<u8>,
    signed: &ProcessedDataResponse<IntentMessage<T>>,
) -> (r: bool)
    ensures
        r == ed25519_accepts(public_key@, signed.response.spec_bytes(), signed.signature@),
{
    let bytes = signed.response.to_bytes();
    ed25519_verify(public_key, &bytes, &signed.signature)
}

} // verus!
