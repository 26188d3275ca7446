//! The intent envelope and its canonical byte encoding.
//!
//! The encoding is the BCS layout that on-chain verifiers recompute: the
//! purpose tag as one byte, the timestamp as eight little-endian bytes, then
//! the payload's own encoding.
use vstd::bytes::{spec_u64_to_le_bytes, u64_to_le_bytes};
use vstd::prelude::*;

verus! {

/// Tag of the context a signature is valid for (domain separation).
#[derive(Clone, Copy, Debug, PartialEq, Eq, Structural)]
pub enum IntentScope {
    Weather,
    Vote,
}

impl IntentScope {
    /// The byte that stands for this tag in the canonical encoding.
    pub open spec fn spec_tag(self) -> u8 {
        match self {
            IntentScope::Weather => 0,
            IntentScope::Vote => 1,
        }
    }

    pub fn tag(&self) -> (r: u8)
        ensures
            r == self.spec_tag(),
    {
        match self {
            IntentScope::Weather => 0,
            IntentScope::Vote => 1,
        }
    }
}

/// A value with a canonical byte encoding.
pub trait CanonicalEncode {
    spec fn spec_encoding(&self) -> Seq<u8>;

    /// Appends the canonical encoding of `self` to `out`.
    fn encode_to(&self, out: &mut Vec<u8>)
        ensures
            final(out)@ == old(out)@ + self.spec_encoding(),
    ;
}

/// ULEB128 encoding of `n`: seven bits per byte, least significant group
/// first, the high bit set on every byte but the last.
pub open spec fn uleb128(n: nat) -> Seq<u8>
    decreases n,
{
    if n < 128 {
        seq![n as u8]
    } else {
        seq![(n % 128 + 128) as u8] + uleb128(n / 128)
    }
}

/// Appends the ULEB128 encoding of `n` to `out`.
pub fn write_uleb128(n: u64, out: &mut Vec<u8>)
    ensures
        final(out)@ == old(out)@ + uleb128(n as nat),
{
    let ghost start = out@;
    let mut v: u64 = n;
    while v >= 128
        invariant
            out@ + uleb128(v as nat) == start + uleb128(n as nat),
        decreases v,
    {
        let byte: u8 = (v % 128 + 128) as u8;
        proof {
            assert(uleb128(v as nat) == seq![byte] + uleb128((v / 128) as nat));
            assert(out@.push(byte) + uleb128((v / 128) as nat) =~= out@ + uleb128(v as nat));
        }
        out.push(byte);
        v = v / 128;
    }
    proof {
        assert(uleb128(v as nat) == seq![v as u8]);
        assert(out@.push(v as u8) =~= out@ + uleb128(v as nat));
    }
    out.push(v as u8);
}

/// A payload bound to a timestamp and a purpose: what gets signed.
pub struct IntentMessage<T> {
    pub intent: IntentScope,
    pub timestamp_ms: u64,
    pub data: T,
}

impl<T: CanonicalEncode> IntentMessage<T> {
    pub fn new(data: T, timestamp_ms: u64, intent: IntentScope) -> (r: Self)
        ensures
            r.intent == intent,
            r.timestamp_ms == timestamp_ms,
            r.data == data,
    {
        IntentMessage { intent, timestamp_ms, data }
    }

    /// The canonical encoding of the envelope.
    pub open spec fn spec_bytes(&self) -> Seq<u8> {
        intent_bytes(self.intent, self.timestamp_ms, self.data.spec_encoding())
    }

    /// The canonical encoding of the envelope, as signed.
    pub fn to_bytes(&self) -> (r: Vec<u8>)
        ensures
            r@ == self.spec_bytes(),
    {
        let mut out: Vec<u8> = Vec::new();
        out.push(self.intent.tag());
        let mut ts = u64_to_le_bytes(self.timestamp_ms);
        out.append(&mut ts);
        self.data.encode_to(&mut out);
        proof {
            assert(out@ =~= self.spec_bytes());
        }
        out
    }
}

/// The canonical encoding of an envelope whose payload encodes to `payload`.
pub open spec fn intent_bytes(intent: IntentScope, timestamp_ms: u64, payload: Seq<u8>) -> Seq<u8> {
    seq![intent.spec_tag()] + spec_u64_to_le_bytes(timestamp_ms) + payload
}

/// Domain separation: envelopes that differ in their purpose tag encode to
/// different bytes, whatever their timestamps and payloads.
pub proof fn lemma_purpose_separates<T: CanonicalEncode>(a: IntentMessage<T>, b: IntentMessage<T>)
    requires
        a.intent != b.intent,
    ensures
        a.spec_bytes() != b.spec_bytes(),
{
    assert(a.spec_bytes()[0] == a.intent.spec_tag());
    assert(b.spec_bytes()[0] == b.intent.spec_tag());
}

} // verus!
