//! The anonymous-vote handler: validate the vote, then sign it.
use crate::envelope::{uleb128, write_uleb128, CanonicalEncode, IntentMessage, IntentScope};
use crate::error::EnclaveError;
use crate::clock::{clock_timestamp, read_clock_millis};
use crate::signer::{ed25519_accepts, ed25519_public_of, signed_response_at, ProcessedDataResponse};
use fastcrypto::ed25519::Ed25519KeyPair;
use vstd::prelude::*;
use vstd::string::{StrSliceExecFns, StringExecFns};
use vstd::utf8::encode_utf8;

verus! {

/// The signed payload: the vote that was cast.
pub struct VoteResponse {
    pub vote: String,
}

/// The inbound payload.
pub struct VoteRequest {
    pub vote: String,
}

/// An inbound request carrying a payload.
pub struct ProcessDataRequest<T> {
    pub payload: T,
}

/// State shared by every request: the process's ephemeral signing key.
pub struct AppState {
    pub eph_kp: Ed25519KeyPair,
}

impl CanonicalEncode for VoteResponse {
    /// A string: the ULEB128 length of its UTF-8 bytes, then the bytes.
    open spec fn spec_encoding(&self) -> Seq<u8> {
        uleb128(encode_utf8(self.vote@).len()) + encode_utf8(self.vote@)
    }

    fn encode_to(&self, out: &mut Vec<u8>) {
        let mut bytes = self.vote.as_str().as_bytes_vec();
        write_uleb128(bytes.len() as u64, out);
        out.append(&mut bytes);
        proof {
            assert(final(out)@ =~= old(out)@ + self.spec_encoding());
        }
    }
}

/// The votes that may be cast, in order.
pub open spec fn allowed_votes() -> Seq<Seq<char>> {
    seq![seq!['A'], seq!['B']]
}

pub open spec fn is_allowed_vote(v: Seq<char>) -> bool {
    allowed_votes().contains(v)
}

/// What a list of strings holds, as character sequences.
pub open spec fn strings_view(v: Seq<String>) -> Seq<Seq<char>> {
    v.map_values(|s: String| s@)
}

/// Whether `e` rejects the vote `vote` and names the allowed set.
pub open spec fn rejects_vote(e: EnclaveError, vote: Seq<char>) -> bool {
    match e {
        EnclaveError::InvalidVote { vote: v, allowed } => v@ == vote && strings_view(
            allowed@,
        ) == allowed_votes(),
        _ => false,
    }
}

/// Encoding is deterministic: two vote envelopes with the same purpose tag,
/// the same timestamp and votes of the same characters encode to the same
/// bytes.
pub proof fn lemma_vote_encoding_deterministic(
    a: IntentMessage<VoteResponse>,
    b: IntentMessage<VoteResponse>,
)
    requires
        a.intent == b.intent,
        a.timestamp_ms == b.timestamp_ms,
        a.data.vote@ == b.data.vote@,
    ensures
        a.spec_bytes() == b.spec_bytes(),
{
}

/// The allowed votes, as strings.
pub fn allowed_vote_strings() -> (r: Vec<String>)
    ensures
        strings_view(r@) == allowed_votes(),
{
    let a = String::from_str("A");
    let b = String::from_str("B");
    proof {
        reveal_strlit("A");
        reveal_strlit("B");
        assert(a@ =~= seq!['A']);
        assert(b@ =~= seq!['B']);
    }
    let mut r: Vec<String> = Vec::new();
    r.push(a);
    r.push(b);
    proof {
        assert(strings_view(r@) =~= allowed_votes());
    }
    r
}

/// Checks a vote against the allowed set.
pub fn validate_vote(vote: &String) -> (r: Result<(), EnclaveError>)
    ensures
        r is Ok <==> is_allowed_vote(vote@),
        r matches Err(e) ==> rejects_vote(e, vote@),
{
    let s = vote.as_str();
    let ok = if s.unicode_len() == 1 {
        let c = s.get_char(0);
        c == 'A' || c == 'B'
    } else {
        false
    };
    proof {
        if ok {
            assert(vote@ =~= seq!['A'] || vote@ =~= seq!['B']);
            assert(allowed_votes()[0] == seq!['A']);
            assert(allowed_votes()[1] == seq!['B']);
        }
    }
    if ok {
        Ok(())
    } else {
        Err(EnclaveError::InvalidVote { vote: vote.clone(), allowed: allowed_vote_strings() })
    }
}

/// Whether `s` is the vote `vote`, signed by `kp` under the vote purpose tag.
pub open spec fn signed_vote(
    s: ProcessedDataResponse<IntentMessage<VoteResponse>>,
    kp: Ed25519KeyPair,
    vote: Seq<char>,
) -> bool {
    &&& s.response.data.vote@ == vote
    &&& s.response.intent == IntentScope::Vote
    &&& s.signature@.len() == 64
    &&& ed25519_accepts(ed25519_public_of(kp), s.response.spec_bytes(), s.signature@)
}

/// Handles a vote given the clock reading `reading` (milliseconds since the
/// Unix epoch, `None` where the clock reads before the epoch): rejects a vote
/// outside the allowed set, else signs the vote, stamped with the reading's
/// timestamp, under the vote purpose tag.
pub fn process_data_at(
    state: &AppState,
    request: ProcessDataRequest<VoteRequest>,
    reading: Option<u128>,
) -> (r: Result<ProcessedDataResponse<IntentMessage<VoteResponse>>, EnclaveError>)
    ensures
        !is_allowed_vote(request.payload.vote@) ==> (r matches Err(e) && rejects_vote(
            e,
            request.payload.vote@,
        )),
        is_allowed_vote(request.payload.vote@) ==> match clock_timestamp(reading) {
            Some(t) => r matches Ok(s) && signed_vote(s, state.eph_kp, request.payload.vote@)
                && s.response.timestamp_ms == t,
            None => r matches Err(e) && e == EnclaveError::ClockError,
        },
{
    validate_vote(&request.payload.vote)?;
    signed_response_at(
        &state.eph_kp,
        VoteResponse { vote: request.payload.vote },
        IntentScope::Vote,
        reading,
    )
}

/// Handles a vote: rejects a vote outside the allowed set, else signs the
/// vote, stamped with the current time, under the vote purpose tag.
pub fn process_data(state: &AppState, request: ProcessDataRequest<VoteRequest>) -> (r: Result<
    ProcessedDataResponse<IntentMessage<VoteResponse>>,
    EnclaveError,
>)
    ensures
        !is_allowed_vote(request.payload.vote@) ==> (r matches Err(e) && rejects_vote(
            e,
            request.payload.vote@,
        )),
        is_allowed_vote(request.payload.vote@) ==> match r {
            Ok(s) => signed_vote(s, state.eph_kp, request.payload.vote@),
            Err(e) => e == EnclaveError::ClockError,
        },
{
    process_data_at(state, request, read_clock_millis())
}

} // verus!
