use fastcrypto::ed25519::Ed25519KeyPair;
use fastcrypto::encoding::{Encoding, Hex};
use fastcrypto::traits::{KeyPair, ToFromBytes};
use nautilus_vote::clock::{current_timestamp_ms, timestamp_from_millis};
use nautilus_vote::envelope::{write_uleb128, IntentMessage, IntentScope};
use nautilus_vote::error::EnclaveError;
use nautilus_vote::clock::{read_clock_millis, timestamp_of_reading};
use nautilus_vote::signer::{
    assemble_signed_response, public_key_bytes, signed_response_at, to_signed_response,
    verify_signed_response,
};
use nautilus_vote::vote::{
    allowed_vote_strings, process_data, process_data_at, validate_vote, AppState, ProcessDataRequest, VoteRequest,
    VoteResponse,
};

fn keypair(seed: u8) -> Ed25519KeyPair {
    Ed25519KeyPair::from_bytes(&[seed; 32]).unwrap()
}

fn public_key(kp: &Ed25519KeyPair) -> Vec<u8> {
    kp.public().as_bytes().to_vec()
}

fn request(vote: &str) -> ProcessDataRequest<VoteRequest> {
    ProcessDataRequest {
        payload: VoteRequest {
            vote: vote.to_string(),
        },
    }
}

fn assert_rejected(vote: &str) {
    let state = AppState { eph_kp: keypair(1) };
    match process_data(&state, request(vote)) {
        Err(EnclaveError::InvalidVote { vote: v, allowed }) => {
            assert_eq!(v, vote);
            assert_eq!(allowed, vec!["A".to_string(), "B".to_string()]);
        }
        _ => panic!("vote {:?} should be rejected", vote),
    }
}

#[test]
fn test_process_data() {
    let state = AppState { eph_kp: keypair(7) };
    let signed_vote_response = process_data(&state, request("A")).ok().unwrap();
    assert_eq!(signed_vote_response.response.data.vote, "A");
    assert!(verify_signed_response(&public_key(&state.eph_kp), &signed_vote_response));
}

#[test]
fn test_serde() {
    let payload = VoteResponse {
        vote: "A".to_string(),
    };
    let timestamp = 1744038900000;
    let intent_msg = IntentMessage::new(payload, timestamp, IntentScope::Weather);
    let signing_payload = intent_msg.to_bytes();
    assert!(signing_payload == Hex::decode("0020b1d110960100000141").unwrap());
}

#[test]
fn vote_b_is_accepted() {
    let state = AppState { eph_kp: keypair(2) };
    let signed = process_data(&state, request("B")).ok().unwrap();
    assert_eq!(signed.response.data.vote, "B");
    assert_eq!(signed.response.intent, IntentScope::Vote);
    assert_eq!(signed.signature.len(), 64);
    assert!(signed.response.timestamp_ms > 1_600_000_000_000);
    assert!(verify_signed_response(&public_key(&state.eph_kp), &signed));
}

#[test]
fn vote_c_is_rejected() {
    assert_rejected("C");
}

#[test]
fn near_misses_are_rejected() {
    assert_rejected("");
    assert_rejected("a");
    assert_rejected("AB");
    assert_rejected(" A");
    assert_rejected("Ä");
}

#[test]
fn validate_vote_accepts_exactly_a_and_b() {
    assert!(validate_vote(&"A".to_string()).is_ok());
    assert!(validate_vote(&"B".to_string()).is_ok());
    assert!(validate_vote(&"C".to_string()).is_err());
    assert_eq!(allowed_vote_strings(), vec!["A".to_string(), "B".to_string()]);
}

#[test]
fn encoding_is_deterministic() {
    let a = IntentMessage::new(VoteResponse { vote: "B".to_string() }, 42, IntentScope::Vote);
    let b = IntentMessage::new(VoteResponse { vote: "B".to_string() }, 42, IntentScope::Vote);
    assert_eq!(a.to_bytes(), a.to_bytes());
    assert_eq!(a.to_bytes(), b.to_bytes());
    assert_eq!(a.to_bytes(), vec![1, 42, 0, 0, 0, 0, 0, 0, 0, 1, 0x42]);
}

#[test]
fn purposes_separate_encodings_and_signatures() {
    let kp = keypair(3);
    let pk = public_key(&kp);
    let weather = IntentMessage::new(VoteResponse { vote: "A".to_string() }, 5, IntentScope::Weather);
    let vote = IntentMessage::new(VoteResponse { vote: "A".to_string() }, 5, IntentScope::Vote);
    assert_ne!(weather.to_bytes(), vote.to_bytes());

    let mut signed = to_signed_response(&kp, VoteResponse { vote: "A".to_string() }, 5, IntentScope::Weather);
    assert!(verify_signed_response(&pk, &signed));
    signed.response.intent = IntentScope::Vote;
    assert!(!verify_signed_response(&pk, &signed));
}

#[test]
fn altered_response_or_key_fails_verification() {
    let kp = keypair(4);
    let pk = public_key(&kp);
    let mut signed = to_signed_response(&kp, VoteResponse { vote: "A".to_string() }, 99, IntentScope::Vote);
    assert_eq!(signed.signature.len(), 64);
    assert!(verify_signed_response(&pk, &signed));
    assert!(!verify_signed_response(&public_key(&keypair(5)), &signed));
    signed.response.timestamp_ms = 100;
    assert!(!verify_signed_response(&pk, &signed));
    signed.response.timestamp_ms = 99;
    signed.response.data.vote = "B".to_string();
    assert!(!verify_signed_response(&pk, &signed));
    signed.response.data.vote = "A".to_string();
    signed.signature[0] ^= 1;
    assert!(!verify_signed_response(&pk, &signed));
    assert!(!verify_signed_response(&vec![0u8; 3], &signed));
}

#[test]
fn uleb128_lengths() {
    let mut out = vec![9u8];
    write_uleb128(0, &mut out);
    write_uleb128(127, &mut out);
    write_uleb128(128, &mut out);
    write_uleb128(300, &mut out);
    assert_eq!(out, vec![9, 0, 0x7f, 0x80, 0x01, 0xac, 0x02]);
    let mut max = Vec::new();
    write_uleb128(u64::MAX, &mut max);
    assert_eq!(max, vec![0xff, 0xff, 0xff, 0xff, 0xff, 0xff, 0xff, 0xff, 0xff, 0x01]);
}

#[test]
fn long_and_multibyte_payloads_encode_with_byte_length() {
    let long = "x".repeat(200);
    let bytes = IntentMessage::new(VoteResponse { vote: long.clone() }, 0, IntentScope::Weather).to_bytes();
    assert_eq!(bytes.len(), 1 + 8 + 2 + 200);
    assert_eq!(&bytes[9..11], &[0xc8, 0x01]);
    let multi = IntentMessage::new(VoteResponse { vote: "é".to_string() }, 0, IntentScope::Weather).to_bytes();
    assert_eq!(&multi[9..], &[2, 0xc3, 0xa9]);
}

#[test]
fn timestamps_from_millis() {
    assert!(matches!(timestamp_from_millis(1744038900000), Ok(1744038900000)));
    assert!(matches!(timestamp_from_millis(u64::MAX as u128), Ok(u64::MAX)));
    assert!(matches!(timestamp_from_millis(u64::MAX as u128 + 1), Err(EnclaveError::ClockError)));
    let now = current_timestamp_ms().ok().unwrap();
    assert!(now > 1_600_000_000_000);
}

#[test]
fn intent_tags() {
    assert_eq!(IntentScope::Weather.tag(), 0);
    assert_eq!(IntentScope::Vote.tag(), 1);
}

#[test]
fn assembled_response_is_stamped_now_and_verifies() {
    let kp = keypair(6);
    let before = current_timestamp_ms().ok().unwrap();
    let signed = assemble_signed_response(&kp, VoteResponse { vote: "B".to_string() }, IntentScope::Weather)
        .ok()
        .unwrap();
    let after = current_timestamp_ms().ok().unwrap();
    assert!(before <= signed.response.timestamp_ms && signed.response.timestamp_ms <= after);
    assert_eq!(signed.response.intent, IntentScope::Weather);
    assert_eq!(signed.response.data.vote, "B");
    assert!(verify_signed_response(&public_key(&kp), &signed));
}

#[test]
fn public_key_bytes_match_the_key_pair() {
    let kp = keypair(8);
    let pk = public_key_bytes(&kp);
    assert_eq!(pk.len(), 32);
    assert_eq!(pk, public_key(&kp));
    assert_ne!(pk, public_key_bytes(&keypair(9)));
    let signed = to_signed_response(&kp, VoteResponse { vote: "A".to_string() }, 1, IntentScope::Vote);
    assert!(verify_signed_response(&pk, &signed));
}

#[test]
fn process_data_at_uses_the_reading() {
    let state = AppState { eph_kp: keypair(10) };
    let signed = process_data_at(&state, request("A"), Some(1744038900000)).ok().unwrap();
    assert_eq!(signed.response.data.vote, "A");
    assert_eq!(signed.response.timestamp_ms, 1744038900000);
    assert_eq!(signed.response.intent, IntentScope::Vote);
    assert!(verify_signed_response(&public_key_bytes(&state.eph_kp), &signed));
    assert!(matches!(process_data_at(&state, request("B"), None), Err(EnclaveError::ClockError)));
    assert!(matches!(
        process_data_at(&state, request("B"), Some(u64::MAX as u128 + 1)),
        Err(EnclaveError::ClockError)
    ));
    assert!(matches!(
        process_data_at(&state, request("C"), None),
        Err(EnclaveError::InvalidVote { .. })
    ));
}

#[test]
fn signed_response_at_and_clock_readings() {
    let kp = keypair(11);
    let signed = signed_response_at(&kp, VoteResponse { vote: "B".to_string() }, IntentScope::Weather, Some(0))
        .ok()
        .unwrap();
    assert_eq!(signed.response.timestamp_ms, 0);
    assert_eq!(signed.response.to_bytes(), vec![0, 0, 0, 0, 0, 0, 0, 0, 0, 1, 0x42]);
    assert!(verify_signed_response(&public_key_bytes(&kp), &signed));
    assert!(matches!(timestamp_of_reading(Some(7)), Ok(7)));
    assert!(matches!(timestamp_of_reading(None), Err(EnclaveError::ClockError)));
    assert!(read_clock_millis().unwrap() > 1_600_000_000_000);
}
