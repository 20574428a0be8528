use delegation_bench::delegation::{
    create_delegation, decode_prepare_reply, fetch_payload, iteration_outcome, on_fetch_event,
    on_prepare_event, prepare_payload, Delegation, DelegationState, FetchEvent,
    GetDelegationResponse, PrepareEvent, SignedDelegationCustom,
};
use delegation_bench::driver::IterationOutcome;

fn preparing() -> DelegationState {
    create_delegation(31337, "https://nns.ic0.app".to_string(), vec![4, 5, 6])
}

fn fetching(timestamp: u64) -> DelegationState {
    on_prepare_event(
        preparing(),
        PrepareEvent::Completed { derived_public_key: vec![7, 7, 7], timestamp },
    )
}

#[test]
fn create_delegation_starts_preparing_with_the_request() {
    match preparing() {
        DelegationState::Preparing { request } => {
            assert_eq!(request.user_id, 31337);
            assert_eq!(request.audience, "https://nns.ic0.app");
            assert_eq!(request.public_key, vec![4, 5, 6]);
            assert_eq!(request.expiration, None);
        }
        _ => panic!("expected Preparing"),
    }
}

#[test]
fn prepare_payload_encodes_the_request_tuple() {
    let state = preparing();
    let payload = prepare_payload(&state).expect("prepare args must encode");
    let (user_id, audience, key, expiration): (u64, String, serde_bytes::ByteBuf, Option<u64>) =
        candid::utils::decode_args(&payload).expect("payload must decode back");
    assert_eq!(user_id, 31337);
    assert_eq!(audience, "https://nns.ic0.app");
    assert_eq!(key.into_vec(), vec![4, 5, 6]);
    assert_eq!(expiration, None);
}

#[test]
fn phase_one_completion_keeps_request_and_handle() {
    match fetching(987654321) {
        DelegationState::Fetching { request, handle } => {
            assert_eq!(request.user_id, 31337);
            assert_eq!(request.audience, "https://nns.ic0.app");
            assert_eq!(request.public_key, vec![4, 5, 6]);
            assert_eq!(handle.derived_public_key, vec![7, 7, 7]);
            assert_eq!(handle.timestamp, 987654321);
        }
        _ => panic!("expected Fetching"),
    }
}

#[test]
fn fetch_payload_carries_exactly_the_phase_one_timestamp() {
    let state = fetching(555_000_111);
    let payload = fetch_payload(&state).expect("fetch args must encode");
    let (user_id, audience, key, timestamp): (u64, String, serde_bytes::ByteBuf, u64) =
        candid::utils::decode_args(&payload).expect("payload must decode back");
    assert_eq!(user_id, 31337);
    assert_eq!(audience, "https://nns.ic0.app");
    assert_eq!(key.into_vec(), vec![4, 5, 6]);
    assert_eq!(timestamp, 555_000_111);
    assert_ne!(timestamp, 555_000_112);
}

#[test]
fn mismatched_timestamp_reply_is_fatal_not_silent() {
    let state = fetching(555_000_111);
    let next = on_fetch_event(state, FetchEvent::Response(GetDelegationResponse::NoSuchDelegation));
    assert!(matches!(next, DelegationState::Fatal));
    assert!(matches!(iteration_outcome(&next, 10), IterationOutcome::FatalFailure));
}

#[test]
fn phase_one_transport_failure_retries_the_iteration() {
    let next = on_prepare_event(preparing(), PrepareEvent::TransportFailed);
    assert!(matches!(next, DelegationState::RetryIteration));
    assert!(matches!(iteration_outcome(&next, 10), IterationOutcome::RetryableFailure));
}

#[test]
fn phase_one_decode_failure_is_fatal() {
    let next = on_prepare_event(preparing(), PrepareEvent::DecodeFailed);
    assert!(matches!(next, DelegationState::Fatal));
}

#[test]
fn phase_two_transport_failure_retries_the_iteration() {
    let next = on_fetch_event(fetching(1), FetchEvent::TransportFailed);
    assert!(matches!(next, DelegationState::RetryIteration));
}

#[test]
fn phase_two_decode_failure_is_fatal() {
    let next = on_fetch_event(fetching(1), FetchEvent::DecodeFailed);
    assert!(matches!(next, DelegationState::Fatal));
}

#[test]
fn signed_delegation_succeeds_with_elapsed_time() {
    let reply = GetDelegationResponse::SignedDelegation(SignedDelegationCustom {
        delegation: Delegation { pubkey: vec![7, 7, 7], expiration: 99, targets: None },
        signature: vec![8, 8],
    });
    let next = on_fetch_event(fetching(1), FetchEvent::Response(reply));
    match &next {
        DelegationState::Succeeded { delegation } => {
            assert_eq!(delegation.delegation.pubkey, vec![7, 7, 7]);
            assert_eq!(delegation.delegation.expiration, 99);
            assert_eq!(delegation.signature, vec![8, 8]);
        }
        _ => panic!("expected Succeeded"),
    }
    assert!(matches!(
        iteration_outcome(&next, 250),
        IterationOutcome::Success { elapsed_ms: 250 }
    ));
}

#[test]
fn prepare_reply_decodes_into_the_handle() {
    let data = candid::utils::encode_args((
        serde_bytes::ByteBuf::from(vec![1u8, 2, 3]),
        777u64,
    ))
    .expect("encoding the reply must succeed");
    match decode_prepare_reply(&data) {
        PrepareEvent::Completed { derived_public_key, timestamp } => {
            assert_eq!(derived_public_key, vec![1, 2, 3]);
            assert_eq!(timestamp, 777);
        }
        _ => panic!("expected Completed"),
    }
}

#[test]
fn malformed_prepare_reply_is_a_decode_failure() {
    let data = vec![0u8, 1, 2, 3];
    assert!(matches!(decode_prepare_reply(&data), PrepareEvent::DecodeFailed));
}
