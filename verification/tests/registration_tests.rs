use delegation_bench::registration::{
    challenge_payload, ensure_registered, on_challenge_event, on_register_event, on_solution,
    required_action, Challenge, ChallengeEvent, DeviceProtection, KeyType, Purpose,
    RegisterEvent, RegisterResponse, RegistrationAction, RegistrationError, RegistrationState,
};

#[test]
fn challenge_payload_is_the_fixed_unit_argument() {
    let payload = challenge_payload();
    assert_eq!(payload, vec![0x44, 0x49, 0x44, 0x4c, 0x00, 0x01, 0x7f]);
    let reference = candid::utils::encode_one(()).expect("reference encoding must succeed");
    assert_eq!(payload, reference);
}

#[test]
fn idempotent_registration_returns_persisted_value() {
    let state = ensure_registered(Some(77));
    assert!(matches!(state, RegistrationState::Done { user_number: 77 }));
    assert_eq!(required_action(&state), RegistrationAction::NoCalls);
}

#[test]
fn missing_identifier_demands_a_challenge() {
    let state = ensure_registered(None);
    assert!(matches!(state, RegistrationState::NeedChallenge));
    assert_eq!(required_action(&state), RegistrationAction::FetchChallenge);
}

#[test]
fn fetched_challenge_decodes_image_and_waits() {
    let challenge = Challenge {
        png_base64: "aGVsbG8=".to_string(),
        challenge_key: "key-1".to_string(),
    };
    let (state, image) = on_challenge_event(
        RegistrationState::NeedChallenge,
        ChallengeEvent::Fetched(challenge),
    );
    match state {
        RegistrationState::AwaitingSolution { challenge_key } => {
            assert_eq!(challenge_key, "key-1");
        }
        _ => panic!("expected AwaitingSolution"),
    }
    assert_eq!(image, Some(b"hello".to_vec()));
}

#[test]
fn malformed_image_payload_is_fatal() {
    let challenge = Challenge {
        png_base64: "!!! not base64 !!!".to_string(),
        challenge_key: "key-1".to_string(),
    };
    let (state, image) = on_challenge_event(
        RegistrationState::NeedChallenge,
        ChallengeEvent::Fetched(challenge),
    );
    assert!(matches!(
        state,
        RegistrationState::Failed { error: RegistrationError::Decode }
    ));
    assert_eq!(image, None);
}

#[test]
fn challenge_transport_failure_is_fatal() {
    let (state, image) =
        on_challenge_event(RegistrationState::NeedChallenge, ChallengeEvent::TransportFailed);
    assert!(matches!(
        state,
        RegistrationState::Failed { error: RegistrationError::Transport }
    ));
    assert_eq!(image, None);
}

#[test]
fn challenge_decode_failure_is_fatal() {
    let (state, _) =
        on_challenge_event(RegistrationState::NeedChallenge, ChallengeEvent::DecodeFailed);
    assert!(matches!(
        state,
        RegistrationState::Failed { error: RegistrationError::Decode }
    ));
}

#[test]
fn solution_builds_default_device_and_attempt() {
    let waiting = RegistrationState::AwaitingSolution { challenge_key: "key-2".to_string() };
    let state = on_solution(waiting, "abcde".to_string(), vec![1, 2, 3]);
    match state {
        RegistrationState::Submitting { device, attempt } => {
            assert_eq!(device.pubkey, vec![1, 2, 3]);
            assert_eq!(device.alias, "test key");
            assert!(device.credential_id.is_none());
            assert_eq!(device.purpose, Purpose::Authentication);
            assert_eq!(device.key_type, KeyType::Unknown);
            assert_eq!(device.protection, DeviceProtection::Unprotected);
            assert_eq!(attempt.chars, "abcde");
            assert_eq!(attempt.key, "key-2");
        }
        _ => panic!("expected Submitting"),
    }
}

fn submitting() -> RegistrationState {
    let waiting = RegistrationState::AwaitingSolution { challenge_key: "k".to_string() };
    on_solution(waiting, "chars".to_string(), vec![9])
}

#[test]
fn registered_reply_is_done_and_persisted() {
    let (state, persist) = on_register_event(
        submitting(),
        RegisterEvent::Response(RegisterResponse::Registered { user_number: 4242 }),
    );
    assert!(matches!(state, RegistrationState::Done { user_number: 4242 }));
    assert_eq!(persist, Some(4242));
}

#[test]
fn canister_full_is_fatal() {
    let (state, persist) =
        on_register_event(submitting(), RegisterEvent::Response(RegisterResponse::CanisterFull));
    assert!(matches!(
        state,
        RegistrationState::Failed { error: RegistrationError::CanisterFull }
    ));
    assert_eq!(persist, None);
}

#[test]
fn bad_challenge_is_fatal() {
    let (state, _) =
        on_register_event(submitting(), RegisterEvent::Response(RegisterResponse::BadChallenge));
    assert!(matches!(
        state,
        RegistrationState::Failed { error: RegistrationError::BadChallenge }
    ));
}

#[test]
fn register_transport_failure_is_fatal() {
    let (state, _) = on_register_event(submitting(), RegisterEvent::TransportFailed);
    assert!(matches!(
        state,
        RegistrationState::Failed { error: RegistrationError::Transport }
    ));
}

#[test]
fn register_decode_failure_is_fatal() {
    let (state, _) = on_register_event(submitting(), RegisterEvent::DecodeFailed);
    assert!(matches!(
        state,
        RegistrationState::Failed { error: RegistrationError::Decode }
    ));
}
