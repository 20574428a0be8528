//! The one-time identity-registration handshake: fetch a challenge,
//! present it for an external (human) solve, submit the solved
//! characters with a device descriptor, and persist the user identifier
//! the platform hands back.  The workflow is a state machine; the
//! surrounding binary performs the calls each state demands and feeds
//! the outcomes back in.

use vstd::prelude::*;

verus! {

/// A server-issued puzzle: an image payload (standard base64 text) and an
/// opaque challenge key.  Fetched fresh per registration attempt, consumed
/// by exactly one solve-and-submit cycle, never persisted.
pub struct Challenge {
    pub png_base64: String,
    pub challenge_key: String,
}

/// The solved characters, paired with the key of the challenge they solve.
pub struct ChallengeAttempt {
    pub chars: String,
    pub key: String,
}

#[derive(Clone, Copy, PartialEq, Eq, Structural, Debug)]
pub enum KeyType {
    Unknown,
    Platform,
    CrossPlatform,
    SeedPhrase,
}

#[derive(Clone, Copy, PartialEq, Eq, Structural, Debug)]
pub enum DeviceProtection {
    Protected,
    Unprotected,
}

#[derive(Clone, Copy, PartialEq, Eq, Structural, Debug)]
pub enum Purpose {
    Recovery,
    Authentication,
}

/// The device descriptor submitted with a registration.
pub struct DeviceData {
    pub pubkey: Vec<u8>,
    pub alias: String,
    pub credential_id: Option<Vec<u8>>,
    pub purpose: Purpose,
    pub key_type: KeyType,
    pub protection: DeviceProtection,
}

/// The platform's tagged reply to a registration submission.
pub enum RegisterResponse {
    Registered { user_number: u64 },
    CanisterFull,
    BadChallenge,
}

#[derive(Clone, Copy, PartialEq, Eq, Structural, Debug)]
pub enum RegistrationError {
    /// The challenge fetch or the submission failed in transport: fatal
    /// here, since a silent retry would waste a fresh challenge.
    Transport,
    /// A response payload (challenge, image or registration reply) did
    /// not decode: a protocol or version mismatch, fatal.
    Decode,
    /// The platform refused the registration because it is full.
    CanisterFull,
    /// The solved characters did not match the challenge.
    BadChallenge,
}

/// The states of the registration workflow.
pub enum RegistrationState {
    /// A user identifier is known (persisted earlier or just granted).
    Done { user_number: u64 },
    /// No persisted identifier: a challenge must be fetched.
    NeedChallenge,
    /// The challenge image is out for viewing; the workflow is suspended
    /// until the solved characters arrive.
    AwaitingSolution { challenge_key: String },
    /// The submission is ready to be sent.
    Submitting { device: DeviceData, attempt: ChallengeAttempt },
    /// The workflow failed; the error says why.
    Failed { error: RegistrationError },
}

/// What the driver must do next for a given state.
#[derive(Clone, Copy, PartialEq, Eq, Structural, Debug)]
pub enum RegistrationAction {
    /// Terminal: no network call is made.
    NoCalls,
    /// Issue the state-mutating challenge-fetch call (no arguments).
    FetchChallenge,
    /// Persist the image, then block for the external solve.
    CollectSolution,
    /// Issue the state-mutating registration call.
    SubmitRegistration,
    /// Terminal failure: abort.
    Abort,
}

pub open spec fn spec_required_action(s: RegistrationState) -> RegistrationAction {
    match s {
        RegistrationState::Done { .. } => RegistrationAction::NoCalls,
        RegistrationState::NeedChallenge => RegistrationAction::FetchChallenge,
        RegistrationState::AwaitingSolution { .. } => RegistrationAction::CollectSolution,
        RegistrationState::Submitting { .. } => RegistrationAction::SubmitRegistration,
        RegistrationState::Failed { .. } => RegistrationAction::Abort,
    }
}

pub fn required_action(s: &RegistrationState) -> (a: RegistrationAction)
    ensures
        a == spec_required_action(*s),
{
    match s {
        RegistrationState::Done { .. } => RegistrationAction::NoCalls,
        RegistrationState::NeedChallenge => RegistrationAction::FetchChallenge,
        RegistrationState::AwaitingSolution { .. } => RegistrationAction::CollectSolution,
        RegistrationState::Submitting { .. } => RegistrationAction::SubmitRegistration,
        RegistrationState::Failed { .. } => RegistrationAction::Abort,
    }
}

pub open spec fn spec_ensure_registered(persisted: Option<u64>) -> RegistrationState {
    match persisted {
        Some(user_number) => RegistrationState::Done { user_number },
        None => RegistrationState::NeedChallenge,
    }
}

/// Entry of the workflow.  With a persisted identifier it is Done at
/// once — registration is attempted only when no identifier exists, and
/// once persisted it is never retried.
pub fn ensure_registered(persisted: Option<u64>) -> (s: RegistrationState)
    ensures
        s == spec_ensure_registered(persisted),
{
    match persisted {
        Some(user_number) => RegistrationState::Done { user_number },
        None => RegistrationState::NeedChallenge,
    }
}

/// Idempotent registration: with a persisted identifier the workflow is
/// immediately Done with that same identifier, and a Done workflow
/// demands zero network calls.
pub proof fn lemma_idempotent_registration(user_number: u64)
    ensures
        spec_ensure_registered(Some(user_number)) == (RegistrationState::Done { user_number }),
        spec_required_action(spec_ensure_registered(Some(user_number)))
            == RegistrationAction::NoCalls,
{
}

/// What the decoded image bytes are for a given base64 text; what the
/// standard-alphabet decoder returns.
pub uninterp spec fn base64_decoding(s: Seq<char>) -> Option<Seq<u8>>;

/// Relies on base64's `Engine::decode` with the standard alphabet and
/// padding: the decoded bytes (or the rejection) are a function of the
/// input text alone.
#[verifier::external_body]
fn base64_decode(s: &str) -> (r: Option<Vec<u8>>)
    ensures
        r matches Some(v) ==> base64_decoding(s@) == Some(v@),
        r is None ==> base64_decoding(s@) is None,
{
    base64::Engine::decode(&base64::prelude::BASE64_STANDARD, s).ok()
}

/// The fixed argument payload of the challenge-fetch call, which sends
/// one unit (null) argument: the `DIDL` magic, an empty type table, one
/// argument of the null type, and no value bytes.
pub open spec fn challenge_args_bytes() -> Seq<u8> {
    seq![0x44u8, 0x49u8, 0x44u8, 0x4cu8, 0x00u8, 0x01u8, 0x7fu8]
}

/// The argument payload the challenge fetch must be issued with: the
/// unit (null) argument in candid's wire form.  The encoding of this
/// one fixed value is a seven-byte constant, so it is built and proved
/// here outright; a test holds it against candid's own encoder.
pub fn challenge_payload() -> (r: Vec<u8>)
    ensures
        r@ == challenge_args_bytes(),
{
    let mut v: Vec<u8> = Vec::new();
    v.push(0x44);
    v.push(0x49);
    v.push(0x44);
    v.push(0x4c);
    v.push(0x00);
    v.push(0x01);
    v.push(0x7f);
    proof {
        assert(v@ =~= challenge_args_bytes());
    }
    v
}

/// How the challenge fetch ended, as the driver reports it.
pub enum ChallengeEvent {
    /// The call succeeded and its payload decoded into a challenge.
    Fetched(Challenge),
    /// The call failed in transport.
    TransportFailed,
    /// The payload did not decode as a challenge.
    DecodeFailed,
}

/// On the challenge fetch's outcome: a fetched challenge has its image
/// decoded (handed back for external viewing) and the workflow waits for
/// the solution; transport and decode failures are fatal.
pub fn on_challenge_event(s: RegistrationState, ev: ChallengeEvent) -> (r: (
    RegistrationState,
    Option<Vec<u8>>,
))
    requires
        s is NeedChallenge,
    ensures
        ev matches ChallengeEvent::Fetched(c) ==> {
            &&& (base64_decoding(c.png_base64@) matches Some(image) ==> {
                &&& r.0 matches RegistrationState::AwaitingSolution { challenge_key }
                    && challenge_key@ == c.challenge_key@
                &&& r.1 matches Some(v) && v@ == image
            })
            &&& (base64_decoding(c.png_base64@) is None ==> r.0 == (RegistrationState::Failed {
                error: RegistrationError::Decode,
            }) && r.1 is None)
        },
        ev is TransportFailed ==> r.0 == (RegistrationState::Failed {
            error: RegistrationError::Transport,
        }) && r.1 is None,
        ev is DecodeFailed ==> r.0 == (RegistrationState::Failed {
            error: RegistrationError::Decode,
        }) && r.1 is None,
{
    match ev {
        ChallengeEvent::Fetched(c) => {
            match base64_decode(c.png_base64.as_str()) {
                Some(image) => (
                    RegistrationState::AwaitingSolution { challenge_key: c.challenge_key },
                    Some(image),
                ),
                None => (RegistrationState::Failed { error: RegistrationError::Decode }, None),
            }
        },
        ChallengeEvent::TransportFailed => (
            RegistrationState::Failed { error: RegistrationError::Transport },
            None,
        ),
        ChallengeEvent::DecodeFailed => (
            RegistrationState::Failed { error: RegistrationError::Decode },
            None,
        ),
    }
}

/// The fixed default attributes of the device descriptor: the identity's
/// public key under the default alias, no credential id, authentication
/// purpose, unknown key type, unprotected.
pub fn default_device(device_public_key: Vec<u8>) -> (d: DeviceData)
    ensures
        d.pubkey@ == device_public_key@,
        d.alias@ == "test key"@,
        d.credential_id is None,
        d.purpose is Authentication,
        d.key_type is Unknown,
        d.protection is Unprotected,
{
    DeviceData {
        pubkey: device_public_key,
        alias: "test key".to_string(),
        credential_id: None,
        purpose: Purpose::Authentication,
        key_type: KeyType::Unknown,
        protection: DeviceProtection::Unprotected,
    }
}

/// On the external solution: build the submission from the solved
/// characters, the challenge's key, and the device descriptor with its
/// fixed defaults.
pub fn on_solution(s: RegistrationState, solution: String, device_public_key: Vec<u8>) -> (next:
    RegistrationState)
    requires
        s is AwaitingSolution,
    ensures
        next matches RegistrationState::Submitting { device, attempt } && {
            &&& device.pubkey@ == device_public_key@
            &&& device.alias@ == "test key"@
            &&& device.credential_id is None
            &&& device.purpose is Authentication
            &&& device.key_type is Unknown
            &&& device.protection is Unprotected
            &&& attempt.chars@ == solution@
            &&& attempt.key@ == s->challenge_key@
        },
{
    match s {
        RegistrationState::AwaitingSolution { challenge_key } => {
            RegistrationState::Submitting {
                device: default_device(device_public_key),
                attempt: ChallengeAttempt { chars: solution, key: challenge_key },
            }
        },
        _ => RegistrationState::Failed { error: RegistrationError::Decode },
    }
}

/// How the registration submission ended, as the driver reports it.
pub enum RegisterEvent {
    /// The call succeeded and its payload decoded into a tagged reply.
    Response(RegisterResponse),
    /// The call failed in transport.
    TransportFailed,
    /// The payload did not decode as a registration reply.
    DecodeFailed,
}

/// On the submission's outcome.  A granted registration is Done and its
/// identifier must be persisted (second component); every other outcome
/// is fatal — the challenge is single-use, so nothing is retried.
pub fn on_register_event(s: RegistrationState, ev: RegisterEvent) -> (r: (
    RegistrationState,
    Option<u64>,
))
    requires
        s is Submitting,
    ensures
        ev matches RegisterEvent::Response(RegisterResponse::Registered { user_number }) ==> r.0
            == (RegistrationState::Done { user_number }) && r.1 == Some(user_number),
        ev matches RegisterEvent::Response(resp) && resp is CanisterFull ==> r.0
            == (RegistrationState::Failed { error: RegistrationError::CanisterFull }) && r.1
            is None,
        ev matches RegisterEvent::Response(resp) && resp is BadChallenge ==> r.0
            == (RegistrationState::Failed { error: RegistrationError::BadChallenge }) && r.1
            is None,
        ev is TransportFailed ==> r.0 == (RegistrationState::Failed {
            error: RegistrationError::Transport,
        }) && r.1 is None,
        ev is DecodeFailed ==> r.0 == (RegistrationState::Failed {
            error: RegistrationError::Decode,
        }) && r.1 is None,
{
    match ev {
        RegisterEvent::Response(RegisterResponse::Registered { user_number }) => (
            RegistrationState::Done { user_number },
            Some(user_number),
        ),
        RegisterEvent::Response(RegisterResponse::CanisterFull) => (
            RegistrationState::Failed { error: RegistrationError::CanisterFull },
            None,
        ),
        RegisterEvent::Response(RegisterResponse::BadChallenge) => (
            RegistrationState::Failed { error: RegistrationError::BadChallenge },
            None,
        ),
        RegisterEvent::TransportFailed => (
            RegistrationState::Failed { error: RegistrationError::Transport },
            None,
        ),
        RegisterEvent::DecodeFailed => (
            RegistrationState::Failed { error: RegistrationError::Decode },
            None,
        ),
    }
}

} // verus!
