//! The repeating two-phase delegation exchange.  Phase one (prepare) is a
//! state-mutating call that yields a derived public key and a server
//! timestamp; phase two (fetch) is a cheap read that must be issued with
//! exactly that timestamp for the same (user, audience, public key)
//! triple.  The workflow is a state machine; the surrounding binary
//! performs the calls and feeds their outcomes back in.

use vstd::prelude::*;

verus! {

use crate::driver::IterationOutcome;

/// The tuple that initiates phase one.
pub struct DelegationRequest {
    pub user_id: u64,
    pub audience: String,
    pub public_key: Vec<u8>,
    /// The optional expiration hint: always left unset here, so the
    /// platform picks the default expiry.
    pub expiration: Option<u64>,
}

/// The correlation token returned by phase one: it must be passed
/// unchanged into phase two.
pub struct DelegationHandle {
    pub derived_public_key: Vec<u8>,
    pub timestamp: u64,
}

/// A delegation record as phase two returns it.
pub struct Delegation {
    pub pubkey: Vec<u8>,
    pub expiration: u64,
    pub targets: Option<Vec<Vec<u8>>>,
}

/// The final artifact of a successful phase two.
pub struct SignedDelegationCustom {
    pub delegation: Delegation,
    pub signature: Vec<u8>,
}

/// The platform's tagged reply to phase two.
pub enum GetDelegationResponse {
    SignedDelegation(SignedDelegationCustom),
    NoSuchDelegation,
}

/// The states of one delegation iteration.
pub enum DelegationState {
    /// Phase one must be issued with the request's tuple.
    Preparing { request: DelegationRequest },
    /// Phase two must be issued with the request's tuple and the handle's
    /// timestamp.
    Fetching { request: DelegationRequest, handle: DelegationHandle },
    /// Phase two returned a signed delegation.
    Succeeded { delegation: SignedDelegationCustom },
    /// A transient transport failure: the caller retries the iteration.
    RetryIteration,
    /// A protocol violation or a payload that did not decode: the caller
    /// must abort loudly.
    Fatal,
}

pub open spec fn spec_create_delegation(
    user_id: u64,
    audience: String,
    public_key: Vec<u8>,
) -> DelegationState {
    DelegationState::Preparing {
        request: DelegationRequest { user_id, audience, public_key, expiration: None },
    }
}

/// Begins the exchange for one iteration: the workflow starts in
/// Preparing, holding exactly the given request tuple, with the
/// expiration hint unset.
pub fn create_delegation(user_id: u64, audience: String, public_key: Vec<u8>) -> (s:
    DelegationState)
    ensures
        s == spec_create_delegation(user_id, audience, public_key),
{
    DelegationState::Preparing {
        request: DelegationRequest { user_id, audience, public_key, expiration: None },
    }
}

/// What the phase-one argument payload is for a given request tuple;
/// what candid's argument encoder returns for (user identifier, audience,
/// requester public key, expiration hint).
pub uninterp spec fn prepare_args_encoding(
    user_id: u64,
    audience: Seq<char>,
    public_key: Seq<u8>,
    expiration: Option<u64>,
) -> Option<Seq<u8>>;

/// Relies on candid's `encode_args`: the encoding of the four prepare
/// arguments is a function of those values alone.
#[verifier::external_body]
fn encode_prepare_args(
    user_id: u64,
    audience: &String,
    public_key: &Vec<u8>,
    expiration: Option<u64>,
) -> (r: Option<Vec<u8>>)
    ensures
        r matches Some(v) ==> prepare_args_encoding(user_id, audience@, public_key@, expiration)
            == Some(v@),
        r is None ==> prepare_args_encoding(user_id, audience@, public_key@, expiration) is None,
{
    candid::utils::encode_args(
        (user_id, audience.clone(), serde_bytes::ByteBuf::from(public_key.clone()), expiration),
    ).ok()
}

/// What the phase-two argument payload is for a given request tuple and
/// timestamp; what candid's argument encoder returns for (user
/// identifier, audience, requester public key, timestamp).
pub uninterp spec fn get_delegation_args_encoding(
    user_id: u64,
    audience: Seq<char>,
    public_key: Seq<u8>,
    timestamp: u64,
) -> Option<Seq<u8>>;

/// Relies on candid's `encode_args`: the encoding of the four fetch
/// arguments is a function of those values alone.
#[verifier::external_body]
fn encode_get_delegation_args(
    user_id: u64,
    audience: &String,
    public_key: &Vec<u8>,
    timestamp: u64,
) -> (r: Option<Vec<u8>>)
    ensures
        r matches Some(v) ==> get_delegation_args_encoding(
            user_id,
            audience@,
            public_key@,
            timestamp,
        ) == Some(v@),
        r is None ==> get_delegation_args_encoding(user_id, audience@, public_key@, timestamp)
            is None,
{
    candid::utils::encode_args(
        (user_id, audience.clone(), serde_bytes::ByteBuf::from(public_key.clone()), timestamp),
    ).ok()
}

/// What a completed decode of phase one's reply holds: the derived
/// public key and the server timestamp.  Only a completed parse is
/// named — candid's decoder also rejects when the calling thread is
/// nearly out of stack, so nothing is stated of a rejection.
pub uninterp spec fn prepare_response_decoding(bytes: Seq<u8>) -> Option<(Seq<u8>, u64)>;

/// Relies on candid's `decode_args_with_config` under fixed decoding and
/// skipping quotas, which bound the decoder's work by the payload bytes
/// and dwarf any legitimate reply (a derived public key of a few hundred
/// bytes and a timestamp cost a few hundred).  A completed parse is
/// deterministic, so a returned pair is the named decoding of the bytes.
/// A rejection is not pinned: besides malformed bytes and the quotas,
/// the decoder errors whenever under 32 KiB of stack remain on the
/// calling thread, which no function of the bytes can capture.
#[verifier::external_body]
fn decode_prepare_response(data: &Vec<u8>) -> (r: Option<(Vec<u8>, u64)>)
    ensures
        r matches Some(p) ==> prepare_response_decoding(data@) == Some((p.0@, p.1)),
{
    let mut config = candid::DecoderConfig::new();
    config.set_decoding_quota(10000);
    config.set_skipping_quota(1000);
    match candid::utils::decode_args_with_config::<(serde_bytes::ByteBuf, u64)>(
        data.as_slice(),
        &config,
    ) {
        Ok((key, timestamp)) => Some((key.into_vec(), timestamp)),
        Err(_) => None,
    }
}

/// What the phase-one payload is for a state that is Preparing.
pub open spec fn spec_prepare_encoding(s: DelegationState) -> Option<Seq<u8>>
    recommends
        s is Preparing,
{
    match s {
        DelegationState::Preparing { request } => prepare_args_encoding(
            request.user_id,
            request.audience@,
            request.public_key@,
            request.expiration,
        ),
        _ => None,
    }
}

/// The argument payload phase one must be issued with.
pub fn prepare_payload(s: &DelegationState) -> (r: Option<Vec<u8>>)
    requires
        s is Preparing,
    ensures
        r matches Some(v) ==> spec_prepare_encoding(*s) == Some(v@),
        r is None ==> spec_prepare_encoding(*s) is None,
{
    match s {
        DelegationState::Preparing { request } => encode_prepare_args(
            request.user_id,
            &request.audience,
            &request.public_key,
            request.expiration,
        ),
        _ => None,
    }
}

/// What the phase-two payload is for a state that is Fetching: the
/// request's own tuple with exactly the handle's timestamp.
pub open spec fn spec_fetch_encoding(s: DelegationState) -> Option<Seq<u8>>
    recommends
        s is Fetching,
{
    match s {
        DelegationState::Fetching { request, handle } => get_delegation_args_encoding(
            request.user_id,
            request.audience@,
            request.public_key@,
            handle.timestamp,
        ),
        _ => None,
    }
}

/// The argument payload phase two must be issued with.
pub fn fetch_payload(s: &DelegationState) -> (r: Option<Vec<u8>>)
    requires
        s is Fetching,
    ensures
        r matches Some(v) ==> spec_fetch_encoding(*s) == Some(v@),
        r is None ==> spec_fetch_encoding(*s) is None,
{
    match s {
        DelegationState::Fetching { request, handle } => encode_get_delegation_args(
            request.user_id,
            &request.audience,
            &request.public_key,
            handle.timestamp,
        ),
        _ => None,
    }
}

/// How phase one ended, as the driver reports it.
pub enum PrepareEvent {
    /// The call succeeded and its payload decoded into the handle.
    Completed { derived_public_key: Vec<u8>, timestamp: u64 },
    /// The call failed in transport or finalization: transient, the
    /// iteration is retried.
    TransportFailed,
    /// The payload did not decode: fatal.
    DecodeFailed,
}

/// Decode phase one's raw reply into its event.  Whatever the decoder
/// did: a completed parse yields Completed carrying exactly the decoded
/// derived key and server timestamp, and anything else is a decode
/// failure — never a transport event.
pub fn decode_prepare_reply(data: &Vec<u8>) -> (ev: PrepareEvent)
    ensures
        ev matches PrepareEvent::Completed { derived_public_key, timestamp }
            ==> prepare_response_decoding(data@) == Some((derived_public_key@, timestamp)),
        !(ev is TransportFailed),
{
    match decode_prepare_response(data) {
        Some((derived_public_key, timestamp)) => PrepareEvent::Completed {
            derived_public_key,
            timestamp,
        },
        None => PrepareEvent::DecodeFailed,
    }
}

pub open spec fn spec_on_prepare_event(s: DelegationState, ev: PrepareEvent) -> DelegationState {
    match ev {
        PrepareEvent::Completed { derived_public_key, timestamp } => match s {
            DelegationState::Preparing { request } => DelegationState::Fetching {
                request,
                handle: DelegationHandle { derived_public_key, timestamp },
            },
            _ => s,
        },
        PrepareEvent::TransportFailed => DelegationState::RetryIteration,
        PrepareEvent::DecodeFailed => DelegationState::Fatal,
    }
}

/// On phase one's outcome: completion moves to Fetching, carrying the
/// request unchanged and the handle exactly as returned; a transport
/// failure retries the iteration; a decode failure is fatal.
pub fn on_prepare_event(s: DelegationState, ev: PrepareEvent) -> (next: DelegationState)
    requires
        s is Preparing,
    ensures
        next == spec_on_prepare_event(s, ev),
{
    match ev {
        PrepareEvent::Completed { derived_public_key, timestamp } => match s {
            DelegationState::Preparing { request } => DelegationState::Fetching {
                request,
                handle: DelegationHandle { derived_public_key, timestamp },
            },
            other => other,
        },
        PrepareEvent::TransportFailed => DelegationState::RetryIteration,
        PrepareEvent::DecodeFailed => DelegationState::Fatal,
    }
}

/// How phase two ended, as the driver reports it.
pub enum FetchEvent {
    /// The call succeeded and its payload decoded into the tagged reply.
    Response(GetDelegationResponse),
    /// The call failed in transport: transient, the iteration is retried.
    TransportFailed,
    /// The payload did not decode: fatal.
    DecodeFailed,
}

pub open spec fn spec_on_fetch_event(s: DelegationState, ev: FetchEvent) -> DelegationState {
    match ev {
        FetchEvent::Response(resp) => match resp {
            GetDelegationResponse::SignedDelegation(delegation) => DelegationState::Succeeded {
                delegation,
            },
            GetDelegationResponse::NoSuchDelegation => DelegationState::Fatal,
        },
        FetchEvent::TransportFailed => DelegationState::RetryIteration,
        FetchEvent::DecodeFailed => DelegationState::Fatal,
    }
}

/// On phase two's outcome: a signed delegation succeeds; a
/// no-such-delegation reply signals a correlation defect and is fatal; a
/// transport failure retries the iteration; a decode failure is fatal.
pub fn on_fetch_event(s: DelegationState, ev: FetchEvent) -> (next: DelegationState)
    requires
        s is Fetching,
    ensures
        next == spec_on_fetch_event(s, ev),
{
    match ev {
        FetchEvent::Response(resp) => match resp {
            GetDelegationResponse::SignedDelegation(delegation) => DelegationState::Succeeded {
                delegation,
            },
            GetDelegationResponse::NoSuchDelegation => DelegationState::Fatal,
        },
        FetchEvent::TransportFailed => DelegationState::RetryIteration,
        FetchEvent::DecodeFailed => DelegationState::Fatal,
    }
}

/// How a finished iteration reports itself to the benchmark driver.
pub fn iteration_outcome(s: &DelegationState, elapsed_ms: u64) -> (o:
    IterationOutcome)
    requires
        !(s is Preparing),
        !(s is Fetching),
    ensures
        s is Succeeded ==> o == (IterationOutcome::Success { elapsed_ms }),
        s is RetryIteration ==> o is RetryableFailure,
        s is Fatal ==> o is FatalFailure,
{
    match s {
        DelegationState::Succeeded { .. } => IterationOutcome::Success {
            elapsed_ms,
        },
        DelegationState::RetryIteration => IterationOutcome::RetryableFailure,
        _ => IterationOutcome::FatalFailure,
    }
}

/// Correlation invariant, first half: for any (user, audience, public
/// key) triple, once phase one completes with timestamp `t`, the
/// workflow's phase-two payload is the fetch encoding of that same
/// triple with exactly `t` — never any other timestamp.
pub proof fn lemma_correlation(
    user_id: u64,
    audience: String,
    public_key: Vec<u8>,
    derived_public_key: Vec<u8>,
    timestamp: u64,
)
    ensures
        ({
            let fetching = spec_on_prepare_event(
                spec_create_delegation(user_id, audience, public_key),
                PrepareEvent::Completed { derived_public_key, timestamp },
            );
            &&& fetching is Fetching
            &&& spec_fetch_encoding(fetching) == get_delegation_args_encoding(
                user_id,
                audience@,
                public_key@,
                timestamp,
            )
        }),
{
}

/// Correlation invariant, second half: a no-such-delegation reply — the
/// platform's answer to a stale or mismatched timestamp — leaves the
/// workflow Fatal, never a silent success or a retry.
pub proof fn lemma_mismatch_is_fatal(s: DelegationState)
    requires
        s is Fetching,
    ensures
        spec_on_fetch_event(
            s,
            FetchEvent::Response(GetDelegationResponse::NoSuchDelegation),
        ) is Fatal,
{
}

} // verus!
