//! Fixed configuration: the remote endpoint, the call targets, the
//! display bound of the progress indicator, and the names and kinds of
//! the remote methods the two workloads invoke.  No flags exist; these
//! are the design's fixed values.

use vstd::prelude::*;

verus! {

/// Display bound of the progress indicator; never terminates the loop.
pub const NUMBER_OF_REQUESTS: u64 = 100000;

/// The recognized options: base endpoint, target principal text, display
/// bound, and whether the secondary transport version is used.
pub struct Config {
    pub endpoint: String,
    pub target_id: String,
    pub request_count: u64,
    pub use_secondary_transport_version: bool,
}

/// The target of the single-call workload: the counter canister.
pub fn single_call_config() -> (c: Config)
    ensures
        c.endpoint@ == "https://testic0.app"@,
        c.target_id@ == "3muos-6yaaa-aaaaa-qaaua-cai"@,
        c.request_count == NUMBER_OF_REQUESTS,
        !c.use_secondary_transport_version,
{
    Config {
        endpoint: "https://testic0.app".to_string(),
        target_id: "3muos-6yaaa-aaaaa-qaaua-cai".to_string(),
        request_count: NUMBER_OF_REQUESTS,
        use_secondary_transport_version: false,
    }
}

/// The target of the delegation workload: the identity canister.
pub fn delegation_config() -> (c: Config)
    ensures
        c.endpoint@ == "https://testic0.app"@,
        c.target_id@ == "rdmx6-jaaaa-aaaaa-aaadq-cai"@,
        c.request_count == NUMBER_OF_REQUESTS,
        !c.use_secondary_transport_version,
{
    Config {
        endpoint: "https://testic0.app".to_string(),
        target_id: "rdmx6-jaaaa-aaaaa-aaadq-cai".to_string(),
        request_count: NUMBER_OF_REQUESTS,
        use_secondary_transport_version: false,
    }
}

impl Default for Config {
    /// The default workload is the single-call benchmark.
    fn default() -> (c: Config)
        ensures
            c.endpoint@ == "https://testic0.app"@,
            c.target_id@ == "3muos-6yaaa-aaaaa-qaaua-cai"@,
            c.request_count == NUMBER_OF_REQUESTS,
            !c.use_secondary_transport_version,
    {
        single_call_config()
    }
}

/// The audience (frontend hostname) every delegation is requested for.
pub fn delegation_audience() -> (s: String)
    ensures
        s@ == "https://nns.ic0.app"@,
{
    "https://nns.ic0.app".to_string()
}

/// The remote methods the workloads invoke.
#[derive(Clone, Copy, PartialEq, Eq, Structural, Debug)]
pub enum RemoteMethod {
    /// The single-call workload's state-mutating call.
    Write,
    /// Fetches a fresh registration challenge.
    CreateChallenge,
    /// Submits a solved challenge with a device descriptor.
    Register,
    /// Phase one of the delegation exchange.
    PrepareDelegation,
    /// Phase two of the delegation exchange.
    GetDelegation,
}

impl RemoteMethod {
    pub open spec fn spec_name(self) -> Seq<char> {
        match self {
            RemoteMethod::Write => "write"@,
            RemoteMethod::CreateChallenge => "create_challenge"@,
            RemoteMethod::Register => "register"@,
            RemoteMethod::PrepareDelegation => "prepare_delegation"@,
            RemoteMethod::GetDelegation => "get_delegation"@,
        }
    }

    /// The method's wire name.
    pub fn name(&self) -> (s: String)
        ensures
            s@ == self.spec_name(),
    {
        match self {
            RemoteMethod::Write => "write".to_string(),
            RemoteMethod::CreateChallenge => "create_challenge".to_string(),
            RemoteMethod::Register => "register".to_string(),
            RemoteMethod::PrepareDelegation => "prepare_delegation".to_string(),
            RemoteMethod::GetDelegation => "get_delegation".to_string(),
        }
    }

    /// Whether the call mutates state and must wait for finalization.
    /// Only phase two of the delegation exchange is a read-only query:
    /// phase one mutates consensus-level state, so correlating the two by
    /// the phase-one timestamp spares a mutation per retrieval.
    pub fn is_state_mutating(&self) -> (b: bool)
        ensures
            b == !(*self is GetDelegation),
    {
        match self {
            RemoteMethod::GetDelegation => false,
            _ => true,
        }
    }
}

/// What principal (address) bytes a principal's text form denotes, or
/// that the text is malformed.
pub uninterp spec fn principal_of_text(s: Seq<char>) -> Option<Seq<u8>>;

/// Relies on candid's `Principal::from_text`: the parsed principal bytes
/// (or the rejection) are a function of the text alone.
#[verifier::external_body]
fn principal_from_text(s: &String) -> (r: Option<Vec<u8>>)
    ensures
        r matches Some(v) ==> principal_of_text(s@) == Some(v@),
        r is None ==> principal_of_text(s@) is None,
{
    match candid::Principal::from_text(s.as_str()) {
        Ok(p) => Some(p.as_slice().to_vec()),
        Err(_) => None,
    }
}

impl Config {
    /// The configured target's principal bytes, if its text form is
    /// well-formed; the startup check that the fixed target is valid.
    pub fn target_principal(&self) -> (r: Option<Vec<u8>>)
        ensures
            r matches Some(v) ==> principal_of_text(self.target_id@) == Some(v@),
            r is None ==> principal_of_text(self.target_id@) is None,
    {
        principal_from_text(&self.target_id)
    }
}

} // verus!
