//! The identity store: one asymmetric signing keypair, generated at most
//! once per deployment, persisted in raw encoded form and reloaded on
//! every later run.  The store decides from the persisted material; the
//! surrounding binary reads and writes the storage location.

use vstd::prelude::*;

verus! {

/// What the public key derived from a persisted key document is, or that
/// the document is malformed; a function of the document bytes alone, so
/// the key an identity presents is stable across runs.
pub uninterp spec fn ed25519_public_key_of(pkcs8: Seq<u8>) -> Option<Seq<u8>>;

/// Relies on ring's `Ed25519KeyPair::from_pkcs8` and ic-agent's
/// `BasicIdentity::from_key_pair` / `Identity::public_key`: parsing a
/// PKCS#8 v2 document and deriving the encoded public key from it are
/// functions of the document bytes alone; a malformed document is
/// rejected.
#[verifier::external_body]
fn derive_public_key(pkcs8: &Vec<u8>) -> (r: Option<Vec<u8>>)
    ensures
        r matches Some(k) ==> ed25519_public_key_of(pkcs8@) == Some(k@),
        r is None ==> ed25519_public_key_of(pkcs8@) is None,
{
    match ring::signature::Ed25519KeyPair::from_pkcs8(pkcs8.as_slice()) {
        Ok(key_pair) => ic_agent::Identity::public_key(
            &ic_agent::identity::BasicIdentity::from_key_pair(key_pair),
        ),
        Err(_) => None,
    }
}

/// Relies on ring's `Ed25519KeyPair::generate_pkcs8` with the system
/// random source: on success it returns a PKCS#8 v2 document of a fresh
/// keypair, which `from_pkcs8` accepts; nothing else is promised of a
/// randomly generated document.
#[verifier::external_body]
fn generate_pkcs8_document() -> (r: Option<Vec<u8>>)
    ensures
        r matches Some(d) ==> ed25519_public_key_of(d@) is Some,
{
    let rng = ring::rand::SystemRandom::new();
    match ring::signature::Ed25519KeyPair::generate_pkcs8(&rng) {
        Ok(document) => Some(document.as_ref().to_vec()),
        Err(_) => None,
    }
}

/// The provisioned identity: the persisted key document and the public
/// key derived from it.
pub struct Identity {
    pub pkcs8: Vec<u8>,
    pub public_key: Vec<u8>,
}

impl Identity {
    /// The public key is exactly the one the key document derives to.
    pub open spec fn wf(self) -> bool {
        ed25519_public_key_of(self.pkcs8@) == Some(self.public_key@)
    }
}

/// What the storage location held when the run started, as the binary
/// reports it.
pub enum StoredKey {
    /// No persisted key document exists: a keypair must be generated.
    Missing,
    /// The persisted key document's bytes.
    Present(Vec<u8>),
    /// The location exists but could not be read.
    Unreadable,
}

/// Whether the store's caller still has to persist the key document.
#[derive(Clone, Copy, PartialEq, Eq, Structural, Debug)]
pub enum KeyPersistence {
    /// The document was already persisted: this run was a pure read.
    AlreadyStored,
    /// A fresh document was generated and must be persisted now.
    StoreRequired,
}

#[derive(Clone, Copy, PartialEq, Eq, Structural, Debug)]
pub enum IdentityError {
    /// The storage location is unreadable: fatal at startup.
    Storage,
    /// Persisted bytes exist but are malformed: fatal at startup.
    KeyDecode,
    /// The random source failed while generating a fresh keypair.
    KeyGeneration,
}

/// Load the persisted keypair, or generate and hand back one to persist.
/// Persisted material is never regenerated: with a present document the
/// result carries those very bytes, so the public key an identity
/// presents stays stable across runs.
pub fn load_or_create(stored: StoredKey) -> (r: Result<(Identity, KeyPersistence), IdentityError>)
    ensures
        r matches Ok(p) ==> p.0.wf(),
        stored matches StoredKey::Present(b) ==> {
            &&& (r matches Ok(p) ==> p.0.pkcs8@ == b@ && p.1 is AlreadyStored)
            &&& (r is Ok <==> ed25519_public_key_of(b@) is Some)
            &&& (r matches Err(e) ==> e is KeyDecode)
        },
        stored is Missing ==> {
            &&& (r matches Ok(p) ==> p.1 is StoreRequired)
            &&& (r matches Err(e) ==> e is KeyGeneration)
        },
        stored is Unreadable ==> (r matches Err(e) && e is Storage),
{
    match stored {
        StoredKey::Present(pkcs8) => match derive_public_key(&pkcs8) {
            Some(public_key) => Ok((Identity { pkcs8, public_key }, KeyPersistence::AlreadyStored)),
            None => Err(IdentityError::KeyDecode),
        },
        StoredKey::Missing => match generate_pkcs8_document() {
            Some(pkcs8) => match derive_public_key(&pkcs8) {
                Some(public_key) => Ok(
                    (Identity { pkcs8, public_key }, KeyPersistence::StoreRequired),
                ),
                None => Err(IdentityError::KeyGeneration),
            },
            None => Err(IdentityError::KeyGeneration),
        },
        StoredKey::Unreadable => Err(IdentityError::Storage),
    }
}

/// Key stability: two identities loaded from the same persisted document
/// present the same public key; no second generation can change it.
pub proof fn lemma_key_stability(first: Identity, second: Identity)
    requires
        first.wf(),
        second.wf(),
        first.pkcs8@ == second.pkcs8@,
    ensures
        first.public_key@ == second.public_key@,
{
}

} // verus!
