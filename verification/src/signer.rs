//! The host's private signing identity, behind a capability interface
//! so the dispatch core never sees key material.

use std::sync::Arc;
use vstd::prelude::*;
use wascap::prelude::KeyPair;

use crate::codec::bytes_to_vec;

verus! {

/// The host's private signing identity.
///
/// The private material itself stays behind this interface: callers
/// hand in the bytes to cover and receive only the proof value, so no
/// key material can reach an envelope's payload or error text.
pub trait Signer {
    /// The signature mapping of this identity: the proof value it
    /// produces for each byte stream.  Signing is deterministic, so
    /// the mapping is fixed for the identity's whole lifetime.
    spec fn proof_of(&self, data: Seq<u8>) -> Seq<u8>;

    /// Signs `data` with the held private identity and returns the
    /// proof value.  Must not expose the private material.
    fn sign(&self, data: &[u8]) -> (r: Vec<u8>)
        ensures
            r@ == self.proof_of(data@),
    ;
}

#[verifier::external_type_specification]
#[verifier::external_body]
pub struct ExKeyPair(KeyPair);

/// The signature function of ed25519 signing as nkeys performs it:
/// one fixed mapping from a key pair and a byte stream to the
/// signature the pair produces for that stream.  Its values are
/// unknowable here — only that the mapping is fixed is ever used.
pub closed spec fn spec_keypair_signature() -> spec_fn(Arc<KeyPair>, Seq<u8>) -> Seq<u8> {
    arbitrary()
}

/// A signing identity backed by the host's ed25519 key pair.
///
/// The one constructor, [`HostKeySigner::new`], probes the pair once:
/// a pair that cannot sign (it carries only a public key) is rejected
/// there, so inability to sign is a construction-time fault and never
/// a per-dispatch one.  The field stays private: every value of this
/// type witnesses a successful probe.
pub struct HostKeySigner {
    kp: Arc<KeyPair>,
}

/// Relies on nkeys::KeyPair::sign (re-exported by wascap): it returns
/// Ok exactly when the pair holds its private signing key, and the key
/// is never dropped after construction, so a pair that passed this
/// probe signs every later stream too.  This is the only place a
/// [`HostKeySigner`] is built.
#[verifier::external_body]
fn probe_keypair(kp: Arc<KeyPair>) -> (r: Result<HostKeySigner, String>)
    ensures
        (r matches Ok(s) ==> s.spec_key() == kp),
{
    match kp.sign(&[]) {
        Ok(_) => Ok(HostKeySigner { kp }),
        Err(e) => Err(e.to_string()),
    }
}

/// Relies on nkeys::KeyPair::sign (re-exported by wascap): for a pair
/// that holds its private signing key — which every [`HostKeySigner`]
/// witnesses, having passed the probe — it returns the 64-byte ed25519
/// signature of `data` without error, deterministic in the pair and
/// the data ([`spec_keypair_signature`]).
#[verifier::external_body]
fn keypair_sign(s: &HostKeySigner, data: &[u8]) -> (r: Vec<u8>)
    ensures
        r@ == (spec_keypair_signature())(s.spec_key(), data@),
        r@.len() == 64,
{
    s.kp.sign(data).expect("the pair was probed at construction")
}

impl HostKeySigner {
    /// The key pair this signer holds.
    pub closed spec fn spec_key(&self) -> Arc<KeyPair> {
        self.kp
    }

    /// Wraps a key pair after checking it can sign; a pair that holds
    /// only a public key is rejected here, with the fault text.  On
    /// success the signer holds exactly the probed pair.
    pub fn new(kp: Arc<KeyPair>) -> (r: Result<HostKeySigner, String>)
        ensures
            (r matches Ok(s) ==> s.spec_key() == kp),
    {
        probe_keypair(kp)
    }
}

impl Signer for HostKeySigner {
    /// The held pair's signature function; its values stay hidden with
    /// the key, only their determinism is visible.
    closed spec fn proof_of(&self, data: Seq<u8>) -> Seq<u8> {
        (spec_keypair_signature())(self.spec_key(), data)
    }

    fn sign(&self, data: &[u8]) -> Vec<u8> {
        keypair_sign(self, data)
    }
}

/// A signing identity that returns a fixed proof value, for exercising
/// the dispatch path without real key material.
pub struct StaticSigner {
    /// The value every [`Signer::sign`] call returns.
    pub sig: Vec<u8>,
}

impl StaticSigner {
    /// Wraps the fixed proof value.
    pub fn new(sig: Vec<u8>) -> (r: StaticSigner)
        ensures
            r.sig@ == sig@,
    {
        StaticSigner { sig }
    }
}

impl Signer for StaticSigner {
    /// Whatever the data, the fixed value.
    open spec fn proof_of(&self, data: Seq<u8>) -> Seq<u8> {
        self.sig@
    }

    fn sign(&self, data: &[u8]) -> Vec<u8> {
        bytes_to_vec(self.sig.as_slice())
    }
}

} // verus!
