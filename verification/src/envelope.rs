//! The invocation envelope: one signed, addressed request from a
//! capability provider to an actor, and the reply that comes back.

use vstd::prelude::*;
use vstd::string::StringExecFns;

use crate::codec::{claims_bytes, spec_claims_bytes};
use crate::entity::{EntityModel, WasccEntity};
use crate::signer::Signer;

verus! {

/// Mathematical value of an [`Invocation`].
pub struct InvocationModel {
    pub id: Seq<char>,
    pub origin: EntityModel,
    pub target: EntityModel,
    pub operation: Seq<char>,
    pub msg: Seq<u8>,
    pub authenticity_proof: Seq<u8>,
}

/// One signed request from a capability provider to an actor.
///
/// Built fresh for every dispatch and immutable afterwards; never
/// reused or mutated.
#[derive(Debug)]
pub struct Invocation {
    /// Correlation id of this one invocation.
    pub id: String,
    /// Who sent it: always a capability-provider identity here.
    pub origin: WasccEntity,
    /// Who it is for: always an actor identity here.
    pub target: WasccEntity,
    /// Logical method name understood by the target.
    pub operation: String,
    /// The request payload, opaque to the dispatch core.
    pub msg: Vec<u8>,
    /// Proof, derived from the host's private signing identity, that
    /// covers the origin, the target, the operation and the payload.
    pub authenticity_proof: Vec<u8>,
}

impl View for Invocation {
    type V = InvocationModel;

    open spec fn view(&self) -> InvocationModel {
        InvocationModel {
            id: self.id@,
            origin: self.origin@,
            target: self.target@,
            operation: self.operation@,
            msg: self.msg@,
            authenticity_proof: self.authenticity_proof@,
        }
    }
}

/// Relies on uuid::Uuid::new_v4 and its hyphenated `Display` form: a
/// freshly generated random 128-bit id, rendered as 36 characters.
#[verifier::external_body]
fn fresh_invocation_id() -> (r: String)
    ensures
        r@.len() == 36,
{
    uuid::Uuid::new_v4().to_string()
}

impl Invocation {
    /// Builds and signs one envelope.
    ///
    /// The identifying fields and the payload are carried over exactly
    /// as given; a fresh correlation id is generated; the authenticity
    /// proof is the signer's mapping applied to [`spec_claims_bytes`]
    /// of the four covered fields — which [`claims_bytes`] builds and
    /// whose injectivity codec proves — so a holder of the host's
    /// public key can check that the envelope was produced by the host
    /// and not altered.
    pub fn new<S: Signer>(
        hk: &S,
        origin: WasccEntity,
        target: WasccEntity,
        op: &str,
        msg: Vec<u8>,
    ) -> (r: Invocation)
        requires
            origin@ is Capability,
            target@ is Actor,
        ensures
            r@.origin == origin@,
            r@.target == target@,
            r@.operation == op@,
            r@.msg == msg@,
            r@.authenticity_proof == hk.proof_of(
                spec_claims_bytes(origin@, target@, op@, msg@),
            ),
            r@.id.len() == 36,
    {
        let id = fresh_invocation_id();
        let covered = claims_bytes(&origin, &target, op, msg.as_slice());
        let authenticity_proof = hk.sign(covered.as_slice());
        Invocation {
            id,
            origin,
            target,
            operation: String::from_str(op),
            msg,
            authenticity_proof,
        }
    }
}

/// Mathematical value of an [`InvocationResponse`].
pub struct ResponseModel {
    pub msg: Seq<u8>,
    pub error: Option<Seq<char>>,
}

/// The reply to one invocation: the actor's answer bytes, or the
/// failure the actor itself reported.  When `error` is present it is
/// authoritative, whatever `msg` holds.
#[derive(Debug)]
pub struct InvocationResponse {
    /// The reply payload; meaningful on success.
    pub msg: Vec<u8>,
    /// Present exactly when the actor reported an application-level
    /// failure.
    pub error: Option<String>,
}

impl View for InvocationResponse {
    type V = ResponseModel;

    open spec fn view(&self) -> ResponseModel {
        ResponseModel {
            msg: self.msg@,
            error: match &self.error {
                Some(e) => Some(e@),
                None => None,
            },
        }
    }
}

} // verus!
