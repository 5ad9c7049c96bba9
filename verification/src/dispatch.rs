//! The dispatcher: builds the signed envelope, resolves the routing
//! subject, performs one synchronous exchange through the transport,
//! and normalizes the outcome into reply bytes or one of the two error
//! kinds.

use std::sync::Arc;
use vstd::prelude::*;
use vstd::string::StringExecFns;

use crate::address::{actor_subject, spec_actor_subject};
use crate::codec::spec_claims_bytes;
use crate::entity::{EntityModel, WasccEntity};
use crate::envelope::{Invocation, InvocationModel, InvocationResponse};
use crate::errors::{DispatchError, DispatchErrorModel, TransportError};
use crate::signer::Signer;
use crate::transport::{outcome_model, OutcomeModel, Transport};

verus! {

/// The text an actor-reported failure is wrapped in, so callers and
/// logs can tell "the actor rejected the call" from "the call never
/// arrived".
pub open spec fn spec_failure_message(e: Seq<char>) -> Seq<char> {
    "Invocation failure: "@ + e
}

/// How one transport outcome becomes the dispatch result: a transport
/// fault is wrapped as a transport error; a delivered reply that
/// carries an actor-reported failure becomes an application error
/// holding that text; a clean reply yields its bytes.
pub open spec fn spec_normalize(out: OutcomeModel) -> Result<Seq<u8>, DispatchErrorModel> {
    match out {
        Err(e) => Err(DispatchErrorModel::Transport { reason: e }),
        Ok(resp) => match resp.error {
            Some(e) => Err(
                DispatchErrorModel::Application { message: spec_failure_message(e) },
            ),
            None => Ok(resp.msg),
        },
    }
}

/// Maps a concrete dispatch result to its mathematical value.
pub open spec fn dispatch_result_model(r: Result<Vec<u8>, DispatchError>) -> Result<
    Seq<u8>,
    DispatchErrorModel,
> {
    match r {
        Ok(msg) => Ok(msg@),
        Err(e) => Err(e@),
    }
}

/// Normalizes one transport outcome exactly as [`spec_normalize`]
/// says, for every possible outcome.
pub fn normalize_response(resp: Result<InvocationResponse, TransportError>) -> (r: Result<
    Vec<u8>,
    DispatchError,
>)
    ensures
        dispatch_result_model(r) == spec_normalize(outcome_model(resp)),
{
    match resp {
        Ok(response) => match response.error {
            Some(e) => {
                let mut message = String::from_str("Invocation failure: ");
                message.append(e.as_str());
                Err(DispatchError::Application(message))
            },
            None => Ok(response.msg),
        },
        Err(e) => Err(DispatchError::Transport(e)),
    }
}

/// A dispatcher given to one capability provider, letting it send
/// operations to actors and await replies.  Strictly one-directional:
/// provider to actor.
///
/// Holds a fixed `(capability id, binding)` identity plus shared,
/// read-only handles to the signing identity and the bus; nothing in it
/// mutates after construction, so one instance can serve any number of
/// concurrent callers.
#[derive(Clone)]
pub struct WasccNativeDispatcher<S: Signer, T: Transport> {
    /// Shared read-only handle to the message bus.
    pub bus: Arc<T>,
    /// The capability id this dispatcher speaks for.
    pub capid: String,
    /// The binding configuration name it was instantiated under.
    pub binding: String,
    /// Shared read-only handle to the host's signing identity.
    pub hk: Arc<S>,
}

impl<S: Signer, T: Transport> WasccNativeDispatcher<S, T> {
    /// A dispatcher is well formed when its fixed identity strings are
    /// non-empty.
    pub open spec fn wf(&self) -> bool {
        self.capid@.len() > 0 && self.binding@.len() > 0
    }

    /// The origin identity every envelope from this dispatcher
    /// carries.
    pub open spec fn origin_model(&self) -> EntityModel {
        EntityModel::Capability { capid: self.capid@, binding: self.binding@ }
    }

    /// Builds a dispatcher around the host's signing identity, a bus
    /// handle, and its fixed `(capability id, binding)` pair.
    pub fn new(hk: Arc<S>, bus: Arc<T>, capid: &str, binding: &str) -> (r: Self)
        requires
            capid@.len() > 0,
            binding@.len() > 0,
        ensures
            r.wf(),
            r.capid@ == capid@,
            r.binding@ == binding@,
            r.bus == bus,
            r.hk == hk,
    {
        WasccNativeDispatcher { bus, capid: capid.to_owned(), binding: binding.to_owned(), hk }
    }

    /// Sends `op` with payload `msg` to the actor `actor` and blocks
    /// for the reply.
    ///
    /// The envelope handed to the transport carries this dispatcher's
    /// fixed origin, the addressed actor as target, the operation and
    /// payload exactly as given, and the signer's proof over those
    /// four covered fields — only the fresh correlation id varies —
    /// and it goes out on the subject derived from `actor` alone.  The
    /// result is the transport's answer to exactly that exchange,
    /// normalized as [`spec_normalize`] says.
    pub fn dispatch(&self, actor: &str, op: &str, msg: &[u8]) -> (r: Result<Vec<u8>, DispatchError>)
        requires
            self.wf(),
            actor@.len() > 0,
        ensures
            exists|id: Seq<char>, out: OutcomeModel|
                self.bus.admits(
                    spec_actor_subject(actor@),
                    (InvocationModel {
                        id,
                        origin: self.origin_model(),
                        target: EntityModel::Actor { actor: actor@ },
                        operation: op@,
                        msg: msg@,
                        authenticity_proof: self.hk.proof_of(
                            spec_claims_bytes(
                                self.origin_model(),
                                EntityModel::Actor { actor: actor@ },
                                op@,
                                msg@,
                            ),
                        ),
                    }),
                    out,
                ) && dispatch_result_model(r) == spec_normalize(out),
    {
        let origin = WasccEntity::capability(self.capid.as_str(), self.binding.as_str());
        let target = WasccEntity::actor(actor);
        let inv = Invocation::new(&*self.hk, origin, target, op, crate::codec::bytes_to_vec(msg));
        let subject = actor_subject(actor);
        let resp = self.bus.invoke(&subject, &inv);
        let ghost observed = outcome_model(resp);
        let r = normalize_response(resp);
        proof {
            assert(self.bus.admits(spec_actor_subject(actor@), inv@, observed));
            assert(dispatch_result_model(r) == spec_normalize(observed));
        }
        r
    }
}

} // verus!
