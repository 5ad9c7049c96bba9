//! The message-transport capability the dispatcher calls through, and
//! two simple deterministic transports for exercising the dispatch
//! path end to end.

use vstd::prelude::*;
use vstd::string::StrSliceExecFns;
use vstd::utf8::encode_utf8;

use crate::codec::bytes_to_vec;
use crate::envelope::{Invocation, InvocationModel, InvocationResponse, ResponseModel};
use crate::errors::TransportError;

verus! {

/// The outcome of one transport exchange, as a mathematical value:
/// either the actor's reply or the transport's fault description.
pub type OutcomeModel = Result<ResponseModel, Seq<char>>;

/// Maps a concrete transport result to its mathematical value.
pub open spec fn outcome_model(r: Result<InvocationResponse, TransportError>) -> OutcomeModel {
    match r {
        Ok(resp) => Ok(resp@),
        Err(e) => Err(e@),
    }
}

/// The message bus the dispatcher calls through: one synchronous
/// request/reply exchange per invocation.  Timeout and retry policy
/// live entirely behind this interface.
pub trait Transport {
    /// Which outcomes this transport can answer a given exchange with.
    /// A deterministic transport pins the outcome down; a real bus
    /// admits many (any reply, any fault).
    spec fn admits(&self, subject: Seq<char>, inv: InvocationModel, outcome: OutcomeModel) -> bool;

    /// Delivers `inv` on `subject`, blocks for the reply, and returns
    /// the actor's response or the transport's own fault.  The outcome
    /// is one this transport admits for exactly this exchange.
    fn invoke(&self, subject: &String, inv: &Invocation) -> (r: Result<
        InvocationResponse,
        TransportError,
    >)
        ensures
            self.admits(subject@, inv@, outcome_model(r)),
    ;
}

/// What a [`StaticTransport`] answers every exchange with.
#[derive(Debug)]
pub enum StaticOutcome {
    /// The actor replied: these bytes, and this reported failure if
    /// any.
    Deliver { msg: Vec<u8>, error: Option<String> },
    /// The transport itself failed with this fault description.
    Fail { reason: String },
}

impl View for StaticOutcome {
    type V = OutcomeModel;

    open spec fn view(&self) -> OutcomeModel {
        match self {
            StaticOutcome::Deliver { msg, error } => Ok(
                ResponseModel {
                    msg: msg@,
                    error: match error {
                        Some(e) => Some(e@),
                        None => None,
                    },
                },
            ),
            StaticOutcome::Fail { reason } => Err(reason@),
        }
    }
}

/// A transport that answers every exchange with one fixed outcome,
/// whatever the subject and envelope.
#[derive(Debug)]
pub struct StaticTransport {
    /// The fixed answer.
    pub outcome: StaticOutcome,
}

impl StaticTransport {
    /// Builds a transport that always answers with `outcome`.
    pub fn new(outcome: StaticOutcome) -> (r: StaticTransport)
        ensures
            r.outcome@ == outcome@,
    {
        StaticTransport { outcome }
    }
}

/// Copies an optional error text.
fn dup_opt_string(o: &Option<String>) -> (r: Option<String>)
    ensures
        (match o {
            Some(s) => r matches Some(t) && t@ == s@,
            None => r is None,
        }),
{
    match o {
        Some(s) => Some(s.clone()),
        None => None,
    }
}

impl Transport for StaticTransport {
    open spec fn admits(
        &self,
        subject: Seq<char>,
        inv: InvocationModel,
        outcome: OutcomeModel,
    ) -> bool {
        outcome == self.outcome@
    }

    fn invoke(&self, subject: &String, inv: &Invocation) -> (r: Result<
        InvocationResponse,
        TransportError,
    >) {
        match &self.outcome {
            StaticOutcome::Deliver { msg, error } => Ok(
                InvocationResponse {
                    msg: bytes_to_vec(msg.as_slice()),
                    error: dup_opt_string(error),
                },
            ),
            StaticOutcome::Fail { reason } => Err(TransportError::new(reason.clone())),
        }
    }
}

/// A transport that acts as an actor echoing the operation name: every
/// exchange succeeds, and the reply bytes are the UTF-8 form of the
/// envelope's own operation field.  Two exchanges can therefore never
/// hand each other's reply back.
#[derive(Debug)]
pub struct EchoTransport {
}

impl EchoTransport {
    /// Builds the echoing transport.
    pub fn new() -> (r: EchoTransport) {
        EchoTransport {  }
    }
}

impl Transport for EchoTransport {
    open spec fn admits(
        &self,
        subject: Seq<char>,
        inv: InvocationModel,
        outcome: OutcomeModel,
    ) -> bool {
        outcome == Ok::<ResponseModel, Seq<char>>(
            ResponseModel { msg: encode_utf8(inv.operation), error: None },
        )
    }

    fn invoke(&self, subject: &String, inv: &Invocation) -> (r: Result<
        InvocationResponse,
        TransportError,
    >) {
        let msg = inv.operation.as_str().as_bytes_vec();
        Ok(InvocationResponse { msg, error: None })
    }
}

/// Every outcome the echoing transport admits for an exchange is the
/// clean reply holding that exchange's own operation field: a call can
/// only ever receive its own echo, never another call's.
pub proof fn lemma_echo_reply_is_own_operation(
    t: EchoTransport,
    subject: Seq<char>,
    inv: InvocationModel,
    out: OutcomeModel,
)
    requires
        t.admits(subject, inv, out),
    ensures
        out == Ok::<ResponseModel, Seq<char>>(
            ResponseModel { msg: encode_utf8(inv.operation), error: None },
        ),
{
}

/// Exchanges whose envelopes carry different operations get different
/// replies from the echoing transport, so concurrent calls from one
/// dispatcher cannot cross-contaminate: UTF-8 encoding is injective,
/// and each reply decodes back to its own call's operation.
pub proof fn lemma_echo_distinct_operations_distinct_replies(
    t: EchoTransport,
    s1: Seq<char>,
    s2: Seq<char>,
    inv1: InvocationModel,
    inv2: InvocationModel,
    out1: OutcomeModel,
    out2: OutcomeModel,
)
    requires
        t.admits(s1, inv1, out1),
        t.admits(s2, inv2, out2),
        inv1.operation != inv2.operation,
    ensures
        out1 != out2,
{
    if out1 == out2 {
        assert(encode_utf8(inv1.operation) == encode_utf8(inv2.operation));
        vstd::utf8::encode_utf8_decode_utf8(inv1.operation);
        vstd::utf8::encode_utf8_decode_utf8(inv2.operation);
    }
}

} // verus!
