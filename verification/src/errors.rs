//! The two error domains a dispatch can end in, kept distinguishable
//! end to end: the call never produced an answer (transport), or the
//! actor ran and explicitly reported failure (application).

use vstd::prelude::*;

verus! {

/// A failure of the message transport itself: unreachable target,
/// timeout, or a wire-level fault.  The invocation never produced an
/// application-level answer.
#[derive(Debug, PartialEq, Eq)]
pub struct TransportError {
    /// Human-readable description of the fault, as the transport
    /// reported it.
    pub reason: String,
}

impl View for TransportError {
    type V = Seq<char>;

    open spec fn view(&self) -> Seq<char> {
        self.reason@
    }
}

impl TransportError {
    /// Wraps a transport-reported fault description.
    pub fn new(reason: String) -> (r: TransportError)
        ensures
            r@ == reason@,
    {
        TransportError { reason }
    }

    /// The fault description, for logs and error messages.
    pub fn message(&self) -> (r: &String)
        ensures
            r@ == self@,
    {
        &self.reason
    }
}

/// Mathematical value of a [`DispatchError`].
pub enum DispatchErrorModel {
    Transport { reason: Seq<char> },
    Application { message: Seq<char> },
}

/// Why a dispatch failed, as a closed tagged union so callers can
/// branch on the kind instead of parsing message strings.
#[derive(Debug, PartialEq, Eq)]
pub enum DispatchError {
    /// The transport failed before the actor could answer; the
    /// underlying fault is wrapped, not discarded.
    Transport(TransportError),
    /// The actor executed and reported failure; the actor's own error
    /// text is preserved inside the message.
    Application(String),
}

impl View for DispatchError {
    type V = DispatchErrorModel;

    open spec fn view(&self) -> DispatchErrorModel {
        match self {
            DispatchError::Transport(e) => DispatchErrorModel::Transport { reason: e@ },
            DispatchError::Application(m) => DispatchErrorModel::Application { message: m@ },
        }
    }
}

impl DispatchError {
    /// One-line description of the failure, usable where the error is
    /// rendered for humans.
    pub fn message(&self) -> (r: String)
        ensures
            (self@ matches DispatchErrorModel::Transport { reason } ==> r@ == reason),
            (self@ matches DispatchErrorModel::Application { message } ==> r@ == message),
    {
        match self {
            DispatchError::Transport(e) => e.message().clone(),
            DispatchError::Application(m) => m.clone(),
        }
    }
}

} // verus!
