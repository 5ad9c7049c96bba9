//! Identity of the parties to an invocation: a capability-provider
//! instance (capability id plus binding name) or an actor (its unique
//! identity string).

use vstd::prelude::*;

verus! {

/// Mathematical value of a [`WasccEntity`]: the identifying strings as
/// character sequences.
pub enum EntityModel {
    Capability { capid: Seq<char>, binding: Seq<char> },
    Actor { actor: Seq<char> },
}

/// A party to an invocation: either a specific capability-provider
/// instance under a named binding, or an actor (guest module).
///
/// Immutable once constructed; compared only structurally.
#[derive(Debug, PartialEq, Eq)]
pub enum WasccEntity {
    Capability { capid: String, binding: String },
    Actor { actor: String },
}

impl View for WasccEntity {
    type V = EntityModel;

    open spec fn view(&self) -> EntityModel {
        match self {
            WasccEntity::Capability { capid, binding } => EntityModel::Capability {
                capid: capid@,
                binding: binding@,
            },
            WasccEntity::Actor { actor } => EntityModel::Actor { actor: actor@ },
        }
    }
}

impl WasccEntity {
    /// Builds the identity of a capability-provider instance.
    ///
    /// Identifiers must be non-empty; nothing further is validated at
    /// this layer (authorization is enforced elsewhere).
    pub fn capability(capid: &str, binding: &str) -> (r: WasccEntity)
        requires
            capid@.len() > 0,
            binding@.len() > 0,
        ensures
            r@ == (EntityModel::Capability { capid: capid@, binding: binding@ }),
    {
        WasccEntity::Capability { capid: capid.to_owned(), binding: binding.to_owned() }
    }

    /// Builds the identity of an actor from its unique id string.
    ///
    /// The id must be non-empty; nothing further is validated at this
    /// layer (authorization is enforced elsewhere).
    pub fn actor(actor: &str) -> (r: WasccEntity)
        requires
            actor@.len() > 0,
        ensures
            r@ == (EntityModel::Actor { actor: actor@ }),
    {
        WasccEntity::Actor { actor: actor.to_owned() }
    }
}

} // verus!
