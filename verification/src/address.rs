//! Routing-address scheme: the transport subject on which an actor
//! receives invocations, derived deterministically from its identity.

use vstd::prelude::*;
use vstd::string::StringExecFns;

verus! {

/// The subject an actor listens on: a fixed prefix followed by the
/// actor's id.  This is the sole routing input the transport uses.
pub open spec fn spec_actor_subject(actor: Seq<char>) -> Seq<char> {
    "wasmbus.actor."@ + actor
}

/// Resolves the transport subject for the given actor id.
///
/// Total and deterministic: every id (well-formed or not) yields a
/// syntactically valid subject, and the same id always yields the same
/// subject; a bad id surfaces later as a transport error, not here.
pub fn actor_subject(actor: &str) -> (r: String)
    ensures
        r@ == spec_actor_subject(actor@),
{
    let mut subject = String::from_str("wasmbus.actor.");
    subject.append(actor);
    subject
}

/// Distinct actor ids are routed to distinct subjects, so a reply can
/// only come from the actor that was addressed.
pub proof fn lemma_actor_subject_injective(a1: Seq<char>, a2: Seq<char>)
    requires
        a1 != a2,
    ensures
        spec_actor_subject(a1) != spec_actor_subject(a2),
{
    let p = "wasmbus.actor."@;
    if spec_actor_subject(a1) == spec_actor_subject(a2) {
        assert((p + a1).skip(p.len() as int) =~= a1);
        assert((p + a2).skip(p.len() as int) =~= a2);
        assert(a1 =~= a2);
    }
}

} // verus!
