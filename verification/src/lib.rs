//! Provider-to-actor dispatch core for a capability-based WebAssembly host.
//!
//! A capability provider holds a dispatcher bound to a fixed
//! `(capability id, binding)` identity.  Each dispatch builds a signed,
//! addressed invocation envelope, resolves the target actor's routing
//! subject, performs one synchronous call through the transport, and
//! normalizes the outcome into either the actor's reply bytes or one of
//! two distinguishable error kinds (transport vs. application).

pub mod address;
pub mod codec;
pub mod dispatch;
pub mod entity;
pub mod envelope;
pub mod errors;
pub mod signer;
pub mod transport;
