//! Address discovery and hole punching for peers behind NATs.
//!
//! The library holds the logic that decides: address masking and
//! classification, the candidate endpoint list of a mapped socket, the
//! rendezvous payload and the reflection protocol's wire formats, and the
//! UDP and TCP punching state machines. Sockets and gateways are driven by
//! the caller, who hands the outcomes to the functions here.

pub mod addr;
pub mod wire;
pub mod netmask;
pub mod subnet;
pub mod endpoints;
pub mod mapping;
pub mod rendezvous;
pub mod reflection;
pub mod punch;
