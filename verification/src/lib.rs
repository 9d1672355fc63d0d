//! Orchestration core for a process that hosts two independent long-running
//! duties: a primary outbound streaming client (opaque to this crate, owned by
//! external collaborators) and an inbound liveness responder that answers every
//! connection with one fixed response.
//!
//! The crate holds the decision logic only: how startup is sequenced and
//! short-circuited, which fixed response every connection is owed, how the
//! single-fire shutdown signal behaves, and how the process outcome follows
//! from the two duties' outcomes under each completion policy. The host binary
//! performs the outside work (sockets, threads, the collaborator calls) and
//! feeds the resulting events back into the orchestrator.

pub mod orchestrator;
pub mod outcome;
pub mod responder;
pub mod shutdown;
