//! Control logic for provisioning, configuring and tearing down a
//! containerized regression-test Bitcoin node.
//!
//! The library holds everything that can be decided without touching the
//! container runtime: translating a typed configuration into launch
//! arguments, normalizing a pinned image digest, matching container name
//! listings, and the lifecycle state machine that sequences the runtime
//! calls (ping, list, remove, create, pull, inspect) with their retry and
//! poll rules. A driver performs each requested [`bitcoind::Action`]
//! against the real runtime and feeds the observed [`bitcoind::Event`]
//! back into [`bitcoind::Bitcoind::step`] until the operation settles.
//!
//! The [`model`] module runs the same machine against a formal model of
//! the runtime and proves the lifecycle guarantees - idempotent `start`
//! and `stop`, digest-mismatch rejection, no container left behind - from
//! the machine's own transition contract.

pub mod bitcoind;
pub mod config;
pub mod error;
pub mod model;
pub mod text;
