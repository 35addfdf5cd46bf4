//! Verified orchestration core for an emulated multi-implementation
//! payment-channel network.
//!
//! The crate covers the deterministic heart of the simulator: the identifier
//! scheme for node names, the topology generator that produces the ordered
//! connect / fund / open-channel / activity / event instruction sequences for
//! a scenario, the lifecycle state machine that drives those instructions
//! through the external network-simulation core with a fail-fast discipline,
//! and the shutdown coordinator that tears everything down best-effort.
//! The external core itself (process supervision, RPC, the payment engine)
//! is driven by an unverified front end that performs each requested call and
//! feeds its outcome back into the state machines defined here.

pub mod generator;
pub mod names;
pub mod orchestrator;
pub mod scenarios;
pub mod shutdown;
pub mod topology;
