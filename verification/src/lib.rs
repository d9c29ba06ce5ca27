//! Idempotent provisioning orchestrator for a fixed cloud topology: an object
//! storage bucket, an SSH key pair, an instance role, a network, and an
//! autoscaling group of worker nodes.
//!
//! The crate holds the decision core of the workflow: deterministic resource
//! naming, the identity guard, the bounded stack poller and group lister, the
//! idempotency ledger (the plan's resource record map), and the step sequencer
//! that decides which resource to create next, in order, skipping what the
//! ledger already records.  All outside effects (network calls, sleeps,
//! persistence) are requested through `sequencer::Action` values and their
//! results handed back as `sequencer::Event` values, so every decision is
//! verified here while a thin driver performs the calls.  The workflow's
//! laws — idempotent short-circuit, the identity guard, record monotonicity,
//! deferred cancellation — are proved in `laws`.

pub mod errors;
pub mod identity;
pub mod laws;
pub mod lister;
pub mod naming;
pub mod plan;
pub mod poller;
pub mod sequencer;
pub mod strutil;
