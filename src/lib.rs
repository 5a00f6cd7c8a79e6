//! Deterministic deployment of contracts through a Universal Deployer Contract:
//! address derivation, vanity salt search, fee resolution and the deployment
//! workflow as a state machine driven by its caller.

pub mod felt;
pub mod address;
pub mod text;
pub mod search;
pub mod fee;
pub mod workflow;
pub mod deploy;
