//! Reconciles a device's wanted wifi setup (an access point of its own, client networks it
//! may join) against what a radio scan shows, one event at a time.
//!
//! - `config`: the configuration store, client networks keyed by name and one access point.
//! - `engine`: radio targets, statuses, and the choice of network from a scan.
//! - `actor`: the manager as a state machine from state and event to state and action.
//! - `behaviour`: what holds of that state machine over several steps.

pub mod actor;
pub mod behaviour;
pub mod config;
pub mod engine;
