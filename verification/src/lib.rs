//! Contract-invocation workflow engine.
//!
//! Turns a request to call or instantiate an on-chain contract into a
//! safely estimated, optionally confirmed, submitted transaction. Every
//! mutating action is first simulated (dry run) to discover whether it
//! would succeed and how much weight it needs, unless the caller opts
//! out by supplying both weight components explicitly. The chain client,
//! the value transcoder and the event display are external collaborators:
//! the orchestrator here decides, step by step, which of their operations
//! to perform next and how to interpret what came back.

pub mod confirm;
pub mod errors;
pub mod estimator;
pub mod orchestrator;
pub mod outcome;
pub mod report;
pub mod request;
pub mod text;
pub mod weight;
