//! A verified core for a ReAct-style agent orchestrator: the action-protocol
//! parser, tool registry, prompt renderer, schema builder, conversation
//! history, and the bounded-iteration loop controller.
//!
//! The completion endpoint and the concrete tool capabilities are outside
//! collaborators: callers perform those calls and hand their results back to
//! the controller as plain values.
pub mod agent;
pub mod error;
pub mod tools;
