//! The agent core: JSON document model, schema builder, prompt renderer,
//! action-protocol parser, tool registry, conversation history, and the
//! bounded-iteration loop controller.
pub mod base;
pub mod json;
pub mod prompt;
pub mod react;
pub mod tool;
