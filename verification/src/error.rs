//! Error taxonomy of the agent core. Outside failures (HTTP, completion
//! endpoint) are mapped into these variants by the caller that performs the
//! call; nothing here carries an outside type.
use vstd::prelude::*;

verus! {

/// Ghost-level shape of an [`AgentError`], with strings as character
/// sequences, so contracts can pin error contents exactly.
pub enum AgentErrorModel {
    Generic(Seq<char>),
    Transport(Seq<char>),
    Configuration(Seq<char>),
    ToolNotFound(Seq<char>),
    ToolExecution(Seq<char>),
    IterationBudgetExceeded(int),
}

/// A terminal failure of the agent core.
#[derive(Debug, PartialEq, Eq)]
pub enum AgentError {
    /// Free-form failure text, kept for compatibility with callers that only
    /// report a message.
    Generic(String),
    /// Network or provider failure while calling the completion endpoint or a
    /// tool's backing service.
    Transport(String),
    /// A required credential or setting was missing at startup.
    Configuration(String),
    /// The model requested a tool name that was never registered.
    ToolNotFound(String),
    /// A registered tool's capability failed; carries its failure text.
    ToolExecution(String),
    /// The loop consumed its whole iteration budget; carries that budget.
    IterationBudgetExceeded(u8),
}

impl View for AgentError {
    type V = AgentErrorModel;

    open spec fn view(&self) -> AgentErrorModel {
        match self {
            AgentError::Generic(s) => AgentErrorModel::Generic(s@),
            AgentError::Transport(s) => AgentErrorModel::Transport(s@),
            AgentError::Configuration(s) => AgentErrorModel::Configuration(s@),
            AgentError::ToolNotFound(s) => AgentErrorModel::ToolNotFound(s@),
            AgentError::ToolExecution(s) => AgentErrorModel::ToolExecution(s@),
            AgentError::IterationBudgetExceeded(n) => AgentErrorModel::IterationBudgetExceeded(
                *n as int,
            ),
        }
    }
}

} // verus!
