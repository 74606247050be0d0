//! The outcome of executing a tool call.
use vstd::prelude::*;

pub use crate::message::tool::{ToolCall, ToolDef};

verus! {

/// The result of one tool call.
#[derive(Debug, Clone)]
pub struct ToolResult {
    /// The id of the call this result answers.
    pub id: String,
    /// Whether the tool ran successfully.
    pub success: bool,
    /// The tool's output, or the error it reported.
    pub output: serde_json::Value,
}

/// Why a tool call could not be executed.
#[derive(Debug, Clone, PartialEq, Eq)]
pub enum ToolExecutorError {
    /// No tool of that name is registered.
    ToolNotFound(String),
    /// The tool ran and failed.
    ExecutionError(String),
}

impl ToolExecutorError {
    /// The text of the error as a user reads it.
    pub open spec fn describe_spec(&self) -> Seq<char> {
        match self {
            ToolExecutorError::ToolNotFound(name) => "Tool not found: "@ + name@,
            ToolExecutorError::ExecutionError(message) => "Execution error: "@ + message@,
        }
    }

    /// The text of the error as a user reads it: `Tool not found: <name>` or
    /// `Execution error: <message>`.
    pub fn describe(&self) -> (text: String)
        ensures
            text@ == self.describe_spec(),
    {
        match self {
            ToolExecutorError::ToolNotFound(name) => {
                let mut text = "Tool not found: ".to_owned();
                text.append(name.as_str());
                text
            },
            ToolExecutorError::ExecutionError(message) => {
                let mut text = "Execution error: ".to_owned();
                text.append(message.as_str());
                text
            },
        }
    }
}

} // verus!
