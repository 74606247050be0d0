//! The agent's side of tool use: results of executed calls and their errors.
pub mod tools;
