//! The tool vocabulary of the model: which tools exist, which one it calls.
use vstd::prelude::*;


verus! {

/// A tool offered to the model.
#[derive(Debug)]
pub struct ToolDef {
    /// The name the model calls the tool by.
    pub name: String,
    /// What the tool is for.
    pub description: String,
    /// JSON Schema of the arguments.
    pub parameters: serde_json::Value,
}

/// A call of a tool that the model asks for.
#[derive(Debug, PartialEq, Eq)]
pub struct ToolCall {
    /// Identifies the call; its result is returned under the same id.
    pub id: String,
    /// The name of the tool.
    pub name: String,
    /// The parsed arguments (`Null` when the model's text was not JSON).
    pub arguments: serde_json::Value,
}

/// What a tool call holds.
pub struct ToolCallView {
    pub id: Seq<char>,
    pub name: Seq<char>,
    pub arguments: serde_json::Value,
}

impl View for ToolCall {
    type V = ToolCallView;

    open spec fn view(&self) -> ToolCallView {
        ToolCallView { id: self.id@, name: self.name@, arguments: self.arguments }
    }
}

impl DeepView for ToolCall {
    type V = ToolCallView;

    open spec fn deep_view(&self) -> ToolCallView {
        self@
    }
}

impl Clone for ToolDef {
    fn clone(&self) -> (copy: Self)
        ensures
            copy == *self,
    {
        ToolDef {
            name: self.name.clone(),
            description: self.description.clone(),
            parameters: self.parameters.clone(),
        }
    }
}

impl Clone for ToolCall {
    fn clone(&self) -> (copy: Self)
        ensures
            copy@ == self@,
    {
        ToolCall { id: self.id.clone(), name: self.name.clone(), arguments: self.arguments.clone() }
    }
}

/// An exact copy of a list of tool calls.
pub fn clone_tool_calls(calls: &Vec<ToolCall>) -> (copy: Vec<ToolCall>)
    ensures
        copy.deep_view() == calls.deep_view(),
{
    let mut copy: Vec<ToolCall> = Vec::new();
    let mut i: usize = 0;
    while i < calls.len()
        invariant
            i <= calls.len(),
            copy.deep_view() == calls.deep_view().take(i as int),
        decreases calls.len() - i,
    {
        let ghost before = copy.deep_view();
        let item = calls[i].clone();
        assert(item.deep_view() == calls.deep_view()[i as int]);
        copy.push(item);
        assert(copy.deep_view() =~= before.push(item.deep_view()));
        assert(copy.deep_view() =~= calls.deep_view().take(i + 1));
        i = i + 1;
    }
    assert(calls.deep_view().take(i as int) =~= calls.deep_view());
    copy
}

} // verus!
