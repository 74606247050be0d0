//! Messages the model sees, and the tool vocabulary it uses.
use vstd::prelude::*;

use crate::text::IntoText;

pub mod tool;

pub use tool::{ToolCall, ToolCallView, ToolDef};

verus! {

/// Who a message comes from.
#[derive(Debug, Clone, Copy, PartialEq, Eq, Structural)]
pub enum MessageRole {
    System,
    User,
    Assistant,
    Tool,
}

/// One message of a conversation.
#[derive(Debug, PartialEq, Eq)]
pub enum Message {
    System { content: String },
    User { content: String },
    Assistant {
        content: String,
        /// Reasoning text of reasoning models.
        reasoning_content: Option<String>,
        tool_calls: Option<Vec<ToolCall>>,
    },
    Tool { tool_call_id: String, content: String },
}

/// What a message holds.
pub enum MessageView {
    System { content: Seq<char> },
    User { content: Seq<char> },
    Assistant {
        content: Seq<char>,
        reasoning_content: Option<Seq<char>>,
        tool_calls: Option<Seq<ToolCallView>>,
    },
    Tool { tool_call_id: Seq<char>, content: Seq<char> },
}

impl MessageView {
    /// The text of the message, whatever its role.
    pub open spec fn content(self) -> Seq<char> {
        match self {
            MessageView::System { content } => content,
            MessageView::User { content } => content,
            MessageView::Assistant { content, .. } => content,
            MessageView::Tool { content, .. } => content,
        }
    }
}

/// The view of optional text.
pub open spec fn opt_text(s: Option<String>) -> Option<Seq<char>> {
    match s {
        Some(t) => Some(t@),
        None => None,
    }
}

/// The view of an optional list of tool calls.
pub open spec fn opt_calls(c: Option<Vec<ToolCall>>) -> Option<Seq<ToolCallView>> {
    match c {
        Some(v) => Some(v.deep_view()),
        None => None,
    }
}

impl View for Message {
    type V = MessageView;

    open spec fn view(&self) -> MessageView {
        match self {
            Message::System { content } => MessageView::System { content: content@ },
            Message::User { content } => MessageView::User { content: content@ },
            Message::Assistant { content, reasoning_content, tool_calls } => MessageView::Assistant {
                content: content@,
                reasoning_content: opt_text(*reasoning_content),
                tool_calls: opt_calls(*tool_calls),
            },
            Message::Tool { tool_call_id, content } => MessageView::Tool {
                tool_call_id: tool_call_id@,
                content: content@,
            },
        }
    }
}

impl DeepView for Message {
    type V = MessageView;

    open spec fn deep_view(&self) -> MessageView {
        self@
    }
}

impl Message {
    pub fn system<S: IntoText>(content: S) -> (message: Self)
        ensures
            message@ == (MessageView::System { content: content.text_view() }),
    {
        Message::System { content: content.into_text() }
    }

    pub fn user<S: IntoText>(content: S) -> (message: Self)
        ensures
            message@ == (MessageView::User { content: content.text_view() }),
    {
        Message::User { content: content.into_text() }
    }

    pub fn assistant<S: IntoText>(content: S) -> (message: Self)
        ensures
            message@ == (MessageView::Assistant {
                content: content.text_view(),
                reasoning_content: None,
                tool_calls: None,
            }),
    {
        Message::Assistant { content: content.into_text(), reasoning_content: None, tool_calls: None }
    }

    /// The text of the message.
    pub fn content(&self) -> (content: &str)
        ensures
            content@ == self@.content(),
    {
        match self {
            Message::System { content } => content.as_str(),
            Message::User { content } => content.as_str(),
            Message::Assistant { content, .. } => content.as_str(),
            Message::Tool { content, .. } => content.as_str(),
        }
    }

    /// The reasoning text; only assistant messages have one.
    pub fn reasoning_content(&self) -> (reasoning: Option<&str>)
        ensures
            match self {
                Message::Assistant { reasoning_content: Some(r), .. } => reasoning matches Some(x) && x@ == r@,
                _ => reasoning is None,
            },
    {
        match self {
            Message::Assistant { reasoning_content: Some(r), .. } => Some(r.as_str()),
            _ => None,
        }
    }
}

impl Clone for Message {
    fn clone(&self) -> (copy: Self)
        ensures
            copy@ == self@,
    {
        match self {
            Message::System { content } => Message::System { content: content.clone() },
            Message::User { content } => Message::User { content: content.clone() },
            Message::Assistant { content, reasoning_content, tool_calls } => {
                let reasoning_content = match reasoning_content {
                    Some(r) => Some(r.clone()),
                    None => None,
                };
                let tool_calls = match tool_calls {
                    Some(calls) => Some(tool::clone_tool_calls(calls)),
                    None => None,
                };
                Message::Assistant { content: content.clone(), reasoning_content, tool_calls }
            },
            Message::Tool { tool_call_id, content } => Message::Tool {
                tool_call_id: tool_call_id.clone(),
                content: content.clone(),
            },
        }
    }
}

/// An exact copy of a list of messages.
pub fn clone_messages(messages: &Vec<Message>) -> (copy: Vec<Message>)
    ensures
        copy.deep_view() == messages.deep_view(),
{
    let mut copy: Vec<Message> = Vec::new();
    let mut i: usize = 0;
    while i < messages.len()
        invariant
            i <= messages.len(),
            copy.deep_view() == messages.deep_view().take(i as int),
        decreases messages.len() - i,
    {
        let ghost before = copy.deep_view();
        let item = messages[i].clone();
        assert(item.deep_view() == messages.deep_view()[i as int]);
        copy.push(item);
        assert(copy.deep_view() =~= before.push(item.deep_view()));
        assert(copy.deep_view() =~= messages.deep_view().take(i + 1));
        i = i + 1;
    }
    assert(messages.deep_view().take(i as int) =~= messages.deep_view());
    copy
}

} // verus!
