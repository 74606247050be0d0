//! OpenAI-compatible protocol: chat, and audio output over chat.
//!
//! The mappings between the wire structures of `/chat/completions` and
//! the domain types, and the decisions taken on a response stream.
use vstd::prelude::*;

use crate::capability::{ChatChunk, ChatRequest, GenAudioRequest, GenAudioResponse, ModelError};
use crate::message::{opt_calls, opt_text, Message, MessageRole, MessageView};
use crate::text::{is_whitespace_char, trim, trim_bounds, chars_of};
use crate::providers::sse::done_payload;
use crate::transport::TransportError;
use crate::usage::Usage;

pub mod lenient;
pub mod wire;

use wire::{
    usage_of, WireAudioConfig, WireChatRequest, WireChoiceMessage, WireResponse,
    WireStreamChoice, WireStreamResponse,
};

verus! {

/// The text of an optional string, empty when absent.
pub open spec fn text_or_empty(s: Option<String>) -> Seq<char> {
    match s {
        Some(t) => t@,
        None => Seq::empty(),
    }
}

/// The text of an optional string, empty when absent (`unwrap_or_default`).
fn string_or_empty(s: Option<String>) -> (t: String)
    ensures
        t@ == text_or_empty(s),
{
    match s {
        Some(t) => t,
        None => String::new(),
    }
}

/// The domain message for the message of a choice.
pub open spec fn message_of_wire(m: WireChoiceMessage) -> MessageView {
    match m.role {
        MessageRole::Assistant => MessageView::Assistant {
            content: text_or_empty(m.content),
            reasoning_content: opt_text(m.reasoning_content),
            tool_calls: opt_calls(m.tool_calls),
        },
        MessageRole::User => MessageView::User { content: text_or_empty(m.content) },
        MessageRole::System => MessageView::System { content: text_or_empty(m.content) },
        MessageRole::Tool => MessageView::Tool {
            tool_call_id: text_or_empty(m.tool_call_id),
            content: text_or_empty(m.content),
        },
    }
}

/// A wire message keeps its role and each of its fields in the domain:
/// missing text becomes empty text, and an assistant message keeps its
/// reasoning and tool calls exactly as sent, whatever its content.
pub proof fn lemma_wire_message_keeps_its_fields(m: WireChoiceMessage)
    ensures
        ({
            let content = match m.content {
                Some(c) => c@,
                None => Seq::<char>::empty(),
            };
            match m.role {
                MessageRole::Assistant => message_of_wire(m) == MessageView::Assistant {
                    content,
                    reasoning_content: match m.reasoning_content {
                        Some(r) => Some(r@),
                        None => None,
                    },
                    tool_calls: match m.tool_calls {
                        Some(calls) => Some(calls.deep_view()),
                        None => None,
                    },
                },
                MessageRole::User => message_of_wire(m) == MessageView::User { content },
                MessageRole::System => message_of_wire(m) == MessageView::System { content },
                MessageRole::Tool => message_of_wire(m) == MessageView::Tool {
                    tool_call_id: match m.tool_call_id {
                        Some(t) => t@,
                        None => Seq::<char>::empty(),
                    },
                    content,
                },
            }
        }),
{
}

/// Maps the message of a choice into a domain message; missing text
/// becomes empty text.
pub fn message_from_wire(message: WireChoiceMessage) -> (result: Message)
    ensures
        result@ == message_of_wire(message),
{
    let content = string_or_empty(message.content);
    match message.role {
        MessageRole::Assistant => Message::Assistant {
            content,
            reasoning_content: message.reasoning_content,
            tool_calls: message.tool_calls,
        },
        MessageRole::User => Message::User { content },
        MessageRole::System => Message::System { content },
        MessageRole::Tool => Message::Tool {
            tool_call_id: string_or_empty(message.tool_call_id),
            content,
        },
    }
}

/// The answer of a non-streamed chat call: the message of the first choice,
/// or `NoResponse` when there is no choice.
pub fn message_from_response(response: WireResponse) -> (result: Result<Message, ModelError>)
    ensures
        match result {
            Ok(m) => response.choices@.len() > 0 && m@ == message_of_wire(
                response.choices@[0].message,
            ),
            Err(e) => response.choices@.len() == 0 && e is NoResponse,
        },
{
    let mut choices = response.choices;
    if choices.len() == 0 {
        return Err(ModelError::NoResponse);
    }
    let choice = choices.swap_remove(0);
    Ok(message_from_wire(choice.message))
}

/// Every usage in the chunk fits the domain total.
pub open spec fn usage_fits(usage: Option<wire::WireUsage>) -> bool {
    usage matches Some(u) ==> u.sum_fits()
}

/// The domain usage of an optional wire usage.
pub open spec fn opt_usage(usage: Option<wire::WireUsage>) -> Option<Usage> {
    match usage {
        Some(u) => Some(usage_of(u)),
        None => None,
    }
}

/// Maps a streamed chunk into a domain chunk, from its first choice. A
/// chunk without a choice ends the stream with the reason `no_choices`.
pub fn chunk_from_wire(response: WireStreamResponse) -> (chunk: ChatChunk)
    requires
        usage_fits(response.usage),
    ensures
        chunk.usage == opt_usage(response.usage),
        response.choices@.len() > 0 ==> {
            let c = response.choices@[0];
            &&& chunk.content@ == text_or_empty(c.delta.content)
            &&& chunk.reasoning_content@ == text_or_empty(c.delta.reasoning_content)
            &&& chunk.is_finished == c.finish_reason is Some
            &&& opt_text(chunk.finish_reason) == opt_text(c.finish_reason)
            &&& opt_calls(chunk.tool_calls) == opt_calls(c.delta.tool_calls)
        },
        response.choices@.len() == 0 ==> {
            &&& chunk.content@ == Seq::<char>::empty()
            &&& chunk.reasoning_content@ == Seq::<char>::empty()
            &&& chunk.is_finished
            &&& opt_text(chunk.finish_reason) == Some("no_choices"@)
            &&& chunk.tool_calls is None
        },
{
    let usage = match response.usage {
        Some(u) => Some(Usage::from_wire(u)),
        None => None,
    };
    let mut choices = response.choices;
    if choices.len() > 0 {
        let choice = choices.swap_remove(0);
        let is_finished = choice.finish_reason.is_some();
        ChatChunk {
            content: string_or_empty(choice.delta.content),
            reasoning_content: string_or_empty(choice.delta.reasoning_content),
            is_finished,
            finish_reason: choice.finish_reason,
            tool_calls: choice.delta.tool_calls,
            usage,
        }
    } else {
        ChatChunk {
            content: String::new(),
            reasoning_content: String::new(),
            is_finished: true,
            finish_reason: Some("no_choices".to_owned()),
            tool_calls: None,
            usage,
        }
    }
}

/// Whether an event payload, trimmed, is the `[DONE]` marker (to be skipped).
pub fn is_done_marker(payload: &str) -> (done: bool)
    ensures
        done == (trim(payload@) == done_payload()),
{
    let chars = chars_of(payload);
    let (a, b) = trim_bounds(&chars);
    let ghost t = chars@.subrange(a as int, b as int);
    if b - a != 6 {
        assert(t.len() != done_payload().len());
        return false;
    }
    let same = chars[a] == '[' && chars[a + 1] == 'D' && chars[a + 2] == 'O' && chars[a + 3] == 'N'
        && chars[a + 4] == 'E' && chars[a + 5] == ']';
    proof {
        if same {
            assert(t =~= done_payload());
        } else {
            assert(t[0] != done_payload()[0] || t[1] != done_payload()[1] || t[2]
                != done_payload()[2] || t[3] != done_payload()[3] || t[4] != done_payload()[4] || t[5]
                != done_payload()[5]);
        }
    }
    same
}

/// What a chat stream does with one event of its body.
pub enum StreamAction {
    /// The body broke off: the stream ends.
    Stop,
    /// The `[DONE]` marker: nothing to decode.
    Skip,
    /// A payload to decode as a chunk.
    Decode(String),
}

/// The next step of a chat stream on one body event: a broken body ends the
/// stream, the `[DONE]` marker is skipped, and any other payload is handed
/// on, unchanged, to be decoded (an undecodable one is then skipped).
pub fn stream_action(event: Result<String, TransportError>) -> (action: StreamAction)
    ensures
        match event {
            Err(_) => action is Stop,
            Ok(p) => if trim(p@) == done_payload() {
                action is Skip
            } else {
                action matches StreamAction::Decode(q) && q == p
            },
        },
{
    match event {
        Err(_) => StreamAction::Stop,
        Ok(payload) => {
            if is_done_marker(payload.as_str()) {
                StreamAction::Skip
            } else {
                StreamAction::Decode(payload)
            }
        },
    }
}

/// The output format of an audio request: the requested one, `wav` by
/// default.
pub open spec fn audio_format_of(request: GenAudioRequest) -> Seq<char> {
    match request.format {
        Some(f) => f@,
        None => "wav"@,
    }
}

/// The body of an audio generation: a chat request with the prompt as the
/// only user message, asking for text and audio output in the given format
/// and voice. Also returns the format.
pub fn audio_wire_request(request: GenAudioRequest) -> (result: (WireChatRequest, String))
    ensures
        result.1@ == audio_format_of(request),
        result.0.model@ == request.model@,
        result.0.messages.deep_view() == seq![MessageView::User { content: request.prompt@ }],
        result.0.stream is None,
        result.0.temperature is None,
        result.0.max_tokens is None,
        result.0.tools is None,
        result.0.response_format is None,
        result.0.reasoning_effort is None,
        result.0.thinking is None,
        result.0.stream_options is None,
        result.0.modalities matches Some(m) && m.deep_view() == seq!["text"@, "audio"@],
        result.0.audio matches Some(a) && a.format@ == audio_format_of(request) && opt_text(a.voice)
            == opt_text(request.voice),
{
    let format = match request.format {
        Some(f) => f,
        None => "wav".to_owned(),
    };
    let mut messages: Vec<Message> = Vec::new();
    messages.push(Message::user(request.prompt));
    let base = ChatRequest::new(request.model, messages);
    let mut wire = WireChatRequest::from(&base);
    let mut modalities: Vec<String> = Vec::new();
    modalities.push("text".to_owned());
    modalities.push("audio".to_owned());
    assert(modalities.deep_view() =~= seq!["text"@, "audio"@]);
    wire.modalities = Some(modalities);
    wire.audio = Some(WireAudioConfig { format: format.clone(), voice: request.voice });
    assert(base.messages.deep_view() =~= seq![MessageView::User { content: request.prompt@ }]);
    (wire, format)
}

/// The audio data that the choices of a chunk carry, in order.
pub open spec fn chunk_audio_data(choices: Seq<WireStreamChoice>) -> Seq<char>
    decreases choices.len(),
{
    if choices.len() == 0 {
        Seq::empty()
    } else {
        chunk_audio_data(choices.drop_last()) + match choices.last().delta.audio {
            Some(a) => text_or_empty(a.data),
            None => Seq::empty(),
        }
    }
}

/// The transcript that the choices of a chunk carry, in order.
pub open spec fn chunk_transcript(choices: Seq<WireStreamChoice>) -> Seq<char>
    decreases choices.len(),
{
    if choices.len() == 0 {
        Seq::empty()
    } else {
        chunk_transcript(choices.drop_last()) + match choices.last().delta.audio {
            Some(a) => text_or_empty(a.transcript),
            None => Seq::empty(),
        }
    }
}

/// The audio carried by one choice: its delta's audio data, and apart from
/// it its transcript; missing parts contribute nothing.
pub open spec fn choice_audio(c: WireStreamChoice) -> (Seq<char>, Seq<char>) {
    match c.delta.audio {
        Some(a) => (
            match a.data {
                Some(d) => d@,
                None => Seq::empty(),
            },
            match a.transcript {
                Some(t) => t@,
                None => Seq::empty(),
            },
        ),
        None => (Seq::empty(), Seq::empty()),
    }
}

/// The audio data and the transcript of a list of choices are those of its
/// choices one after the other: each choice adds its own audio data and,
/// independently, its own transcript.
pub proof fn lemma_chunk_audio_of_choices(a: Seq<WireStreamChoice>, c: WireStreamChoice)
    ensures
        chunk_audio_data(Seq::empty()) == Seq::<char>::empty(),
        chunk_transcript(Seq::empty()) == Seq::<char>::empty(),
        chunk_audio_data(a.push(c)) == chunk_audio_data(a) + choice_audio(c).0,
        chunk_transcript(a.push(c)) == chunk_transcript(a) + choice_audio(c).1,
{
    assert(a.push(c).drop_last() =~= a);
}

/// Splitting the choices anywhere splits their audio data and transcript
/// there.
pub proof fn lemma_chunk_audio_concat(a: Seq<WireStreamChoice>, b: Seq<WireStreamChoice>)
    ensures
        chunk_audio_data(a + b) == chunk_audio_data(a) + chunk_audio_data(b),
        chunk_transcript(a + b) == chunk_transcript(a) + chunk_transcript(b),
    decreases b.len(),
{
    if b.len() == 0 {
        assert(a + b =~= a);
        assert(chunk_audio_data(a) + chunk_audio_data(b) =~= chunk_audio_data(a));
        assert(chunk_transcript(a) + chunk_transcript(b) =~= chunk_transcript(a));
    } else {
        let b1 = b.drop_last();
        let c = b.last();
        assert(a + b =~= (a + b1).push(c));
        assert(b =~= b1.push(c));
        lemma_chunk_audio_concat(a, b1);
        lemma_chunk_audio_of_choices(a + b1, c);
        lemma_chunk_audio_of_choices(b1, c);
        assert(chunk_audio_data(a + b) =~= chunk_audio_data(a) + chunk_audio_data(b));
        assert(chunk_transcript(a + b) =~= chunk_transcript(a) + chunk_transcript(b));
    }
}

/// Collects the audio of a streamed audio generation, chunk by chunk.
pub struct AudioAccumulator {
    /// The base64 audio data received so far.
    pub audio_data: String,
    /// The transcript received so far.
    pub transcript: String,
}

impl AudioAccumulator {
    pub fn new() -> (acc: Self)
        ensures
            acc.audio_data@ == Seq::<char>::empty(),
            acc.transcript@ == Seq::<char>::empty(),
    {
        AudioAccumulator { audio_data: String::new(), transcript: String::new() }
    }

    /// Appends the audio data and transcript of every choice of `response`.
    pub fn absorb(&mut self, response: &WireStreamResponse)
        ensures
            final(self).audio_data@ == old(self).audio_data@ + chunk_audio_data(
                response.choices@,
            ),
            final(self).transcript@ == old(self).transcript@ + chunk_transcript(
                response.choices@,
            ),
    {
        let ghost data0 = self.audio_data@;
        let ghost transcript0 = self.transcript@;
        let choices = &response.choices;
        let mut i: usize = 0;
        assert(choices@.take(0) =~= Seq::<WireStreamChoice>::empty());
        while i < choices.len()
            invariant
                i <= choices.len(),
                self.audio_data@ == data0 + chunk_audio_data(choices@.take(i as int)),
                self.transcript@ == transcript0 + chunk_transcript(choices@.take(i as int)),
            decreases choices.len() - i,
        {
            let ghost prefix = choices@.take(i as int);
            assert(choices@.take(i + 1).drop_last() =~= prefix);
            match &choices[i].delta.audio {
                Some(audio) => {
                    match &audio.data {
                        Some(data) => self.audio_data.append(data.as_str()),
                        None => {},
                    }
                    match &audio.transcript {
                        Some(t) => self.transcript.append(t.as_str()),
                        None => {},
                    }
                },
                None => {},
            }
            assert(self.audio_data@ =~= data0 + chunk_audio_data(choices@.take(i + 1)));
            assert(self.transcript@ =~= transcript0 + chunk_transcript(choices@.take(i + 1)));
            i = i + 1;
        }
        assert(choices@.take(i as int) =~= choices@);
    }

    /// The generated audio, or `NoResponse` when no audio data arrived.
    pub fn finish(self, format: String) -> (result: Result<GenAudioResponse, ModelError>)
        ensures
            match result {
                Ok(r) => self.audio_data@.len() > 0 && r.audio_data@ == self.audio_data@
                    && r.transcript@ == self.transcript@ && r.format@ == format@,
                Err(e) => self.audio_data@.len() == 0 && e is NoResponse,
            },
    {
        if self.audio_data.as_str().is_empty() {
            return Err(ModelError::NoResponse);
        }
        Ok(GenAudioResponse { audio_data: self.audio_data, transcript: self.transcript, format })
    }
}

} // verus!
