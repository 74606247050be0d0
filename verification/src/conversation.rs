//! Model-agnostic state of one agent call: the messages (opening with the
//! system prompt) and the token usage accumulated over the call.
use vstd::prelude::*;

use crate::message::{clone_messages, Message, MessageView};
use crate::usage::Usage;

verus! {

/// Construction settings. The thresholds are kept for compatibility only;
/// nothing reads them.
#[derive(Debug, Clone, Copy, PartialEq, Eq, Structural)]
pub struct ConversationConfig {
    pub max_messages: usize,
    pub max_chars: usize,
}

impl Default for ConversationConfig {
    fn default() -> (config: Self)
        ensures
            config.max_messages == 96,
            config.max_chars == 512_000,
    {
        ConversationConfig { max_messages: 96, max_chars: 512_000 }
    }
}

/// Token usage accumulated over the requests of one call.
#[derive(Debug, Clone, Copy, PartialEq, Eq, Structural)]
pub struct CacheUsageTotals {
    pub requests: u64,
    pub requests_with_usage: u64,
    pub prompt_tokens: u64,
    pub completion_tokens: u64,
    pub prompt_cache_hit_tokens: u64,
    pub prompt_cache_miss_tokens: u64,
}

impl Default for CacheUsageTotals {
    fn default() -> (totals: Self)
        ensures
            totals == CacheUsageTotals::zero(),
    {
        CacheUsageTotals {
            requests: 0,
            requests_with_usage: 0,
            prompt_tokens: 0,
            completion_tokens: 0,
            prompt_cache_hit_tokens: 0,
            prompt_cache_miss_tokens: 0,
        }
    }
}

/// An optional count, zero when absent.
pub open spec fn count_or_zero(n: Option<u32>) -> int {
    match n {
        Some(v) => v as int,
        None => 0,
    }
}

impl CacheUsageTotals {
    /// Nothing recorded yet.
    pub open spec fn zero() -> Self {
        CacheUsageTotals {
            requests: 0,
            requests_with_usage: 0,
            prompt_tokens: 0,
            completion_tokens: 0,
            prompt_cache_hit_tokens: 0,
            prompt_cache_miss_tokens: 0,
        }
    }

    /// Recording `usage` keeps every total within a `u64`.
    pub open spec fn can_record(self, usage: Option<Usage>) -> bool {
        &&& self.requests + 1 <= u64::MAX
        &&& usage matches Some(u) ==> {
            &&& self.requests_with_usage + 1 <= u64::MAX
            &&& self.prompt_tokens + u.prompt_tokens <= u64::MAX
            &&& self.completion_tokens + u.completion_tokens <= u64::MAX
            &&& self.prompt_cache_hit_tokens + count_or_zero(u.prompt_cache_hit_tokens) <= u64::MAX
            &&& self.prompt_cache_miss_tokens + count_or_zero(u.prompt_cache_miss_tokens)
                <= u64::MAX
        }
    }

    /// The totals after one more request that reported `usage` (or none).
    pub open spec fn recorded(self, usage: Option<Usage>) -> Self {
        match usage {
            None => CacheUsageTotals { requests: (self.requests + 1) as u64, ..self },
            Some(u) => CacheUsageTotals {
                requests: (self.requests + 1) as u64,
                requests_with_usage: (self.requests_with_usage + 1) as u64,
                prompt_tokens: (self.prompt_tokens + u.prompt_tokens) as u64,
                completion_tokens: (self.completion_tokens + u.completion_tokens) as u64,
                prompt_cache_hit_tokens: (self.prompt_cache_hit_tokens + count_or_zero(
                    u.prompt_cache_hit_tokens,
                )) as u64,
                prompt_cache_miss_tokens: (self.prompt_cache_miss_tokens + count_or_zero(
                    u.prompt_cache_miss_tokens,
                )) as u64,
            },
        }
    }

    /// Counts one request, and adds its usage when it reported one.
    pub fn record(&mut self, usage: Option<Usage>)
        requires
            old(self).can_record(usage),
        ensures
            *final(self) == old(self).recorded(usage),
    {
        self.requests = self.requests + 1;
        match usage {
            None => {},
            Some(usage) => {
                self.requests_with_usage = self.requests_with_usage + 1;
                self.prompt_tokens = self.prompt_tokens + usage.prompt_tokens as u64;
                self.completion_tokens = self.completion_tokens + usage.completion_tokens as u64;
                let hit: u32 = match usage.prompt_cache_hit_tokens {
                    Some(n) => n,
                    None => 0,
                };
                let miss: u32 = match usage.prompt_cache_miss_tokens {
                    Some(n) => n,
                    None => 0,
                };
                self.prompt_cache_hit_tokens = self.prompt_cache_hit_tokens + hit as u64;
                self.prompt_cache_miss_tokens = self.prompt_cache_miss_tokens + miss as u64;
            },
        }
    }
}

/// Recording one request counts it, and when it reported usage adds each of
/// its counts to the matching total on its own: the prompt and completion
/// tokens, the cache hits (nothing when none were reported) and the cache
/// misses (likewise). A request without usage changes nothing else.
pub proof fn lemma_record_adds_each_count(totals: CacheUsageTotals, usage: Option<Usage>)
    requires
        totals.can_record(usage),
    ensures
        totals.recorded(usage).requests == totals.requests + 1,
        match usage {
            None => {
                &&& totals.recorded(usage).requests_with_usage == totals.requests_with_usage
                &&& totals.recorded(usage).prompt_tokens == totals.prompt_tokens
                &&& totals.recorded(usage).completion_tokens == totals.completion_tokens
                &&& totals.recorded(usage).prompt_cache_hit_tokens == totals.prompt_cache_hit_tokens
                &&& totals.recorded(usage).prompt_cache_miss_tokens
                    == totals.prompt_cache_miss_tokens
            },
            Some(u) => {
                &&& totals.recorded(usage).requests_with_usage == totals.requests_with_usage + 1
                &&& totals.recorded(usage).prompt_tokens == totals.prompt_tokens + u.prompt_tokens
                &&& totals.recorded(usage).completion_tokens == totals.completion_tokens
                    + u.completion_tokens
                &&& totals.recorded(usage).prompt_cache_hit_tokens == totals.prompt_cache_hit_tokens
                    + match u.prompt_cache_hit_tokens {
                    Some(n) => n as int,
                    None => 0,
                }
                &&& totals.recorded(usage).prompt_cache_miss_tokens
                    == totals.prompt_cache_miss_tokens + match u.prompt_cache_miss_tokens {
                    Some(n) => n as int,
                    None => 0,
                }
            },
        },
{
}

/// The audit record of a call: its messages and usage.
#[derive(Debug, Clone, PartialEq, Eq)]
pub struct ConversationSnapshot {
    /// Always 0; kept so that stored snapshots still read.
    pub epoch: u64,
    pub messages: Vec<Message>,
    pub usage: CacheUsageTotals,
}

/// What a conversation holds.
pub struct ConversationView {
    pub messages: Seq<MessageView>,
    pub usage: CacheUsageTotals,
    pub epoch: u64,
    /// The prompt the conversation was built with.
    pub system_prompt: Seq<char>,
}

/// Every conversation opens with its system prompt, its epoch is 0, and no
/// more requests reported usage than were counted.
pub open spec fn opens_with_system(v: ConversationView) -> bool {
    &&& v.messages.len() >= 1
    &&& v.messages[0] == MessageView::System { content: v.system_prompt }
    &&& v.epoch == 0
    &&& v.usage.requests_with_usage <= v.usage.requests
}

/// One operation on a conversation, as the law below sees it.
pub enum ConversationOp {
    Push(MessageView),
    RecordUsage(Option<Usage>),
    Reset,
    ResetMessages,
}

/// The state right after `Conversation::new` with `prompt`, whatever the
/// settings.
pub open spec fn started_with(v: ConversationView, prompt: Seq<char>) -> bool {
    &&& v.messages == seq![MessageView::System { content: prompt }]
    &&& v.system_prompt == prompt
    &&& v.usage == CacheUsageTotals::zero()
    &&& v.epoch == 0
}

/// `after` is what `op` makes of `before`.
pub open spec fn conversation_step(
    before: ConversationView,
    after: ConversationView,
    op: ConversationOp,
) -> bool {
    &&& after.system_prompt == before.system_prompt
    &&& match op {
        ConversationOp::Push(m) => {
            &&& after.messages == before.messages.push(m)
            &&& after.usage == before.usage
            &&& after.epoch == before.epoch
        },
        ConversationOp::RecordUsage(u) => {
            &&& before.usage.can_record(u)
            &&& after.messages == before.messages
            &&& after.usage == before.usage.recorded(u)
            &&& after.epoch == before.epoch
        },
        ConversationOp::Reset => {
            &&& after.messages == before.messages.take(1)
            &&& after.usage == CacheUsageTotals::zero()
            &&& after.epoch == 0
        },
        ConversationOp::ResetMessages => {
            &&& after.messages == before.messages.take(1)
            &&& after.usage == before.usage
            &&& after.epoch == 0
        },
    }
}

/// A conversation keeps its opening: whatever sequence of pushes, usage
/// records and resets follows `Conversation::new(prompt, _)`, the first
/// message is the system prompt, the epoch is 0, and no more requests
/// reported usage than were counted.
pub proof fn lemma_conversation_keeps_its_opening(
    states: Seq<ConversationView>,
    ops: Seq<ConversationOp>,
    prompt: Seq<char>,
)
    requires
        states.len() == ops.len() + 1,
        started_with(states[0], prompt),
        forall|i: int| 0 <= i < ops.len() ==> #[trigger] conversation_step(states[i], states[i + 1], ops[i]),
    ensures
        forall|i: int|
            0 <= i < states.len() ==> #[trigger] opens_with_system(states[i]) && states[i].system_prompt == prompt
                && states[i].messages[0] == (MessageView::System { content: prompt })
                && states[i].usage.requests_with_usage <= states[i].usage.requests,
    decreases ops.len(),
{
    if ops.len() > 0 {
        let n = ops.len() - 1;
        lemma_conversation_keeps_its_opening(states.drop_last(), ops.drop_last(), prompt);
        assert(states.drop_last()[n] == states[n]);
        assert(conversation_step(states[n], states[n + 1], ops[n]));
        assert forall|i: int| 0 <= i < states.len() implies #[trigger] opens_with_system(states[i])
            && states[i].system_prompt == prompt && states[i].messages[0] == (MessageView::System {
            content: prompt,
        }) && states[i].usage.requests_with_usage <= states[i].usage.requests by {
            if i < states.len() - 1 {
                assert(states.drop_last()[i] == states[i]);
                assert(opens_with_system(states.drop_last()[i]));
            } else {
                let before = states[n];
                let after = states[n + 1];
                assert(opens_with_system(states.drop_last()[n]));
                match ops[n] {
                    ConversationOp::Push(m) => {
                        assert(after.messages[0] == before.messages[0]);
                    },
                    ConversationOp::RecordUsage(u) => {},
                    ConversationOp::Reset => {
                        assert(after.messages[0] == before.messages[0]);
                    },
                    ConversationOp::ResetMessages => {
                        assert(after.messages[0] == before.messages[0]);
                    },
                }
            }
        }
    }
}

/// The messages and usage of one agent call.
pub struct Conversation {
    messages: Vec<Message>,
    usage: CacheUsageTotals,
    epoch: u64,
    system_prompt: Ghost<Seq<char>>,
}

impl View for Conversation {
    type V = ConversationView;

    closed spec fn view(&self) -> ConversationView {
        ConversationView {
            messages: self.messages.deep_view(),
            usage: self.usage,
            epoch: self.epoch,
            system_prompt: self.system_prompt@,
        }
    }
}

impl Conversation {
    /// Every conversation opens with its system prompt (see
    /// `opens_with_system`).
    #[verifier::type_invariant]
    spec fn keeps_its_opening(&self) -> bool {
        opens_with_system(self@)
    }

    /// A list of the opening message alone. It stands in for the messages
    /// while they are being changed, so that the conversation keeps its
    /// opening throughout.
    fn opening_only(&self) -> (opening: Vec<Message>)
        ensures
            opening.deep_view() == self@.messages.take(1),
    {
        proof {
            use_type_invariant(self);
        }
        let mut opening: Vec<Message> = Vec::new();
        opening.push(self.messages[0].clone());
        assert(opening.deep_view() =~= self@.messages.take(1));
        opening
    }

    /// A fresh call opening with the system prompt. The settings are not read.
    pub fn new(system_prompt: String, _config: ConversationConfig) -> (conversation: Self)
        ensures
            opens_with_system(conversation@),
            conversation@.messages == seq![MessageView::System { content: system_prompt@ }],
            conversation@.system_prompt == system_prompt@,
            conversation@.usage == CacheUsageTotals::zero(),
            conversation@.epoch == 0,
            started_with(conversation@, system_prompt@),
    {
        let ghost prompt = system_prompt@;
        let mut messages: Vec<Message> = Vec::new();
        messages.push(Message::system(system_prompt));
        assert(messages.deep_view() =~= seq![MessageView::System { content: prompt }]);
        Conversation {
            messages,
            usage: CacheUsageTotals::default(),
            epoch: 0,
            system_prompt: Ghost(prompt),
        }
    }

    pub fn snapshot(&self) -> (snapshot: ConversationSnapshot)
        ensures
            snapshot.epoch == self@.epoch,
            snapshot.messages.deep_view() == self@.messages,
            snapshot.usage == self@.usage,
    {
        ConversationSnapshot {
            epoch: self.epoch,
            messages: clone_messages(&self.messages),
            usage: self.usage,
        }
    }

    /// Cuts the messages back to the system prompt and clears the usage.
    pub fn reset(&mut self)
        ensures
            opens_with_system(final(self)@),
            final(self)@.messages == old(self)@.messages.take(1),
            final(self)@.system_prompt == old(self)@.system_prompt,
            final(self)@.usage == CacheUsageTotals::zero(),
            final(self)@.epoch == 0,
            conversation_step(old(self)@, final(self)@, ConversationOp::Reset),
    {
        proof {
            use_type_invariant(&*self);
        }
        self.messages = self.opening_only();
        self.epoch = 0;
        self.usage = CacheUsageTotals::default();
    }

    /// Cuts the messages back to the system prompt but keeps the usage, so
    /// that it still covers every attempt.
    pub fn reset_messages(&mut self)
        ensures
            opens_with_system(final(self)@),
            final(self)@.messages == old(self)@.messages.take(1),
            final(self)@.system_prompt == old(self)@.system_prompt,
            final(self)@.usage == old(self)@.usage,
            final(self)@.epoch == 0,
            conversation_step(old(self)@, final(self)@, ConversationOp::ResetMessages),
    {
        proof {
            use_type_invariant(&*self);
        }
        self.messages = self.opening_only();
        self.epoch = 0;
    }

    pub fn messages(&self) -> (messages: &[Message])
        ensures
            messages.deep_view() == self@.messages,
    {
        self.messages.as_slice()
    }

    pub fn push(&mut self, message: Message)
        ensures
            opens_with_system(final(self)@),
            final(self)@.messages == old(self)@.messages.push(message@),
            final(self)@.system_prompt == old(self)@.system_prompt,
            final(self)@.usage == old(self)@.usage,
            final(self)@.epoch == old(self)@.epoch,
            conversation_step(old(self)@, final(self)@, ConversationOp::Push(message@)),
    {
        proof {
            use_type_invariant(&*self);
        }
        let ghost v = message@;
        let mut messages = self.opening_only();
        std::mem::swap(&mut messages, &mut self.messages);
        messages.push(message);
        assert(messages.deep_view() =~= old(self)@.messages.push(v));
        self.messages = messages;
    }

    /// Counts one request and its usage.
    pub fn record_usage(&mut self, usage: Option<Usage>)
        requires
            old(self)@.usage.can_record(usage),
        ensures
            opens_with_system(final(self)@),
            final(self)@.messages == old(self)@.messages,
            final(self)@.system_prompt == old(self)@.system_prompt,
            final(self)@.usage == old(self)@.usage.recorded(usage),
            final(self)@.epoch == old(self)@.epoch,
            conversation_step(old(self)@, final(self)@, ConversationOp::RecordUsage(usage)),
    {
        proof {
            use_type_invariant(&*self);
        }
        let mut totals = self.usage;
        totals.record(usage);
        self.usage = totals;
    }
}

} // verus!
