//! One turn of the assistant: the bounded exchange between the model and
//! the tools.
//!
//! The exchange is a state machine. Its caller sends the request it is
//! asked for, runs the tool it is asked for, and hands back what came of
//! each; the machine decides what is next and keeps the record.

use vstd::prelude::*;
use vstd::string::StringExecFns;
use crate::llm::{
    assistant_message, clone_calls, clone_text, tool_call_message, tool_result_message, CallModel,
    LlmResponse, Message, MessageModel, ResponseModel, ToolCall, ToolDef,
};
use crate::api::AgentResponse;
use crate::bus::{key_of, session_key};
use crate::session::{acquired, released, SessionStore, SESSION_COMPRESS_THRESHOLD};
use crate::skills::SkillSummary;
use crate::text::concat;
use crate::tools::registry::{by_name, tool_def_model};
use crate::tools::{ToolError, ToolFault, ToolKind, ToolRegistry, ToolResult};
use crate::turn::{begun, Turn};

verus! {

/// How many times the model may ask for tools in one turn.
pub const MAX_TOOL_ITERATIONS: usize = 10;

/// What the user is told when the model keeps asking for tools.
pub const TOOL_LIMIT_REPLY: &'static str = "Tool use limit reached.";

/// Where the exchange stands.
#[derive(Debug, Clone, Copy, PartialEq, Eq, Structural)]
pub enum Phase {
    /// The model is to be asked.
    Requesting,
    /// The model asked for tools, and not all of them have run.
    RunningTools,
    /// The model answered without asking for tools: the turn is over.
    Replied,
    /// The model asked for tools as often as it may: the turn is over.
    LimitReached,
    /// The model could not be reached: the turn is over.
    Failed,
}

/// The exchange, as the contracts speak of it.
pub struct LoopModel {
    /// What the model is sent: the context, and what the turn added.
    pub messages: Seq<MessageModel>,
    /// What the turn added to the conversation.
    pub new_messages: Seq<MessageModel>,
    /// The tool calls of the model's last answer.
    pub pending: Seq<CallModel>,
    /// How many of them have run.
    pub done: nat,
    /// How many times the model has asked for tools.
    pub iterations: nat,
    /// How many times it may.
    pub max_iterations: nat,
    pub phase: Phase,
    /// The reply to the user, or the error in the phase `Failed`.
    pub reply: Option<Seq<char>>,
}

impl LoopModel {
    /// What holds of every exchange: the model has not asked for tools
    /// more often than it may, and it is asked again only while it may
    /// still ask for tools.
    pub open spec fn wf(self) -> bool {
        &&& self.iterations <= self.max_iterations
        &&& self.done <= self.pending.len()
        &&& self.phase == Phase::Requesting ==> self.iterations < self.max_iterations
        &&& self.phase == Phase::RunningTools ==> self.done < self.pending.len()
        &&& self.phase == Phase::LimitReached ==> self.iterations == self.max_iterations
            && self.reply == Some(TOOL_LIMIT_REPLY@)
    }

    /// Whether the turn is over.
    pub open spec fn is_over(self) -> bool {
        self.phase != Phase::Requesting && self.phase != Phase::RunningTools
    }
}

/// The exchange before the model is first asked.
pub open spec fn started(messages: Seq<MessageModel>, max_iterations: nat) -> LoopModel {
    LoopModel {
        messages,
        new_messages: Seq::empty(),
        pending: Seq::empty(),
        done: 0,
        iterations: 0,
        max_iterations,
        phase: if max_iterations == 0 {
            Phase::LimitReached
        } else {
            Phase::Requesting
        },
        reply: if max_iterations == 0 {
            Some(TOOL_LIMIT_REPLY@)
        } else {
            None
        },
    }
}

/// The exchange after the model's answer. An answer without tool calls
/// ends the turn, and its text, if it has any, is the reply and the one
/// message added. An answer with tool calls is recorded as one message, and
/// its calls are to be run. Outside the phase `Requesting` nothing changes.
pub open spec fn after_response(m: LoopModel, r: ResponseModel) -> LoopModel {
    if m.phase != Phase::Requesting {
        m
    } else if r.tool_calls.len() == 0 {
        LoopModel {
            new_messages: match r.content {
                Some(c) => m.new_messages.push(assistant_message(c)),
                None => m.new_messages,
            },
            reply: r.content,
            phase: Phase::Replied,
            ..m
        }
    } else {
        let asked = tool_call_message(r.content, r.tool_calls);
        LoopModel {
            messages: m.messages.push(asked),
            new_messages: m.new_messages.push(asked),
            pending: r.tool_calls,
            done: 0,
            iterations: m.iterations + 1,
            phase: Phase::RunningTools,
            ..m
        }
    }
}

/// The exchange after the model could not be reached.
pub open spec fn after_failure(m: LoopModel, error: Seq<char>) -> LoopModel {
    if m.phase != Phase::Requesting {
        m
    } else {
        LoopModel { phase: Phase::Failed, reply: Some(error), ..m }
    }
}

/// What the model is told of a tool call's outcome: the result, or the
/// error in words.
pub open spec fn tool_text(outcome: Result<Seq<char>, ToolFault>) -> Seq<char> {
    match outcome {
        Ok(text) => text,
        Err(e) => "Tool error: "@ + e.message(),
    }
}

/// The exchange after the next pending tool call has run and `text` is
/// what the model is told of it. The text is recorded under the call's id.
/// After the last call of an answer the model is asked again, unless it has
/// asked for tools as often as it may: then the turn is over. Outside the
/// phase `RunningTools` nothing changes.
pub open spec fn after_tool(m: LoopModel, text: Seq<char>) -> LoopModel {
    if m.phase != Phase::RunningTools || m.done >= m.pending.len() {
        m
    } else {
        let result = tool_result_message(m.pending[m.done as int].id, text);
        let recorded = LoopModel {
            messages: m.messages.push(result),
            new_messages: m.new_messages.push(result),
            done: m.done + 1,
            ..m
        };
        if m.done + 1 < m.pending.len() {
            recorded
        } else if m.iterations >= m.max_iterations {
            LoopModel { phase: Phase::LimitReached, reply: Some(TOOL_LIMIT_REPLY@), ..recorded }
        } else {
            LoopModel { phase: Phase::Requesting, ..recorded }
        }
    }
}

/// The exchange between the model and the tools in one turn.
pub struct ToolLoop {
    messages: Vec<Message>,
    new_messages: Vec<Message>,
    pending: Vec<ToolCall>,
    done: usize,
    iterations: usize,
    max_iterations: usize,
    phase: Phase,
    reply: Option<String>,
}

impl View for ToolLoop {
    type V = LoopModel;

    closed spec fn view(&self) -> LoopModel {
        LoopModel {
            messages: self.messages.deep_view(),
            new_messages: self.new_messages.deep_view(),
            pending: self.pending.deep_view(),
            done: self.done as nat,
            iterations: self.iterations as nat,
            max_iterations: self.max_iterations as nat,
            phase: self.phase,
            reply: self.reply.deep_view(),
        }
    }
}

impl ToolLoop {
    #[verifier::type_invariant]
    spec fn inv(self) -> bool {
        self@.wf()
    }

    /// Begins a turn with the context `messages`.
    pub fn new(messages: Vec<Message>, max_iterations: usize) -> (l: Self)
        ensures
            l@ == started(messages.deep_view(), max_iterations as nat),
            l@.wf(),
    {
        let at_limit = max_iterations == 0;
        let new_messages: Vec<Message> = Vec::new();
        let pending: Vec<ToolCall> = Vec::new();
        assert(new_messages.deep_view() =~= Seq::<MessageModel>::empty());
        assert(pending.deep_view() =~= Seq::<CallModel>::empty());
        ToolLoop {
            messages,
            new_messages,
            pending,
            done: 0,
            iterations: 0,
            max_iterations,
            phase: if at_limit {
                Phase::LimitReached
            } else {
                Phase::Requesting
            },
            reply: if at_limit {
                Some(String::from_str(TOOL_LIMIT_REPLY))
            } else {
                None
            },
        }
    }

    pub fn phase(&self) -> (p: Phase)
        ensures
            p == self@.phase,
            self@.wf(),
    {
        proof {
            use_type_invariant(self);
        }
        self.phase
    }

    /// What the model is sent next.
    pub fn request(&self) -> (m: &Vec<Message>)
        ensures
            m.deep_view() == self@.messages,
    {
        &self.messages
    }

    /// The tool call that is to run next, in the phase `RunningTools`.
    pub fn current_call(&self) -> (c: Option<&ToolCall>)
        ensures
            match c {
                Some(call) => self@.phase == Phase::RunningTools && self@.done
                    < self@.pending.len() && call@ == self@.pending[self@.done as int],
                None => self@.phase != Phase::RunningTools,
            },
    {
        proof {
            use_type_invariant(self);
        }
        if self.phase == Phase::RunningTools {
            Some(&self.pending[self.done])
        } else {
            None
        }
    }

    /// The reply to the user, once the turn is over; the error in the
    /// phase `Failed`.
    pub fn reply(&self) -> (r: &Option<String>)
        ensures
            r.deep_view() == self@.reply,
    {
        &self.reply
    }

    /// What the turn has added to the conversation so far.
    pub fn new_messages(&self) -> (m: &Vec<Message>)
        ensures
            m.deep_view() == self@.new_messages,
    {
        &self.new_messages
    }

    /// Ends the exchange and hands out the reply and what the turn added.
    pub fn finish(self) -> (r: (Option<String>, Vec<Message>))
        ensures
            r.0.deep_view() == self@.reply,
            r.1.deep_view() == self@.new_messages,
    {
        (self.reply, self.new_messages)
    }

    /// Takes the model's answer.
    pub fn on_response(self, response: LlmResponse) -> (next: Self)
        ensures
            next@ == after_response(self@, response@),
            next@.wf(),
    {
        proof {
            use_type_invariant(&self);
        }
        if self.phase != Phase::Requesting {
            return self;
        }
        let ToolLoop {
            mut messages,
            mut new_messages,
            pending,
            done,
            iterations,
            max_iterations,
            phase: _,
            reply,
        } = self;
        if response.tool_calls.len() == 0 {
            match &response.content {
                Some(c) => {
                    let ghost before = new_messages.deep_view();
                    new_messages.push(Message::assistant(c.as_str()));
                    assert(new_messages.deep_view() =~= before.push(assistant_message(c@)));
                },
                None => {},
            }
            ToolLoop {
                messages,
                new_messages,
                pending,
                done,
                iterations,
                max_iterations,
                phase: Phase::Replied,
                reply: response.content,
            }
        } else {
            let ghost asked_model = tool_call_message(response@.content, response@.tool_calls);
            let ghost old_messages = messages.deep_view();
            let ghost old_new = new_messages.deep_view();
            let calls = clone_calls(&response.tool_calls);
            let asked = Message::assistant_with_tool_calls(
                clone_text(&response.content),
                response.tool_calls,
            );
            messages.push(asked.clone());
            new_messages.push(asked);
            assert(messages.deep_view() =~= old_messages.push(asked_model));
            assert(new_messages.deep_view() =~= old_new.push(asked_model));
            ToolLoop {
                messages,
                new_messages,
                pending: calls,
                done: 0,
                iterations: iterations + 1,
                max_iterations,
                phase: Phase::RunningTools,
                reply,
            }
        }
    }

    /// Takes the news that the model could not be reached.
    pub fn on_failure(self, error: String) -> (next: Self)
        ensures
            next@ == after_failure(self@, error@),
            next@.wf(),
    {
        proof {
            use_type_invariant(&self);
        }
        if self.phase != Phase::Requesting {
            return self;
        }
        ToolLoop {
            messages: self.messages,
            new_messages: self.new_messages,
            pending: self.pending,
            done: self.done,
            iterations: self.iterations,
            max_iterations: self.max_iterations,
            phase: Phase::Failed,
            reply: Some(error),
        }
    }

    /// Takes what the model is to be told of the tool call that ran.
    pub fn on_tool_text(self, text: &str) -> (next: Self)
        ensures
            next@ == after_tool(self@, text@),
            next@.wf(),
    {
        proof {
            use_type_invariant(&self);
        }
        if self.phase != Phase::RunningTools {
            return self;
        }
        assert(self.done < self.pending@.len()) by {
            assert(self@.done < self@.pending.len());
        }
        let ToolLoop {
            mut messages,
            mut new_messages,
            pending,
            done,
            iterations,
            max_iterations,
            phase: _,
            reply,
        } = self;
        let ghost result_model = tool_result_message(pending@[done as int]@.id, text@);
        let ghost old_messages = messages.deep_view();
        let ghost old_new = new_messages.deep_view();
        let result = Message::tool_result(pending[done].id.as_str(), text);
        messages.push(result.clone());
        new_messages.push(result);
        assert(messages.deep_view() =~= old_messages.push(result_model));
        assert(new_messages.deep_view() =~= old_new.push(result_model));
        let count = pending.len();
        assert(done < count);
        let done = done + 1;
        if done < count {
            ToolLoop {
                messages,
                new_messages,
                pending,
                done,
                iterations,
                max_iterations,
                phase: Phase::RunningTools,
                reply,
            }
        } else if iterations >= max_iterations {
            ToolLoop {
                messages,
                new_messages,
                pending,
                done,
                iterations,
                max_iterations,
                phase: Phase::LimitReached,
                reply: Some(String::from_str(TOOL_LIMIT_REPLY)),
            }
        } else {
            ToolLoop {
                messages,
                new_messages,
                pending,
                done,
                iterations,
                max_iterations,
                phase: Phase::Requesting,
                reply,
            }
        }
    }

    /// Takes the outcome of the tool call that ran. A failed call does not
    /// end the turn: the model is told of the error instead.
    pub fn on_tool_result(self, result: Result<ToolResult, ToolError>) -> (next: Self)
        ensures
            next@ == after_tool(
                self@,
                tool_text(
                    match result {
                        Ok(r) => Ok(r.for_llm@),
                        Err(e) => Err(e@),
                    },
                ),
            ),
            next@.wf(),
    {
        match result {
            Ok(r) => self.on_tool_text(r.for_llm.as_str()),
            Err(e) => {
                let text = concat("Tool error: ", e.message().as_str());
                self.on_tool_text(text.as_str())
            },
        }
    }
}

/// One answer of the model that asks for tools, and what the model is told
/// of each of the calls.
pub struct Round {
    pub response: ResponseModel,
    pub results: Seq<Seq<char>>,
}

impl Round {
    /// Whether the answer asks for tools, and each call has its result.
    pub open spec fn asks_for_tools(self) -> bool {
        self.response.tool_calls.len() > 0 && self.results.len() == self.response.tool_calls.len()
    }

    /// The results of the first `n` calls, each under the id of its call.
    pub open spec fn result_messages(self, n: int) -> Seq<MessageModel> {
        Seq::new(
            n as nat,
            |i: int| tool_result_message(self.response.tool_calls[i].id, self.results[i]),
        )
    }

    /// What the round adds to the conversation: the assistant's message
    /// with its calls, then one result for each call, in the order of the
    /// calls.
    pub open spec fn messages(self) -> Seq<MessageModel> {
        seq![tool_call_message(self.response.content, self.response.tool_calls)]
            + self.result_messages(self.results.len() as int)
    }
}

/// The exchange after the first `n` of `texts` were taken as tool results.
pub open spec fn after_results(m: LoopModel, texts: Seq<Seq<char>>, n: int) -> LoopModel
    decreases n,
{
    if n <= 0 {
        m
    } else {
        after_tool(after_results(m, texts, n - 1), texts[n - 1])
    }
}

/// The exchange after an answer and the results of its calls.
pub open spec fn after_round(m: LoopModel, r: Round) -> LoopModel {
    after_results(after_response(m, r.response), r.results, r.results.len() as int)
}

/// The exchange after the first `n` rounds of `script`.
pub open spec fn after_rounds(m: LoopModel, script: Seq<Round>, n: int) -> LoopModel
    decreases n,
{
    if n <= 0 {
        m
    } else {
        after_round(after_rounds(m, script, n - 1), script[n - 1])
    }
}

/// What the first `n` rounds of `script` add to the conversation.
pub open spec fn script_messages(script: Seq<Round>, n: int) -> Seq<MessageModel>
    decreases n,
{
    if n <= 0 {
        Seq::empty()
    } else {
        script_messages(script, n - 1) + script[n - 1].messages()
    }
}

/// Whether the message at `j` answers a tool call that an assistant's
/// message before it carries.
pub open spec fn answers_a_call(messages: Seq<MessageModel>, j: int) -> bool {
    exists|i: int, k: int|
        0 <= i < j && messages[i].role == "assistant"@ && messages[i].tool_calls is Some && 0 <= k
            < messages[i].tool_calls->0.len() && messages[j].tool_call_id == Some(
            #[trigger] messages[i].tool_calls->0[k].id,
        )
}

/// Whether every tool result among `messages` follows the assistant's
/// message that carries its call.
pub open spec fn linked(messages: Seq<MessageModel>) -> bool {
    forall|j: int|
        0 <= j < messages.len() && (#[trigger] messages[j]).tool_call_id is Some
            ==> answers_a_call(messages, j)
}

/// Every step keeps the exchange within its bound.
pub proof fn steps_keep_the_bound(m: LoopModel, r: ResponseModel, error: Seq<char>, text: Seq<char>)
    requires
        m.wf(),
    ensures
        after_response(m, r).wf(),
        after_failure(m, error).wf(),
        after_tool(m, text).wf(),
        m.iterations <= m.max_iterations,
        after_response(m, r).max_iterations == m.max_iterations,
        after_tool(m, text).max_iterations == m.max_iterations,
{
}

/// Once the turn is over nothing changes the exchange any more.
pub proof fn over_is_final(m: LoopModel, script: Seq<Round>, n: int)
    requires
        m.is_over(),
    ensures
        after_rounds(m, script, n) == m,
    decreases n,
{
    if n > 0 {
        over_is_final(m, script, n - 1);
        let r = script[n - 1];
        results_after_over(m, r.results, r.results.len() as int);
    }
}

proof fn results_after_over(m: LoopModel, texts: Seq<Seq<char>>, n: int)
    requires
        m.phase != Phase::RunningTools,
    ensures
        after_results(m, texts, n) == m,
    decreases n,
{
    if n > 0 {
        results_after_over(m, texts, n - 1);
    }
}

proof fn results_within_round(m: LoopModel, r: Round, n: int)
    requires
        m.wf(),
        m.phase == Phase::Requesting,
        r.asks_for_tools(),
        0 <= n <= r.results.len(),
    ensures
        ({
            let asked = tool_call_message(r.response.content, r.response.tool_calls);
            let added = seq![asked] + r.result_messages(n);
            let after = after_results(after_response(m, r.response), r.results, n);
            let last = n == r.results.len();
            let at_limit = m.iterations + 1 >= m.max_iterations;
            &&& after.messages == m.messages + added
            &&& after.new_messages == m.new_messages + added
            &&& after.pending == r.response.tool_calls
            &&& after.done == n
            &&& after.iterations == m.iterations + 1
            &&& after.max_iterations == m.max_iterations
            &&& after.phase == if !last {
                Phase::RunningTools
            } else if at_limit {
                Phase::LimitReached
            } else {
                Phase::Requesting
            }
            &&& after.reply == if last && at_limit {
                Some(TOOL_LIMIT_REPLY@)
            } else {
                m.reply
            }
        }),
    decreases n,
{
    let asked = tool_call_message(r.response.content, r.response.tool_calls);
    let first = after_response(m, r.response);
    if n == 0 {
        assert(seq![asked] + r.result_messages(0) =~= seq![asked]);
        assert(first.messages =~= m.messages + seq![asked]);
        assert(first.new_messages =~= m.new_messages + seq![asked]);
    } else {
        results_within_round(m, r, n - 1);
        let before = after_results(first, r.results, n - 1);
        let after = after_tool(before, r.results[n - 1]);
        let result = tool_result_message(r.response.tool_calls[n - 1].id, r.results[n - 1]);
        assert(r.result_messages(n) =~= r.result_messages(n - 1).push(result));
        assert(seq![asked] + r.result_messages(n) =~= (seq![asked] + r.result_messages(
            n - 1,
        )).push(result));
        assert(after.messages =~= m.messages + (seq![asked] + r.result_messages(n)));
        assert(after.new_messages =~= m.new_messages + (seq![asked] + r.result_messages(n)));
    }
}

/// A round that asks for tools adds its messages to the conversation, in
/// order, and counts as one iteration. After it the model is asked again,
/// unless it has then asked for tools as often as it may: in that case the
/// turn is over, and the reply is the fixed one.
pub proof fn round_is_recorded(m: LoopModel, r: Round)
    requires
        m.wf(),
        m.phase == Phase::Requesting,
        r.asks_for_tools(),
    ensures
        ({
            let after = after_round(m, r);
            let at_limit = m.iterations + 1 >= m.max_iterations;
            &&& after.wf()
            &&& after.messages == m.messages + r.messages()
            &&& after.new_messages == m.new_messages + r.messages()
            &&& after.iterations == m.iterations + 1
            &&& after.max_iterations == m.max_iterations
            &&& after.phase == if at_limit {
                Phase::LimitReached
            } else {
                Phase::Requesting
            }
            &&& after.reply == if at_limit {
                Some(TOOL_LIMIT_REPLY@)
            } else {
                m.reply
            }
        }),
{
    results_within_round(m, r, r.results.len() as int);
}

/// The exchange ends within its bound. While the model keeps asking for
/// tools, each round is recorded in full, and with the round that uses up
/// the bound the turn is over: the reply is the fixed one, and everything
/// that the rounds added is there.
pub proof fn loop_ends_at_the_bound(
    context: Seq<MessageModel>,
    max_iterations: nat,
    script: Seq<Round>,
    n: int,
)
    requires
        0 <= n <= script.len(),
        n <= max_iterations,
        forall|i: int| 0 <= i < n ==> (#[trigger] script[i]).asks_for_tools(),
    ensures
        ({
            let after = after_rounds(started(context, max_iterations), script, n);
            &&& after.wf()
            &&& after.messages == context + script_messages(script, n)
            &&& after.new_messages == script_messages(script, n)
            &&& after.iterations == n
            &&& after.max_iterations == max_iterations
            &&& after.phase == if n == max_iterations {
                Phase::LimitReached
            } else {
                Phase::Requesting
            }
            &&& after.reply == if n == max_iterations {
                Some(TOOL_LIMIT_REPLY@)
            } else {
                None
            }
        }),
    decreases n,
{
    let start = started(context, max_iterations);
    if n == 0 {
        assert(start.messages =~= context + script_messages(script, 0));
        assert(start.new_messages =~= script_messages(script, 0));
    } else {
        loop_ends_at_the_bound(context, max_iterations, script, n - 1);
        let before = after_rounds(start, script, n - 1);
        let r = script[n - 1];
        round_is_recorded(before, r);
        let after = after_round(before, r);
        assert(after.messages =~= context + script_messages(script, n));
        assert(after.new_messages =~= script_messages(script, n));
    }
}

/// Rounds beyond the bound are not taken: the exchange stays as the round
/// that used up the bound left it.
pub proof fn rounds_beyond_the_bound_are_ignored(
    context: Seq<MessageModel>,
    max_iterations: nat,
    script: Seq<Round>,
    n: int,
)
    requires
        max_iterations <= n <= script.len(),
        forall|i: int| 0 <= i < max_iterations ==> (#[trigger] script[i]).asks_for_tools(),
    ensures
        after_rounds(started(context, max_iterations), script, n) == after_rounds(
            started(context, max_iterations),
            script,
            max_iterations as int,
        ),
        after_rounds(started(context, max_iterations), script, n).phase == Phase::LimitReached,
        after_rounds(started(context, max_iterations), script, n).reply == Some(
            TOOL_LIMIT_REPLY@,
        ),
    decreases n,
{
    let start = started(context, max_iterations);
    loop_ends_at_the_bound(context, max_iterations, script, max_iterations as int);
    if n > max_iterations {
        rounds_beyond_the_bound_are_ignored(context, max_iterations, script, n - 1);
        let before = after_rounds(start, script, n - 1);
        let r = script[n - 1];
        results_after_over(before, r.results, r.results.len() as int);
    }
}

/// Where every round holds one tool call, the rounds add two messages
/// each: the assistant's and the tool's.
pub proof fn one_call_per_round_adds_two(script: Seq<Round>, n: int)
    requires
        0 <= n <= script.len(),
        forall|i: int|
            0 <= i < n ==> (#[trigger] script[i]).asks_for_tools()
                && script[i].response.tool_calls.len() == 1,
    ensures
        script_messages(script, n).len() == 2 * n,
    decreases n,
{
    if n > 0 {
        one_call_per_round_adds_two(script, n - 1);
        assert(script[n - 1].asks_for_tools());
    }
}

/// Linked messages followed by linked messages are linked.
pub proof fn linked_append(a: Seq<MessageModel>, b: Seq<MessageModel>)
    requires
        linked(a),
        linked(b),
    ensures
        linked(a + b),
{
    let all = a + b;
    assert forall|j: int| 0 <= j < all.len() && (#[trigger] all[j]).tool_call_id is Some implies answers_a_call(
        all,
        j,
    ) by {
        if j < a.len() {
            assert(a[j] == all[j]);
            assert(answers_a_call(a, j));
            let (i, k) = choose|i: int, k: int|
                0 <= i < j && a[i].role == "assistant"@ && a[i].tool_calls is Some && 0 <= k
                    < a[i].tool_calls->0.len() && a[j].tool_call_id == Some(
                    #[trigger] a[i].tool_calls->0[k].id,
                );
            assert(all[i] == a[i]);
            assert(all[j].tool_call_id == Some(all[i].tool_calls->0[k].id));
        } else {
            let jb = j - a.len();
            assert(b[jb] == all[j]);
            assert(answers_a_call(b, jb));
            let (i, k) = choose|i: int, k: int|
                0 <= i < jb && b[i].role == "assistant"@ && b[i].tool_calls is Some && 0 <= k
                    < b[i].tool_calls->0.len() && b[jb].tool_call_id == Some(
                    #[trigger] b[i].tool_calls->0[k].id,
                );
            assert(all[i + a.len()] == b[i]);
            assert(all[j].tool_call_id == Some(all[i + a.len()].tool_calls->0[k].id));
        }
    }
}

/// Every tool result that the rounds add follows the assistant's message
/// that carries its call, and bears that call's id.
pub proof fn results_match_their_calls(script: Seq<Round>, n: int)
    requires
        0 <= n <= script.len(),
        forall|i: int| 0 <= i < n ==> (#[trigger] script[i]).asks_for_tools(),
    ensures
        linked(script_messages(script, n)),
    decreases n,
{
    if n > 0 {
        results_match_their_calls(script, n - 1);
        let r = script[n - 1];
        let added = r.messages();
        assert(r.asks_for_tools());
        assert forall|j: int| 0 <= j < added.len() && (#[trigger] added[j]).tool_call_id is Some implies answers_a_call(
            added,
            j,
        ) by {
            assert(j > 0);
            assert(added[0] == tool_call_message(r.response.content, r.response.tool_calls));
            assert(added[j] == r.result_messages(r.results.len() as int)[j - 1]);
            assert(added[j].tool_call_id == Some(added[0].tool_calls->0[j - 1].id));
        }
        linked_append(script_messages(script, n - 1), added);
    }
}

/// The tool definitions as they go into a chat request: none at all where
/// no tool is enabled, since an empty list is refused by some providers.
pub fn tools_argument(defs: Vec<ToolDef>) -> (r: Option<Vec<ToolDef>>)
    ensures
        match r {
            Some(d) => d == defs && defs@.len() > 0,
            None => defs@.len() == 0,
        },
{
    if defs.len() == 0 {
        None
    } else {
        Some(defs)
    }
}

/// The assistant: the conversations, the tools and the skills that every
/// turn works with.
pub struct Agent {
    pub sessions: SessionStore,
    pub tools: ToolRegistry,
    pub skills: Vec<SkillSummary>,
}

impl Agent {
    pub fn new(sessions: SessionStore, tools: ToolRegistry, skills: Vec<SkillSummary>) -> (a: Self)
        ensures
            a.sessions == sessions,
            a.tools == tools,
            a.skills == skills,
    {
        Agent { sessions, tools, skills }
    }

    /// Begins the turn for what `user` said on `channel`. The turn holds
    /// the conversation until it is finished. Where another turn holds the
    /// conversation there is no turn to begin yet, and nothing changes.
    pub fn handle_message(&mut self, text: &str, channel: &str, user: &str, now: i64) -> (turn:
        Option<Turn>)
        ensures
            final(self).sessions@ == acquired(old(self).sessions@, key_of(channel@, user@), now).0,
            final(self).tools == old(self).tools,
            final(self).skills == old(self).skills,
            match turn {
                Some(t) => acquired(old(self).sessions@, key_of(channel@, user@), now).1
                    matches Some(session) && t@ == begun(
                    session,
                    user@,
                    text@,
                    now,
                    SESSION_COMPRESS_THRESHOLD as nat,
                    MAX_TOOL_ITERATIONS as nat,
                ),
                None => acquired(old(self).sessions@, key_of(channel@, user@), now).1 is None,
            },
    {
        let key = session_key(channel, user);
        match self.sessions.get_or_create(key.as_str(), now) {
            Some(session) => Some(
                Turn::begin(
                    session,
                    user,
                    text,
                    now,
                    SESSION_COMPRESS_THRESHOLD,
                    MAX_TOOL_ITERATIONS,
                ),
            ),
            None => None,
        }
    }

    /// Finishes a turn: the conversation goes back to the store, and what
    /// the turn came to is handed out.
    pub fn finish_turn(&mut self, turn: Turn) -> (r: Result<AgentResponse, String>)
        ensures
            final(self).sessions@ == released(old(self).sessions@, turn@.session),
            final(self).tools == old(self).tools,
            final(self).skills == old(self).skills,
            match r {
                Ok(response) => turn@.outcome == Some(
                    Ok::<Option<Seq<char>>, Seq<char>>(response.text.deep_view()),
                ),
                Err(e) => match turn@.outcome {
                    Some(Err(error)) => e@ == error,
                    Some(Ok(_)) => false,
                    None => e@ == "Turn abandoned"@,
                },
            },
    {
        let (session, outcome) = turn.finish();
        self.sessions.release(session);
        outcome
    }

    /// The tool definitions that go into a chat request, if any tool is
    /// enabled.
    pub fn tool_schemas(&self) -> (r: Option<Vec<ToolDef>>)
        ensures
            match r {
                Some(defs) => crate::llm::defs_model(defs@) == by_name(
                    self.tools.kinds(),
                ).map_values(|k: ToolKind| tool_def_model(k)) && defs@.len() > 0,
                None => self.tools.kinds().len() == 0,
            },
    {
        let defs = self.tools.tool_defs();
        proof {
            assert(crate::llm::defs_model(defs@).len() == defs@.len());
        }
        tools_argument(defs)
    }
}

} // verus!
