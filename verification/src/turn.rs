//! One inbound message from beginning to end: compress the conversation
//! if it has grown, record what the user said, save, build the context,
//! let the model and the tools work, record what came of it, save again.
//!
//! The turn is a state machine. In each phase its caller does the one
//! thing that the phase asks for and reports what came of it.

use vstd::prelude::*;
use vstd::string::StringExecFns;
use crate::agent::{
    after_failure, after_response, after_tool, started, tool_text, LoopModel, Phase, ToolLoop,
};
use crate::api::AgentResponse;
use crate::context::{context_messages, ContextBuilder, MemorySnapshot, SnapshotModel};
use crate::llm::{user_message, LlmResponse, Message, MessageModel, ResponseModel, ToolCall};
use crate::session::{compressed, Session, SessionModel};
use crate::skills::{SkillModel, SkillSummary};
use crate::tools::{ToolError, ToolResult};

verus! {

/// What the caller of a turn is to do next.
#[derive(Debug, Clone, Copy, PartialEq, Eq, Structural)]
pub enum TurnPhase {
    /// Ask the model for a summary of the conversation's older half.
    Summarizing,
    /// Save the conversation, which may have been compressed.
    SavingSummary,
    /// Save the conversation, which now ends with what the user said.
    SavingUser,
    /// Write what the user said to the daily log.
    LoggingUser,
    /// Read what the memory store holds for the prompt.
    ReadingMemory,
    /// Serve the exchange between the model and the tools.
    Exchanging,
    /// Save the conversation, which now holds what the turn came to.
    SavingReply,
    /// Write the reply to the daily log.
    LoggingReply,
    /// Nothing: the turn is over.
    Done,
}

/// A turn, as the contracts speak of it.
pub struct TurnState {
    pub session: SessionModel,
    pub user: Seq<char>,
    pub text: Seq<char>,
    /// From how many messages on the conversation is compressed.
    pub threshold: nat,
    /// How many times the model may ask for tools.
    pub max_iterations: nat,
    pub phase: TurnPhase,
    /// The exchange, in the phase `Exchanging`.
    pub exchange: Option<LoopModel>,
    /// The reply, once the exchange is over.
    pub reply: Option<Seq<char>>,
    /// What the turn came to, in the phase `Done`: the reply, or the error
    /// that ended the turn.
    pub outcome: Option<Result<Option<Seq<char>>, Seq<char>>>,
}

/// The conversation with what the user said at its end.
pub open spec fn with_user(s: SessionModel, text: Seq<char>, now: i64) -> SessionModel {
    SessionModel { messages: s.messages.push(user_message(text)), updated_at: now, ..s }
}

/// A turn at its beginning. A conversation that has grown to the threshold
/// is compressed first; any other gets what the user said at once.
pub open spec fn begun(
    session: SessionModel,
    user: Seq<char>,
    text: Seq<char>,
    now: i64,
    threshold: nat,
    max_iterations: nat,
) -> TurnState {
    let t = TurnState {
        session,
        user,
        text,
        threshold,
        max_iterations,
        phase: TurnPhase::Summarizing,
        exchange: None,
        reply: None,
        outcome: None,
    };
    if session.messages.len() >= threshold {
        t
    } else {
        TurnState { session: with_user(session, text, now), phase: TurnPhase::SavingUser, ..t }
    }
}

/// The turn ended by the error `e`.
pub open spec fn failed(t: TurnState, e: Seq<char>) -> TurnState {
    TurnState { phase: TurnPhase::Done, exchange: None, outcome: Some(Err(e)), ..t }
}

/// The text, or nothing where there is none.
pub open spec fn summary_text(t: Option<Seq<char>>) -> Seq<char> {
    match t {
        Some(s) => s,
        None => Seq::empty(),
    }
}

/// The turn after the model was asked for a summary. A summary compresses
/// the conversation; without one the conversation stays as it is, and the
/// turn goes on all the same.
pub open spec fn summarized(t: TurnState, summary: Result<Option<Seq<char>>, Seq<char>>) -> TurnState {
    if t.phase != TurnPhase::Summarizing {
        t
    } else {
        TurnState {
            session: match summary {
                Ok(text) => compressed(t.session, t.threshold, summary_text(text)),
                Err(_) => t.session,
            },
            phase: TurnPhase::SavingSummary,
            ..t
        }
    }
}

/// The turn after the conversation was saved, or could not be. A failure
/// ends the turn with its error; the conversation keeps what it holds.
pub open spec fn saved(t: TurnState, result: Result<(), Seq<char>>, now: i64) -> TurnState {
    match t.phase {
        TurnPhase::SavingSummary => match result {
            Ok(()) => TurnState {
                session: with_user(t.session, t.text, now),
                phase: TurnPhase::SavingUser,
                ..t
            },
            Err(e) => failed(t, e),
        },
        TurnPhase::SavingUser => match result {
            Ok(()) => TurnState { phase: TurnPhase::LoggingUser, ..t },
            Err(e) => failed(t, e),
        },
        TurnPhase::SavingReply => match result {
            Ok(()) => if t.reply is Some {
                TurnState { phase: TurnPhase::LoggingReply, ..t }
            } else {
                TurnState { phase: TurnPhase::Done, outcome: Some(Ok(t.reply)), ..t }
            },
            Err(e) => failed(t, e),
        },
        _ => t,
    }
}

/// The turn after the daily log was written to, or could not be.
pub open spec fn logged(t: TurnState) -> TurnState {
    match t.phase {
        TurnPhase::LoggingUser => TurnState { phase: TurnPhase::ReadingMemory, ..t },
        TurnPhase::LoggingReply => TurnState {
            phase: TurnPhase::Done,
            outcome: Some(Ok(t.reply)),
            ..t
        },
        _ => t,
    }
}

/// The turn with its exchange at `l`. An exchange that is over ends the
/// turn where the model could not be reached; otherwise what the exchange
/// added goes into the conversation, which is then to be saved.
pub open spec fn settled(t: TurnState, l: LoopModel, now: i64) -> TurnState {
    if !l.is_over() {
        TurnState { exchange: Some(l), phase: TurnPhase::Exchanging, ..t }
    } else if l.phase == Phase::Failed {
        failed(t, summary_text(l.reply))
    } else {
        TurnState {
            session: SessionModel {
                messages: t.session.messages + l.new_messages,
                updated_at: now,
                ..t.session
            },
            reply: l.reply,
            exchange: None,
            phase: TurnPhase::SavingReply,
            ..t
        }
    }
}

/// The turn after the memory store was read: the exchange begins, with the
/// context built from the memory, the conversation and the skills.
pub open spec fn informed(
    t: TurnState,
    memory: SnapshotModel,
    skills: Seq<SkillModel>,
    now: i64,
) -> TurnState {
    if t.phase != TurnPhase::ReadingMemory {
        t
    } else {
        settled(t, started(context_messages(memory, t.session, skills), t.max_iterations), now)
    }
}

/// The turn after the model's answer, or after it could not be reached.
pub open spec fn answered(t: TurnState, r: Result<ResponseModel, Seq<char>>, now: i64) -> TurnState {
    if t.phase != TurnPhase::Exchanging || t.exchange is None {
        t
    } else {
        match r {
            Ok(response) => settled(t, after_response(t.exchange->0, response), now),
            Err(e) => settled(t, after_failure(t.exchange->0, e), now),
        }
    }
}

/// The turn after a tool call ran and `text` is what the model is told of
/// it.
pub open spec fn tool_ran(t: TurnState, text: Seq<char>, now: i64) -> TurnState {
    if t.phase != TurnPhase::Exchanging || t.exchange is None {
        t
    } else {
        settled(t, after_tool(t.exchange->0, text), now)
    }
}

/// How the daily log records what `who` said in the conversation `key`.
pub open spec fn log_entry(key: Seq<char>, who: Seq<char>, text: Seq<char>) -> Seq<char> {
    "["@ + key + "] "@ + who + ": "@ + text
}

/// The name under which the assistant's replies are logged.
pub const ASSISTANT_NAME: &'static str = "1koro";

/// One inbound message on its way through the assistant.
pub struct Turn {
    session: Session,
    user: String,
    text: String,
    threshold: usize,
    max_iterations: usize,
    phase: TurnPhase,
    exchange: Option<ToolLoop>,
    reply: Option<String>,
    outcome: Option<Result<Option<String>, String>>,
}

/// What a turn came to, as the contracts speak of it.
pub open spec fn outcome_model(o: Option<Result<Option<String>, String>>) -> Option<
    Result<Option<Seq<char>>, Seq<char>>,
> {
    match o {
        Some(Ok(r)) => Some(Ok(r.deep_view())),
        Some(Err(e)) => Some(Err(e@)),
        None => None,
    }
}

/// The exchange, as the contracts speak of it.
pub open spec fn exchange_model(l: Option<ToolLoop>) -> Option<LoopModel> {
    match l {
        Some(x) => Some(x@),
        None => None,
    }
}

impl View for Turn {
    type V = TurnState;

    closed spec fn view(&self) -> TurnState {
        TurnState {
            session: self.session@,
            user: self.user@,
            text: self.text@,
            threshold: self.threshold as nat,
            max_iterations: self.max_iterations as nat,
            phase: self.phase,
            exchange: exchange_model(self.exchange),
            reply: self.reply.deep_view(),
            outcome: outcome_model(self.outcome),
        }
    }
}

impl Turn {
    /// Begins a turn on a conversation that the store has handed out.
    pub fn begin(
        session: Session,
        user: &str,
        text: &str,
        now: i64,
        threshold: usize,
        max_iterations: usize,
    ) -> (t: Self)
        ensures
            t@ == begun(session@, user@, text@, now, threshold as nat, max_iterations as nat),
    {
        let mut session = session;
        let phase = if session.needs_compression(threshold) {
            TurnPhase::Summarizing
        } else {
            session.push_user(text, now);
            TurnPhase::SavingUser
        };
        Turn {
            session,
            user: String::from_str(user),
            text: String::from_str(text),
            threshold,
            max_iterations,
            phase,
            exchange: None,
            reply: None,
            outcome: None,
        }
    }

    pub fn phase(&self) -> (p: TurnPhase)
        ensures
            p == self@.phase,
    {
        self.phase
    }

    /// The conversation as it is to be saved.
    pub fn session(&self) -> (s: &Session)
        ensures
            s@ == self@.session,
    {
        &self.session
    }

    /// What the model is sent for a summary, in the phase `Summarizing`.
    pub fn summary_request(&self) -> (r: Option<Vec<Message>>)
        ensures
            match r {
                Some(request) => request.deep_view() == crate::session::summary_request(
                    self@.session.messages,
                ),
                None => self@.phase != TurnPhase::Summarizing || self@.session.messages.len()
                    < self@.threshold,
            },
    {
        if self.phase == TurnPhase::Summarizing {
            self.session.compression_request(self.threshold)
        } else {
            None
        }
    }

    /// The line for the daily log, in the phases `LoggingUser` and
    /// `LoggingReply`.
    pub fn log_line(&self) -> (r: Option<String>)
        ensures
            r.deep_view() == match self@.phase {
                TurnPhase::LoggingUser => Some(
                    log_entry(self@.session.key, self@.user, self@.text),
                ),
                TurnPhase::LoggingReply => match self@.reply {
                    Some(reply) => Some(log_entry(self@.session.key, ASSISTANT_NAME@, reply)),
                    None => None,
                },
                _ => None,
            },
    {
        let (who, text) = match self.phase {
            TurnPhase::LoggingUser => (self.user.as_str(), self.text.as_str()),
            TurnPhase::LoggingReply => match &self.reply {
                Some(reply) => (ASSISTANT_NAME, reply.as_str()),
                None => {
                    return None;
                },
            },
            _ => {
                return None;
            },
        };
        let mut line = String::from_str("[");
        line.append(self.session.key.as_str());
        line.append("] ");
        line.append(who);
        line.append(": ");
        line.append(text);
        Some(line)
    }

    /// What the model is sent next, in the phase `Exchanging` while the
    /// exchange is in its phase `Requesting`.
    pub fn request(&self) -> (r: Option<&Vec<Message>>)
        ensures
            match r {
                Some(messages) => self@.exchange matches Some(l) && l.phase == Phase::Requesting
                    && messages.deep_view() == l.messages,
                None => !(self@.exchange matches Some(l) && l.phase == Phase::Requesting),
            },
    {
        match &self.exchange {
            Some(l) => match l.phase() {
                Phase::Requesting => Some(l.request()),
                _ => None,
            },
            None => None,
        }
    }

    /// The tool call that is to run next, in the phase `Exchanging` while
    /// the exchange is in its phase `RunningTools`.
    pub fn current_call(&self) -> (c: Option<&ToolCall>)
        ensures
            match c {
                Some(call) => self@.exchange matches Some(l) && l.phase == Phase::RunningTools
                    && l.done < l.pending.len() && call@ == l.pending[l.done as int],
                None => !(self@.exchange matches Some(l) && l.phase == Phase::RunningTools),
            },
    {
        match &self.exchange {
            Some(l) => l.current_call(),
            None => None,
        }
    }

    /// Takes the model's summary of the conversation's older half, or the
    /// news that there is none.
    pub fn on_summary(self, summary: Result<Option<String>, String>) -> (next: Self)
        ensures
            next@ == summarized(
                self@,
                match summary {
                    Ok(text) => Ok(text.deep_view()),
                    Err(e) => Err(e@),
                },
            ),
    {
        if self.phase != TurnPhase::Summarizing {
            return self;
        }
        let mut next = self;
        match summary {
            Ok(Some(text)) => next.session.compress(next.threshold, text.as_str()),
            Ok(None) => {
                proof {
                    reveal_strlit("");
                    assert(""@ =~= Seq::<char>::empty());
                }
                next.session.compress(next.threshold, "")
            },
            Err(_) => {},
        }
        next.phase = TurnPhase::SavingSummary;
        next
    }

    /// Takes the news that the conversation was saved, or could not be.
    pub fn on_saved(self, result: Result<(), String>, now: i64) -> (next: Self)
        ensures
            next@ == saved(
                self@,
                match result {
                    Ok(()) => Ok(()),
                    Err(e) => Err(e@),
                },
                now,
            ),
    {
        let mut next = self;
        match next.phase {
            TurnPhase::SavingSummary => match result {
                Ok(()) => {
                    let text = next.text.clone();
                    next.session.push_user(text.as_str(), now);
                    next.phase = TurnPhase::SavingUser;
                },
                Err(e) => {
                    next.phase = TurnPhase::Done;
                    next.exchange = None;
                    next.outcome = Some(Err(e));
                },
            },
            TurnPhase::SavingUser => match result {
                Ok(()) => {
                    next.phase = TurnPhase::LoggingUser;
                },
                Err(e) => {
                    next.phase = TurnPhase::Done;
                    next.exchange = None;
                    next.outcome = Some(Err(e));
                },
            },
            TurnPhase::SavingReply => match result {
                Ok(()) => {
                    if next.reply.is_some() {
                        next.phase = TurnPhase::LoggingReply;
                    } else {
                        next.phase = TurnPhase::Done;
                        next.outcome = Some(Ok(None));
                    }
                },
                Err(e) => {
                    next.phase = TurnPhase::Done;
                    next.exchange = None;
                    next.outcome = Some(Err(e));
                },
            },
            _ => {},
        }
        next
    }

    /// Takes the news that the daily log was written to, or could not be:
    /// the turn goes on either way.
    pub fn on_logged(self) -> (next: Self)
        ensures
            next@ == logged(self@),
    {
        let mut next = self;
        match next.phase {
            TurnPhase::LoggingUser => {
                next.phase = TurnPhase::ReadingMemory;
            },
            TurnPhase::LoggingReply => {
                next.phase = TurnPhase::Done;
                next.outcome = Some(Ok(crate::llm::clone_text(&next.reply)));
            },
            _ => {},
        }
        next
    }

    fn settle(self, l: ToolLoop, now: i64) -> (next: Self)
        requires
            self.exchange is None,
        ensures
            next@ == settled(self@, l@, now),
    {
        let mut next = self;
        match l.phase() {
            Phase::Requesting | Phase::RunningTools => {
                next.exchange = Some(l);
                next.phase = TurnPhase::Exchanging;
            },
            Phase::Failed => {
                let (reply, _) = l.finish();
                let error = match reply {
                    Some(e) => e,
                    None => String::new(),
                };
                next.phase = TurnPhase::Done;
                next.outcome = Some(Err(error));
            },
            _ => {
                let (reply, new_messages) = l.finish();
                next.session.extend(new_messages, now);
                next.reply = reply;
                next.phase = TurnPhase::SavingReply;
            },
        }
        next
    }

    /// Takes what the memory store holds for the prompt, and begins the
    /// exchange between the model and the tools.
    pub fn on_memory(self, memory: &MemorySnapshot, skills: &Vec<SkillSummary>, now: i64) -> (next:
        Self)
        ensures
            next@ == informed(self@, memory@, skills.deep_view(), now),
    {
        if self.phase != TurnPhase::ReadingMemory {
            return self;
        }
        let messages = ContextBuilder::build_messages(memory, &self.session, skills);
        let l = ToolLoop::new(messages, self.max_iterations);
        let mut next = self;
        next.exchange = None;
        next.settle(l, now)
    }

    /// Takes the model's answer, or the news that the model could not be
    /// reached.
    pub fn on_response(self, response: Result<LlmResponse, String>, now: i64) -> (next: Self)
        ensures
            next@ == answered(
                self@,
                match response {
                    Ok(r) => Ok(r@),
                    Err(e) => Err(e@),
                },
                now,
            ),
    {
        if self.phase != TurnPhase::Exchanging {
            return self;
        }
        let mut next = self;
        match next.exchange.take() {
            None => next,
            Some(l) => {
                let l = match response {
                    Ok(r) => l.on_response(r),
                    Err(e) => l.on_failure(e),
                };
                next.settle(l, now)
            },
        }
    }

    /// Takes the outcome of the tool call that ran.
    pub fn on_tool_result(self, result: Result<ToolResult, ToolError>, now: i64) -> (next: Self)
        ensures
            next@ == tool_ran(
                self@,
                tool_text(
                    match result {
                        Ok(r) => Ok(r.for_llm@),
                        Err(e) => Err(e@),
                    },
                ),
                now,
            ),
    {
        if self.phase != TurnPhase::Exchanging {
            return self;
        }
        let mut next = self;
        match next.exchange.take() {
            None => next,
            Some(l) => {
                let l = l.on_tool_result(result);
                next.settle(l, now)
            },
        }
    }

    /// Ends the turn: hands back the conversation, for the store, and what
    /// the turn came to. A turn that is not over has failed.
    pub fn finish(self) -> (r: (Session, Result<AgentResponse, String>))
        ensures
            r.0@ == self@.session,
            match r.1 {
                Ok(response) => self@.outcome == Some(
                    Ok::<Option<Seq<char>>, Seq<char>>(response.text.deep_view()),
                ) && response.actions@.len() == 0,
                Err(e) => match self@.outcome {
                    Some(Err(error)) => e@ == error,
                    Some(Ok(_)) => false,
                    None => e@ == "Turn abandoned"@,
                },
            },
    {
        let outcome = match self.outcome {
            Some(Ok(text)) => Ok(AgentResponse { text, actions: Vec::new() }),
            Some(Err(e)) => Err(e),
            None => Err(String::from_str("Turn abandoned")),
        };
        (self.session, outcome)
    }
}

/// What the user said is in the conversation before anything else
/// happens: whenever the conversation is to be saved for the user's turn,
/// its last message is the user's.
pub proof fn user_turn_is_recorded_first(
    session: SessionModel,
    user: Seq<char>,
    text: Seq<char>,
    now: i64,
    threshold: nat,
    max_iterations: nat,
    summary: Result<Option<Seq<char>>, Seq<char>>,
    later: i64,
)
    ensures
        ({
            let t = begun(session, user, text, now, threshold, max_iterations);
            let after = saved(summarized(t, summary), Ok(()), later);
            &&& t.phase == TurnPhase::SavingUser ==> t.session.messages.last() == user_message(
                text,
            )
            &&& t.phase == TurnPhase::Summarizing ==> after.phase == TurnPhase::SavingUser
                && after.session.messages.last() == user_message(text)
        }),
{
}

/// The model is asked only after the conversation with the user's message
/// was saved: where saving fails the turn ends with the error, and the
/// conversation still holds what the user said.
pub proof fn failed_save_ends_the_turn(t: TurnState, e: Seq<char>, now: i64)
    requires
        t.phase == TurnPhase::SavingUser || t.phase == TurnPhase::SavingSummary || t.phase
            == TurnPhase::SavingReply,
    ensures
        saved(t, Err(e), now).phase == TurnPhase::Done,
        saved(t, Err(e), now).outcome == Some(Err::<Option<Seq<char>>, Seq<char>>(e)),
        saved(t, Err(e), now).session == t.session,
        saved(t, Err(e), now).exchange is None,
{
}

/// A turn keeps the conversation in order: where every tool result in the
/// conversation followed its call before, and every tool result that the
/// exchange added follows its call, the same holds after the turn.
pub proof fn turn_keeps_results_with_their_calls(
    history: Seq<MessageModel>,
    text: Seq<char>,
    added: Seq<MessageModel>,
)
    requires
        crate::agent::linked(history),
        crate::agent::linked(added),
    ensures
        crate::agent::linked(history.push(user_message(text)) + added),
{
    let said = seq![user_message(text)];
    assert(crate::agent::linked(said));
    crate::agent::linked_append(history, said);
    assert(history + said =~= history.push(user_message(text)));
    crate::agent::linked_append(history.push(user_message(text)), added);
}

/// A failed summary does not fail the turn: the conversation stays as it
/// is and the turn goes on.
pub proof fn failed_summary_is_skipped(t: TurnState, e: Seq<char>)
    requires
        t.phase == TurnPhase::Summarizing,
    ensures
        summarized(t, Err(e)).session == t.session,
        summarized(t, Err(e)).phase == TurnPhase::SavingSummary,
        summarized(t, Err(e)).outcome == t.outcome,
{
}

/// A turn in which the model answers with text and asks for no tool adds
/// two messages to the conversation, the user's and the assistant's, and
/// the text is the reply.
pub proof fn plain_reply_adds_two_messages(
    session: SessionModel,
    user: Seq<char>,
    text: Seq<char>,
    now: i64,
    threshold: nat,
    max_iterations: nat,
    memory: SnapshotModel,
    skills: Seq<SkillModel>,
    answer: Seq<char>,
)
    requires
        session.messages.len() < threshold,
        max_iterations > 0,
    ensures
        ({
            let t0 = begun(session, user, text, now, threshold, max_iterations);
            let t1 = logged(saved(t0, Ok(()), now));
            let t2 = informed(t1, memory, skills, now);
            let t3 = answered(
                t2,
                Ok(ResponseModel { content: Some(answer), tool_calls: Seq::empty() }),
                now,
            );
            let t4 = logged(saved(t3, Ok(()), now));
            &&& t3.phase == TurnPhase::SavingReply
            &&& t3.session.messages == session.messages.push(user_message(text)).push(
                crate::llm::assistant_message(answer),
            )
            &&& t4.phase == TurnPhase::Done
            &&& t4.outcome == Some(Ok::<Option<Seq<char>>, Seq<char>>(Some(answer)))
        }),
{
    let t0 = begun(session, user, text, now, threshold, max_iterations);
    let t1 = logged(saved(t0, Ok(()), now));
    let t2 = informed(t1, memory, skills, now);
    let t3 = answered(
        t2,
        Ok(ResponseModel { content: Some(answer), tool_calls: Seq::empty() }),
        now,
    );
    assert(t3.session.messages =~= session.messages.push(user_message(text)).push(
        crate::llm::assistant_message(answer),
    ));
}

} // verus!
