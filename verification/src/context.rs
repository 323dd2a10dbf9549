//! What the model is sent at the start of a turn: the system prompt, the
//! summary of what was compressed, and the conversation so far.

use vstd::prelude::*;
use vstd::string::StringExecFns;
use crate::llm::{system_message, Message, MessageModel};
use crate::memory::core_context;
use crate::session::{Session, SessionModel};
use crate::skills::{SkillModel, SkillSummary};
use crate::text::concat;

verus! {

/// What the memory store holds of that which goes into every prompt, read
/// at the start of the turn. A core file that could not be read is empty.
#[derive(Debug)]
pub struct MemorySnapshot {
    pub identity: String,
    pub user: String,
    pub state: String,
    /// The summary of the current month, if there is one.
    pub monthly: Option<String>,
    /// The summary of the current week, if there is one.
    pub weekly: Option<String>,
}

/// A `MemorySnapshot`, as the contracts speak of it.
pub struct SnapshotModel {
    pub identity: Seq<char>,
    pub user: Seq<char>,
    pub state: Seq<char>,
    pub monthly: Option<Seq<char>>,
    pub weekly: Option<Seq<char>>,
}

impl View for MemorySnapshot {
    type V = SnapshotModel;

    open spec fn view(&self) -> SnapshotModel {
        SnapshotModel {
            identity: self.identity@,
            user: self.user@,
            state: self.state@,
            monthly: self.monthly.deep_view(),
            weekly: self.weekly.deep_view(),
        }
    }
}

/// What the prompt says of the tools.
pub const TOOLS_HINT: &'static str =
    "\n\n---\n\nYou have access to tools. Use them to search memory, execute commands, or read files.\n";

/// A periodic summary under its heading, or nothing where there is none.
pub open spec fn summary_block(heading: Seq<char>, summary: Option<Seq<char>>) -> Seq<char> {
    match summary {
        Some(s) => heading + s,
        None => Seq::empty(),
    }
}

/// How the prompt lists a skill: by name and one line, with the file that
/// holds the rest.
pub open spec fn skill_line(s: SkillModel) -> Seq<char> {
    "- **"@ + s.name + "**: "@ + s.description + " (use `read_file` to load: "@ + s.path + ")\n"@
}

/// The lines of the first `n` skills.
pub open spec fn skill_lines(skills: Seq<SkillModel>, n: int) -> Seq<char>
    decreases n,
{
    if n <= 0 {
        Seq::empty()
    } else {
        skill_lines(skills, n - 1) + skill_line(skills[n - 1])
    }
}

/// The list of skills under its heading, or nothing where there are none.
pub open spec fn skills_block(skills: Seq<SkillModel>) -> Seq<char> {
    if skills.len() == 0 {
        Seq::empty()
    } else {
        "\n# Available Skills\n\n"@ + skill_lines(skills, skills.len() as int)
    }
}

/// The system prompt: identity, user profile and current state with a
/// divider between each two; the summaries of the month and of the week
/// where there are any; the word on the tools; and the list of skills.
pub open spec fn system_prompt(memory: SnapshotModel, skills: Seq<SkillModel>) -> Seq<char> {
    core_context(memory.identity, memory.user, memory.state) + summary_block(
        "\n\n---\n\n# This Month\n\n"@,
        memory.monthly,
    ) + summary_block("\n\n---\n\n# This Week\n\n"@, memory.weekly) + TOOLS_HINT@ + skills_block(
        skills,
    )
}

/// The message that carries the summary of a conversation's compressed
/// part, if it has one.
pub open spec fn summary_messages(summary: Option<Seq<char>>) -> Seq<MessageModel> {
    match summary {
        Some(s) => seq![system_message("Previous conversation summary:\n"@ + s)],
        None => Seq::empty(),
    }
}

/// What the model is sent: the system prompt, the summary of the
/// compressed part, and every message of the conversation in its order. The
/// user's new message is the last of them.
pub open spec fn context_messages(
    memory: SnapshotModel,
    session: SessionModel,
    skills: Seq<SkillModel>,
) -> Seq<MessageModel> {
    seq![system_message(system_prompt(memory, skills))] + summary_messages(session.summary)
        + session.messages
}

/// Assembles what the model is sent.
pub struct ContextBuilder;

impl ContextBuilder {
    pub fn build_system_prompt(memory: &MemorySnapshot, skills: &Vec<SkillSummary>) -> (p: String)
        ensures
            p@ == system_prompt(memory@, skills.deep_view()),
    {
        let mut p = String::from_str(memory.identity.as_str());
        p.append("\n\n---\n\n");
        p.append(memory.user.as_str());
        p.append("\n\n---\n\n");
        p.append(memory.state.as_str());
        match &memory.monthly {
            Some(m) => {
                p.append("\n\n---\n\n# This Month\n\n");
                p.append(m.as_str());
            },
            None => {},
        }
        match &memory.weekly {
            Some(w) => {
                p.append("\n\n---\n\n# This Week\n\n");
                p.append(w.as_str());
            },
            None => {},
        }
        p.append(TOOLS_HINT);
        let ghost head = p@;
        assert(head =~= core_context(memory@.identity, memory@.user, memory@.state)
            + summary_block("\n\n---\n\n# This Month\n\n"@, memory@.monthly) + summary_block(
            "\n\n---\n\n# This Week\n\n"@,
            memory@.weekly,
        ) + TOOLS_HINT@);
        if skills.len() > 0 {
            p.append("\n# Available Skills\n\n");
            let mut i: usize = 0;
            while i < skills.len()
                invariant
                    i <= skills@.len(),
                    p@ == head + "\n# Available Skills\n\n"@ + skill_lines(
                        skills.deep_view(),
                        i as int,
                    ),
                decreases skills@.len() - i,
            {
                let s = &skills[i];
                assert(skills.deep_view()[i as int] == s@);
                p.append("- **");
                p.append(s.name.as_str());
                p.append("**: ");
                p.append(s.description.as_str());
                p.append(" (use `read_file` to load: ");
                p.append(s.path.as_str());
                p.append(")\n");
                i += 1;
            }
            assert(p@ =~= head + skills_block(skills.deep_view()));
        } else {
            assert(p@ =~= head + skills_block(skills.deep_view()));
        }
        p
    }

    /// The messages that the model is sent for the conversation `session`,
    /// whose last message is the user's new one.
    pub fn build_messages(
        memory: &MemorySnapshot,
        session: &Session,
        skills: &Vec<SkillSummary>,
    ) -> (messages: Vec<Message>)
        ensures
            messages.deep_view() == context_messages(memory@, session@, skills.deep_view()),
    {
        let mut messages: Vec<Message> = Vec::new();
        let prompt = Self::build_system_prompt(memory, skills);
        messages.push(Message::system(prompt.as_str()));
        match &session.summary {
            Some(summary) => {
                let text = concat("Previous conversation summary:\n", summary.as_str());
                messages.push(Message::system(text.as_str()));
            },
            None => {},
        }
        let ghost head = messages.deep_view();
        assert(head =~= seq![system_message(system_prompt(memory@, skills.deep_view()))]
            + summary_messages(session@.summary));
        let mut i: usize = 0;
        while i < session.messages.len()
            invariant
                i <= session.messages@.len(),
                messages.deep_view() == head + session.messages.deep_view().take(i as int),
            decreases session.messages@.len() - i,
        {
            let ghost before = messages.deep_view();
            messages.push(session.messages[i].clone());
            assert(messages.deep_view() =~= before.push(session.messages@[i as int]@));
            assert(session.messages.deep_view().take(i + 1) =~= session.messages.deep_view().take(
                i as int,
            ).push(session.messages@[i as int]@));
            i += 1;
        }
        assert(session.messages.deep_view().take(i as int) =~= session.messages.deep_view());
        messages
    }
}

} // verus!
