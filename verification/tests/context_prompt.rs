use ikoro::context::{ContextBuilder, MemorySnapshot};
use ikoro::llm::Message;
use ikoro::memory::MemoryManager;
use ikoro::session::Session;
use ikoro::skills::{load_skills, SkillFile, SkillLoader, SkillSummary};

fn snapshot() -> MemorySnapshot {
    MemorySnapshot {
        identity: "ID".to_string(),
        user: "USER".to_string(),
        state: "STATE".to_string(),
        monthly: None,
        weekly: None,
    }
}

const HINT: &str = "\n\n---\n\nYou have access to tools. Use them to search memory, execute commands, or read files.\n";

#[test]
fn core_context_divides_the_three_files() {
    assert_eq!(
        MemoryManager::build_core_context("a", "b", "c"),
        "a\n\n---\n\nb\n\n---\n\nc"
    );
    assert_eq!(MemoryManager::build_core_context("", "", ""), "\n\n---\n\n\n\n---\n\n");
}

#[test]
fn system_prompt_without_extras() {
    let prompt = ContextBuilder::build_system_prompt(&snapshot(), &vec![]);
    assert_eq!(prompt, format!("ID\n\n---\n\nUSER\n\n---\n\nSTATE{}", HINT));
}

#[test]
fn system_prompt_with_summaries_and_skills() {
    let mut memory = snapshot();
    memory.monthly = Some("month".to_string());
    memory.weekly = Some("week".to_string());
    let skills = vec![
        SkillSummary {
            name: "brew".to_string(),
            description: "How to brew tea".to_string(),
            path: "/mem/skills/brew/SKILL.md".to_string(),
        },
        SkillSummary {
            name: "walk".to_string(),
            description: "".to_string(),
            path: "/mem/skills/walk/SKILL.md".to_string(),
        },
    ];
    let prompt = ContextBuilder::build_system_prompt(&memory, &skills);
    let expected = format!(
        "ID\n\n---\n\nUSER\n\n---\n\nSTATE\n\n---\n\n# This Month\n\nmonth\n\n---\n\n# This Week\n\nweek{}\n# Available Skills\n\n- **brew**: How to brew tea (use `read_file` to load: /mem/skills/brew/SKILL.md)\n- **walk**:  (use `read_file` to load: /mem/skills/walk/SKILL.md)\n",
        HINT
    );
    assert_eq!(prompt, expected);
}

#[test]
fn context_is_prompt_then_summary_then_history() {
    let mut session = Session::new("cli:alice", 1);
    session.summary = Some("They met.".to_string());
    session.messages.push(Message::user("one"));
    session.messages.push(Message::assistant("two"));
    session.messages.push(Message::user("three"));
    let messages = ContextBuilder::build_messages(&snapshot(), &session, &vec![]);
    assert_eq!(messages.len(), 5);
    assert_eq!(messages[0].role, "system");
    assert_eq!(
        messages[0].content.as_deref(),
        Some(format!("ID\n\n---\n\nUSER\n\n---\n\nSTATE{}", HINT).as_str())
    );
    assert_eq!(messages[1].role, "system");
    assert_eq!(messages[1].content.as_deref(), Some("Previous conversation summary:\nThey met."));
    let rest: Vec<&str> = messages[2..].iter().map(|m| m.content.as_deref().unwrap()).collect();
    assert_eq!(rest, vec!["one", "two", "three"]);
    assert_eq!(messages[4].role, "user");
    // The session is left as it was.
    assert_eq!(session.messages.len(), 3);
}

#[test]
fn context_without_summary_has_one_system_message() {
    let mut session = Session::new("cli:alice", 1);
    session.messages.push(Message::user("hello"));
    let messages = ContextBuilder::build_messages(&snapshot(), &session, &vec![]);
    assert_eq!(messages.len(), 2);
    assert_eq!(messages[1].content.as_deref(), Some("hello"));
}

#[test]
fn skill_description_is_the_first_plain_line() {
    assert_eq!(SkillLoader::describe("# Title\n\n   \nBrews tea.\nMore."), "Brews tea.");
    assert_eq!(SkillLoader::describe("#only\n# headings\n"), "");
    assert_eq!(SkillLoader::describe(""), "");
    assert_eq!(SkillLoader::describe("  indented # not a heading\r\nnext"), "  indented # not a heading");
    assert_eq!(SkillLoader::describe("\u{2003}\t\nafter unicode space"), "after unicode space");
}

#[test]
fn skills_are_listed_in_the_order_of_their_names() {
    let found = vec![
        SkillFile { name: "walk".to_string(), content: "# Walk\nGo outside.".to_string() },
        SkillFile { name: "brew".to_string(), content: "Make tea.".to_string() },
        SkillFile { name: "Zen".to_string(), content: "".to_string() },
        SkillFile { name: "brewing".to_string(), content: "# x\n\nLong brew.".to_string() },
    ];
    let skills = load_skills("/mem", &found);
    let names: Vec<&str> = skills.iter().map(|s| s.name.as_str()).collect();
    assert_eq!(names, vec!["Zen", "brew", "brewing", "walk"]);
    assert_eq!(skills[1].description, "Make tea.");
    assert_eq!(skills[1].path, "/mem/skills/brew/SKILL.md");
    assert_eq!(skills[2].description, "Long brew.");
    assert_eq!(skills[3].description, "Go outside.");
    assert_eq!(skills[0].description, "");
    let loader = SkillLoader::new("/mem/");
    assert_eq!(loader.skills_dir(), "/mem/skills");
    assert_eq!(loader.skill_file("a"), "/mem/skills/a/SKILL.md");
    assert!(loader.load_summaries(&vec![]).is_empty());
}
