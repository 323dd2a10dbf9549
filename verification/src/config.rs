//! The settings that the assistant is started with, and their defaults.

use vstd::prelude::*;
use vstd::string::StringExecFns;
use crate::text::{chars_of, join_path, joined, string_of};

verus! {

/// Who the assistant is.
#[derive(Debug)]
pub struct AgentConfig {
    pub name: String,
}

/// Which model answers, and how it is reached.
#[derive(Debug)]
pub struct LlmConfig {
    pub provider: String,
    /// Where the provider is reached, unless at its usual address.
    pub base_url: Option<String>,
    pub model: String,
    pub api_key: String,
    pub max_tokens: u32,
}

#[derive(Debug)]
pub struct SlackConfig {
    pub enabled: bool,
    pub bot_token: String,
    pub app_token: String,
}

#[derive(Debug)]
pub struct DiscordConfig {
    pub enabled: bool,
    pub token: String,
    pub guild_id: Option<String>,
}

/// The channels besides the local ones.
#[derive(Debug)]
pub struct ChannelsConfig {
    pub slack: Option<SlackConfig>,
    pub discord: Option<DiscordConfig>,
}

/// The tool-access protocol's listener.
#[derive(Debug)]
pub struct McpConfig {
    pub enabled: bool,
    pub bind: String,
    pub api_key: Option<String>,
}

/// The message endpoint's listener.
#[derive(Debug)]
pub struct ApiConfig {
    pub bind: String,
    pub api_key: Option<String>,
}

/// Which tools beyond the memory tools are enabled.
#[derive(Debug)]
pub struct ToolsConfig {
    pub shell_enabled: bool,
    /// How many seconds a shell command may run.
    pub shell_timeout: u64,
}

/// Where the memory store lives and how much of it enters a prompt.
#[derive(Debug)]
pub struct MemoryConfig {
    pub base_dir: String,
    pub core_memory_max_tokens: u32,
}

/// When the periodic summaries are made, in cron notation.
#[derive(Debug)]
pub struct CronConfig {
    pub daily_summary: String,
    pub weekly_summary: String,
}

#[derive(Debug)]
pub struct Config {
    pub agent: AgentConfig,
    pub llm: LlmConfig,
    pub channels: ChannelsConfig,
    pub mcp: McpConfig,
    pub api: ApiConfig,
    pub tools: ToolsConfig,
    pub memory: MemoryConfig,
    pub cron: CronConfig,
}

pub fn default_max_tokens() -> (n: u32)
    ensures
        n == 8192,
{
    8192
}

pub fn default_mcp_bind() -> (s: String)
    ensures
        s@ == "127.0.0.1:3000"@,
{
    String::from_str("127.0.0.1:3000")
}

pub fn default_api_bind() -> (s: String)
    ensures
        s@ == "127.0.0.1:3000"@,
{
    String::from_str("127.0.0.1:3000")
}

pub fn default_shell_timeout() -> (n: u64)
    ensures
        n == 30,
{
    30
}

pub fn default_core_memory_max_tokens() -> (n: u32)
    ensures
        n == 2000,
{
    2000
}

pub fn default_daily_cron() -> (s: String)
    ensures
        s@ == "0 3 * * *"@,
{
    String::from_str("0 3 * * *")
}

pub fn default_weekly_cron() -> (s: String)
    ensures
        s@ == "0 4 * * 1"@,
{
    String::from_str("0 4 * * 1")
}

/// `dirs::home_dir`: the home directory of the user who runs the process,
/// if the system knows of one. Nothing is claimed of it.
#[verifier::external_body]
fn home_dir() -> (home: Option<String>) {
    dirs::home_dir().map(|p| p.to_string_lossy().into_owned())
}

/// Where the memory store lives for a user whose home directory is
/// `home`: in `.1koro` below it, or below the working directory where the
/// home directory is not known.
pub open spec fn base_dir_below(home: Option<Seq<char>>) -> Seq<char> {
    match home {
        Some(h) => joined(h, ".1koro"@),
        None => joined("."@, ".1koro"@),
    }
}

pub fn base_dir_for(home: &Option<String>) -> (dir: String)
    ensures
        dir@ == base_dir_below(home.deep_view()),
{
    match home {
        Some(h) => join_path(h.as_str(), ".1koro"),
        None => join_path(".", ".1koro"),
    }
}

/// Where the memory store lives unless the settings say otherwise.
pub fn default_base_dir() -> (dir: String)
    ensures
        exists|home: Option<Seq<char>>| dir@ == base_dir_below(home),
{
    let home = home_dir();
    base_dir_for(&home)
}

/// `path` with the home directory `home` in place of a leading `~/`.
/// Without a home directory, and without that beginning, the path stays.
pub open spec fn tilde_expanded(path: Seq<char>, home: Option<Seq<char>>) -> Seq<char> {
    match home {
        Some(h) => if path.len() >= 2 && path[0] == '~' && path[1] == '/' {
            joined(h, path.skip(2))
        } else {
            path
        },
        None => path,
    }
}

pub fn expand_tilde_in(path: &str, home: &Option<String>) -> (r: String)
    ensures
        r@ == tilde_expanded(path@, home.deep_view()),
{
    let p = chars_of(path);
    match home {
        Some(h) => {
            if p.len() >= 2 && p[0] == '~' && p[1] == '/' {
                let rest = string_of(&p, 2, p.len());
                assert(p@.subrange(2, p@.len() as int) =~= path@.skip(2));
                join_path(h.as_str(), rest.as_str())
            } else {
                String::from_str(path)
            }
        },
        None => String::from_str(path),
    }
}

/// `path` with the user's home directory in place of a leading `~/`.
pub fn expand_tilde(path: &str) -> (r: String)
    ensures
        exists|home: Option<Seq<char>>| r@ == tilde_expanded(path@, home),
{
    let home = home_dir();
    expand_tilde_in(path, &home)
}

impl Default for McpConfig {
    fn default() -> (c: Self)
        ensures
            !c.enabled,
            c.bind@ == "127.0.0.1:3000"@,
            c.api_key is None,
    {
        McpConfig { enabled: false, bind: default_mcp_bind(), api_key: None }
    }
}

impl Default for ApiConfig {
    fn default() -> (c: Self)
        ensures
            c.bind@ == "127.0.0.1:3000"@,
            c.api_key is None,
    {
        ApiConfig { bind: default_api_bind(), api_key: None }
    }
}

impl Default for ToolsConfig {
    fn default() -> (c: Self)
        ensures
            !c.shell_enabled,
            c.shell_timeout == 30,
    {
        ToolsConfig { shell_enabled: false, shell_timeout: default_shell_timeout() }
    }
}

impl Default for ChannelsConfig {
    fn default() -> (c: Self)
        ensures
            c.slack is None,
            c.discord is None,
    {
        ChannelsConfig { slack: None, discord: None }
    }
}

impl Default for MemoryConfig {
    fn default() -> (c: Self)
        ensures
            c.core_memory_max_tokens == 2000,
            exists|home: Option<Seq<char>>| c.base_dir@ == base_dir_below(home),
    {
        MemoryConfig {
            base_dir: default_base_dir(),
            core_memory_max_tokens: default_core_memory_max_tokens(),
        }
    }
}

impl Default for CronConfig {
    fn default() -> (c: Self)
        ensures
            c.daily_summary@ == "0 3 * * *"@,
            c.weekly_summary@ == "0 4 * * 1"@,
    {
        CronConfig { daily_summary: default_daily_cron(), weekly_summary: default_weekly_cron() }
    }
}

pub const IDENTITY_TEMPLATE: &'static str =
    "# Identity\n\nI am 1koro, a personal AI agent. I remember everything.\n";

pub const USER_TEMPLATE: &'static str = "# User\n\n(Not yet configured)\n";

pub const STATE_TEMPLATE: &'static str = "# State\n\n(No state yet)\n";

pub const CONFIG_TEMPLATE: &'static str =
    "[agent]\nname = \"1koro\"\n\n[llm]\nprovider = \"minimax\"\n# base_url = \"https://api.minimaxi.chat/v1\"  # optional, uses provider default\nmodel = \"MiniMax-M1\"\napi_key = \"YOUR_API_KEY\"\nmax_tokens = 8192\n\n# [channels.slack]\n# enabled = true\n# bot_token = \"xoxb-YOUR_BOT_TOKEN\"\n# app_token = \"xapp-YOUR_APP_TOKEN\"\n\n# [channels.discord]\n# enabled = true\n# token = \"YOUR_BOT_TOKEN\"\n\n[mcp]\nenabled = false\nbind = \"127.0.0.1:3000\"\n\n[memory]\ncore_memory_max_tokens = 2000\n\n[cron]\ndaily_summary = \"0 3 * * *\"\nweekly_summary = \"0 4 * * 1\"\n";

/// A file of a new memory directory: where it goes and what it starts
/// with. It is written only where no such file exists.
#[derive(Debug)]
pub struct InitialFile {
    pub path: String,
    pub content: String,
}

/// The directories of a memory directory at `base`.
pub open spec fn initial_dir_paths(base: Seq<char>) -> Seq<Seq<char>> {
    seq![
        joined(base, "core"@),
        joined(base, "logs/daily"@),
        joined(base, "logs/weekly"@),
        joined(base, "logs/monthly"@),
        joined(base, "sessions"@),
        joined(base, "skills"@),
    ]
}

/// The files of a new memory directory at `base`, each with its path and
/// its first content.
pub open spec fn initial_file_list(base: Seq<char>) -> Seq<(Seq<char>, Seq<char>)> {
    seq![
        (joined(base, "core/identity.md"@), IDENTITY_TEMPLATE@),
        (joined(base, "core/user.md"@), USER_TEMPLATE@),
        (joined(base, "core/state.md"@), STATE_TEMPLATE@),
        (joined(base, "config.toml"@), CONFIG_TEMPLATE@),
    ]
}

/// The directories that a memory directory at `base` consists of.
pub fn initial_dirs(base: &str) -> (dirs: Vec<String>)
    ensures
        dirs.deep_view() == initial_dir_paths(base@),
{
    let mut dirs: Vec<String> = Vec::new();
    dirs.push(join_path(base, "core"));
    dirs.push(join_path(base, "logs/daily"));
    dirs.push(join_path(base, "logs/weekly"));
    dirs.push(join_path(base, "logs/monthly"));
    dirs.push(join_path(base, "sessions"));
    dirs.push(join_path(base, "skills"));
    assert(dirs.deep_view() =~= initial_dir_paths(base@));
    dirs
}

/// The files that a new memory directory at `base` starts with.
pub fn initial_files(base: &str) -> (files: Vec<InitialFile>)
    ensures
        files@.len() == 4,
        forall|i: int|
            0 <= i < 4 ==> (#[trigger] files@[i]).path@ == initial_file_list(base@)[i].0
                && files@[i].content@ == initial_file_list(base@)[i].1,
{
    let mut files: Vec<InitialFile> = Vec::new();
    files.push(
        InitialFile {
            path: join_path(base, "core/identity.md"),
            content: String::from_str(IDENTITY_TEMPLATE),
        },
    );
    files.push(
        InitialFile {
            path: join_path(base, "core/user.md"),
            content: String::from_str(USER_TEMPLATE),
        },
    );
    files.push(
        InitialFile {
            path: join_path(base, "core/state.md"),
            content: String::from_str(STATE_TEMPLATE),
        },
    );
    files.push(
        InitialFile {
            path: join_path(base, "config.toml"),
            content: String::from_str(CONFIG_TEMPLATE),
        },
    );
    files
}

} // verus!
