//! Configuration types with their defaults.
use vstd::prelude::*;
use crate::apply::types::strings_view;
use crate::pattern::Pattern;

verus! {

/// Colour theme of the dashboard.
#[derive(Debug, Clone, Copy, PartialEq, Eq, Structural)]
pub enum Theme {
    Nasa,
    Cyberpunk,
    Corporate,
}

impl Default for Theme {
    fn default() -> (r: Theme)
        ensures
            r == Theme::Cyberpunk,
    {
        Theme::Cyberpunk
    }
}

/// User preferences.
#[derive(Debug, Clone)]
pub struct Preferences {
    pub theme: Theme,
    pub auto_copy: bool,
    pub auto_format: bool,
    pub auto_commit: bool,
    pub commit_prefix: String,
    pub allow_dirty_git: bool,
    pub system_bell: bool,
    pub backup_retention: usize,
    pub progress_bars: bool,
}

/// Clipboard copy is on by default.
pub fn default_auto_copy() -> (r: bool)
    ensures
        r,
{
    true
}

/// Progress bars are on by default.
pub fn default_progress_bars() -> (r: bool)
    ensures
        r,
{
    true
}

/// Backups kept by default.
pub fn default_backup_retention() -> (r: usize)
    ensures
        r == 5,
{
    5
}

/// The default prefix of commit messages.
pub fn default_commit_prefix() -> (r: String)
    ensures
        r@ == "AI: "@,
{
    "AI: ".to_owned()
}

/// The preferences of a fresh configuration.
pub open spec fn default_preferences(p: Preferences) -> bool {
    &&& p.theme == Theme::Cyberpunk
    &&& p.auto_copy
    &&& !p.auto_format
    &&& !p.auto_commit
    &&& p.commit_prefix@ == "AI: "@
    &&& !p.allow_dirty_git
    &&& !p.system_bell
    &&& p.backup_retention == 5
    &&& p.progress_bars
}

impl Default for Preferences {
    fn default() -> (r: Preferences)
        ensures
            default_preferences(r),
    {
        Preferences {
            theme: Theme::default(),
            auto_copy: default_auto_copy(),
            auto_format: false,
            auto_commit: false,
            commit_prefix: default_commit_prefix(),
            allow_dirty_git: false,
            system_bell: false,
            backup_retention: default_backup_retention(),
            progress_bars: default_progress_bars(),
        }
    }
}

/// Limits that the checks enforce.
#[derive(Debug, Clone)]
pub struct RuleConfig {
    pub max_file_tokens: usize,
    pub max_cyclomatic_complexity: usize,
    pub max_nesting_depth: usize,
    pub max_function_args: usize,
    pub max_function_words: usize,
    pub ignore_naming_on: Vec<String>,
    pub ignore_tokens_on: Vec<String>,
}

/// Default token limit of a file.
pub fn default_max_tokens() -> (r: usize)
    ensures
        r == 2000,
{
    2000
}

/// Default cyclomatic complexity limit of a function.
pub fn default_max_complexity() -> (r: usize)
    ensures
        r == 8,
{
    8
}

/// Default nesting depth limit.
pub fn default_max_depth() -> (r: usize)
    ensures
        r == 3,
{
    3
}

/// Default limit on function arguments.
pub fn default_max_args() -> (r: usize)
    ensures
        r == 5,
{
    5
}

/// Default limit on the words of a function name.
pub fn default_max_words() -> (r: usize)
    ensures
        r == 5,
{
    5
}

/// Files whose tokens are not counted, by default.
pub fn default_ignore_tokens() -> (r: Vec<String>)
    ensures
        strings_view(r@) == seq!["README.md"@, "lock"@],
{
    let mut tokens: Vec<String> = Vec::new();
    tokens.push("README.md".to_owned());
    tokens.push("lock".to_owned());
    assert(strings_view(tokens@) =~= seq!["README.md"@, "lock"@]);
    tokens
}

/// The rules of a fresh configuration.
pub open spec fn default_rules(r: RuleConfig) -> bool {
    &&& r.max_file_tokens == 2000
    &&& r.max_cyclomatic_complexity == 8
    &&& r.max_nesting_depth == 3
    &&& r.max_function_args == 5
    &&& r.max_function_words == 5
    &&& r.ignore_naming_on@.len() == 0
    &&& strings_view(r.ignore_tokens_on@) == seq!["README.md"@, "lock"@]
}

impl Default for RuleConfig {
    fn default() -> (r: RuleConfig)
        ensures
            default_rules(r),
    {
        RuleConfig {
            max_file_tokens: default_max_tokens(),
            max_cyclomatic_complexity: default_max_complexity(),
            max_nesting_depth: default_max_depth(),
            max_function_args: default_max_args(),
            max_function_words: default_max_words(),
            ignore_naming_on: Vec::new(),
            ignore_tokens_on: default_ignore_tokens(),
        }
    }
}

/// A configured command: one command line or a list of them.
#[derive(Debug, Clone)]
pub enum CommandEntry {
    Single(String),
    List(Vec<String>),
}

/// The command lines of an entry.
pub open spec fn entry_lines(e: CommandEntry) -> Seq<Seq<char>> {
    match e {
        CommandEntry::Single(s) => seq![s@],
        CommandEntry::List(v) => strings_view(v@),
    }
}

impl CommandEntry {
    /// The command lines, as a list.
    pub fn into_vec(self) -> (r: Vec<String>)
        ensures
            strings_view(r@) == entry_lines(self),
    {
        match self {
            CommandEntry::Single(s) => {
                let mut v: Vec<String> = Vec::new();
                v.push(s);
                assert(strings_view(v@) =~= entry_lines(self));
                v
            },
            CommandEntry::List(v) => v,
        }
    }
}

/// The contents of the configuration file; the commands are listed by
/// name, each name once.
#[derive(Debug, Clone)]
pub struct SlopChopToml {
    pub rules: RuleConfig,
    pub preferences: Preferences,
    pub commands: Vec<(String, CommandEntry)>,
}

/// The configuration file's contents, under the name the loader uses.
pub type WardenToml = SlopChopToml;

impl Default for SlopChopToml {
    fn default() -> (r: SlopChopToml)
        ensures
            default_rules(r.rules),
            default_preferences(r.preferences),
            r.commands@.len() == 0,
    {
        SlopChopToml {
            rules: RuleConfig::default(),
            preferences: Preferences::default(),
            commands: Vec::new(),
        }
    }
}

/// Whether file discovery consults git.
#[derive(Debug, Clone, Copy, PartialEq, Eq, Structural)]
pub enum GitMode {
    Auto,
    Yes,
    No,
}

/// The whole configuration. The patterns are compiled regular expressions;
/// the commands are listed by name, each name once.
pub struct Config {
    pub git_mode: GitMode,
    pub include_patterns: Vec<Pattern>,
    pub exclude_patterns: Vec<Pattern>,
    pub code_only: bool,
    pub verbose: bool,
    pub rules: RuleConfig,
    pub preferences: Preferences,
    pub commands: Vec<(String, Vec<String>)>,
}

/// A fresh configuration.
pub open spec fn default_config(c: Config) -> bool {
    &&& c.git_mode == GitMode::Auto
    &&& c.include_patterns@.len() == 0
    &&& c.exclude_patterns@.len() == 0
    &&& !c.code_only
    &&& !c.verbose
    &&& default_rules(c.rules)
    &&& default_preferences(c.preferences)
    &&& c.commands@.len() == 0
}

impl Default for Config {
    fn default() -> (r: Config)
        ensures
            default_config(r),
    {
        Config {
            git_mode: GitMode::Auto,
            include_patterns: Vec::new(),
            exclude_patterns: Vec::new(),
            code_only: false,
            verbose: false,
            rules: RuleConfig::default(),
            preferences: Preferences::default(),
            commands: Vec::new(),
        }
    }
}

} // verus!
