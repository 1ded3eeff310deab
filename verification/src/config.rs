//! Configuration: defaults, the ignore file, the configuration file and
//! the commands a project type gets by default.
pub mod types;

use vstd::prelude::*;
use crate::apply::types::strings_view;
use crate::config::types::{entry_lines, CommandEntry, Config, SlopChopToml};
use crate::error::SlopChopError;
use crate::pattern::{regex_compiles, Pattern};
use crate::project::{npx_cmd, npx_cmd_spec, ProjectType};
use crate::text::{append_str, eq_str, from_chars, starts_with, starts_with_str, to_chars, trim, trim_chars};

verus! {

/// The sources of compiled patterns.
pub open spec fn pattern_sources(v: Seq<Pattern>) -> Seq<Seq<char>> {
    v.map_values(|p: Pattern| p.source())
}

/// A command table as values: names with their command lines.
pub type CommandsView = Seq<(Seq<char>, Seq<Seq<char>>)>;

/// The command table of a configuration, as values.
pub open spec fn commands_view(v: Seq<(String, Vec<String>)>) -> CommandsView {
    v.map_values(|e: (String, Vec<String>)| (e.0@, strings_view(e.1@)))
}

/// Whether the table has a command named `k`.
pub open spec fn has_command(cs: CommandsView, k: Seq<char>) -> bool {
    exists|i: int| 0 <= i < cs.len() && #[trigger] cs[i].0 == k
}

/// No two commands of the table share a name (the table is a map from
/// names to command lines).
pub open spec fn names_distinct(cs: CommandsView) -> bool {
    forall|i: int, j: int| 0 <= i < j < cs.len() ==> #[trigger] cs[i].0 != #[trigger] cs[j].0
}

/// The commands a project type gets when none are configured.
pub open spec fn project_defaults_spec(project: ProjectType, npx: Seq<char>) -> CommandsView {
    match project {
        ProjectType::Rust => seq![
            ("check"@, seq![
                "cargo clippy --all-targets -- -D warnings -D clippy::pedantic"@,
                "cargo test"@,
            ]),
            ("fix"@, seq!["cargo fmt"@]),
        ],
        ProjectType::Node => seq![
            ("check"@, seq![npx + " @biomejs/biome check src/"@]),
            ("fix"@, seq![npx + " @biomejs/biome check --write src/"@]),
        ],
        ProjectType::Python => seq![
            ("check"@, seq!["ruff check ."@]),
            ("fix"@, seq!["ruff check --fix ."@]),
        ],
        ProjectType::Unknown => Seq::empty(),
    }
}

/// `cs` with each default whose name it lacks added at the end.
pub open spec fn merge_defaults(cs: CommandsView, ds: CommandsView) -> CommandsView
    decreases ds.len(),
{
    if ds.len() == 0 {
        cs
    } else {
        let m = merge_defaults(cs, ds.drop_last());
        if has_command(m, ds.last().0) {
            m
        } else {
            m.push(ds.last())
        }
    }
}

/// Adding defaults keeps every configured command as it was, in place, and
/// afterwards every default name has a command.
pub proof fn law_defaults_keep_configured(cs: CommandsView, ds: CommandsView)
    ensures
        merge_defaults(cs, ds).len() >= cs.len(),
        merge_defaults(cs, ds).take(cs.len() as int) == cs,
        forall|i: int| 0 <= i < ds.len() ==> has_command(merge_defaults(cs, ds), #[trigger] ds[i].0),
    decreases ds.len(),
{
    if ds.len() == 0 {
        assert(cs.take(cs.len() as int) =~= cs);
    } else {
        law_defaults_keep_configured(cs, ds.drop_last());
        let m = merge_defaults(cs, ds.drop_last());
        if !has_command(m, ds.last().0) {
            assert(m.push(ds.last()).take(cs.len() as int) =~= m.take(cs.len() as int));
            assert(m.push(ds.last())[m.len() as int].0 == ds.last().0);
        }
        assert forall|i: int| 0 <= i < ds.len() implies has_command(
            merge_defaults(cs, ds),
            #[trigger] ds[i].0,
        ) by {
            if i < ds.len() - 1 {
                assert(ds.drop_last()[i] == ds[i]);
                assert(has_command(m, ds[i].0));
                let w = choose|w: int| 0 <= w < m.len() && #[trigger] m[w].0 == ds[i].0;
                assert(merge_defaults(cs, ds)[w] == m[w]);
            } else {
                if has_command(m, ds.last().0) {
                } else {
                    assert(merge_defaults(cs, ds)[m.len() as int].0 == ds[i].0);
                }
            }
        }
    }
}

/// Adding defaults to a table whose names are distinct keeps them distinct.
pub proof fn law_defaults_keep_names_distinct(cs: CommandsView, ds: CommandsView)
    requires
        names_distinct(cs),
    ensures
        names_distinct(merge_defaults(cs, ds)),
    decreases ds.len(),
{
    if ds.len() > 0 {
        law_defaults_keep_names_distinct(cs, ds.drop_last());
        let m = merge_defaults(cs, ds.drop_last());
        if !has_command(m, ds.last().0) {
            let m2 = m.push(ds.last());
            assert forall|i: int, j: int| 0 <= i < j < m2.len() implies #[trigger] m2[i].0
                != #[trigger] m2[j].0 by {
                if j == m.len() {
                    if m[i].0 == ds.last().0 {
                        assert(has_command(m, ds.last().0));
                    }
                } else {
                    assert(m2[i] == m[i] && m2[j] == m[j]);
                }
            }
        }
    }
}

/// The default commands of a project type have distinct names.
proof fn lemma_defaults_distinct(project: ProjectType, npx: Seq<char>)
    ensures
        names_distinct(project_defaults_spec(project, npx)),
{
    reveal_strlit("check");
    reveal_strlit("fix");
    let d = project_defaults_spec(project, npx);
    if d.len() == 2 {
        assert(d[0].0.len() != d[1].0.len());
    }
}

fn one(s: String) -> (r: Vec<String>)
    ensures
        strings_view(r@) == seq![s@],
{
    let mut v: Vec<String> = Vec::new();
    v.push(s);
    assert(strings_view(v@) =~= seq![s@]);
    v
}

fn prefixed(npx: &str, rest: &str) -> (r: String)
    ensures
        r@ == npx@ + rest@,
{
    let mut out: Vec<char> = Vec::new();
    append_str(&mut out, npx);
    append_str(&mut out, rest);
    from_chars(&out)
}

/// The commands a project type gets when none are configured.
pub fn project_defaults(project: ProjectType, windows: bool) -> (r: Vec<(String, Vec<String>)>)
    ensures
        commands_view(r@) == project_defaults_spec(project, npx_cmd_spec(windows)),
        names_distinct(commands_view(r@)),
{
    proof {
        lemma_defaults_distinct(project, npx_cmd_spec(windows));
    }
    let mut m: Vec<(String, Vec<String>)> = Vec::new();
    match project {
        ProjectType::Rust => {
            let mut check: Vec<String> = Vec::new();
            check.push("cargo clippy --all-targets -- -D warnings -D clippy::pedantic".to_owned());
            check.push("cargo test".to_owned());
            assert(strings_view(check@) =~= seq![
                "cargo clippy --all-targets -- -D warnings -D clippy::pedantic"@,
                "cargo test"@,
            ]);
            m.push(("check".to_owned(), check));
            m.push(("fix".to_owned(), one("cargo fmt".to_owned())));
        },
        ProjectType::Node => {
            let npx = npx_cmd(windows);
            m.push(("check".to_owned(), one(prefixed(npx, " @biomejs/biome check src/"))));
            m.push(("fix".to_owned(), one(prefixed(npx, " @biomejs/biome check --write src/"))));
        },
        ProjectType::Python => {
            m.push(("check".to_owned(), one("ruff check .".to_owned())));
            m.push(("fix".to_owned(), one("ruff check --fix .".to_owned())));
        },
        ProjectType::Unknown => {},
    }
    assert(commands_view(m@) =~= project_defaults_spec(project, npx_cmd_spec(windows)));
    m
}

/// The configured commands with their names as values, each entry's lines
/// listed.
pub open spec fn toml_commands(v: Seq<(String, CommandEntry)>) -> CommandsView {
    v.map_values(|e: (String, CommandEntry)| (e.0@, entry_lines(e.1)))
}

impl Config {
    /// A fresh configuration.
    pub fn new() -> (r: Config)
        ensures
            crate::config::types::default_config(r),
    {
        Config::default()
    }

    /// Checks the configuration; there is nothing that can be wrong with it.
    pub fn validate(&self) -> (r: Result<(), SlopChopError>)
        ensures
            r is Ok,
    {
        Ok(())
    }

    /// One line of the ignore file: blank lines and `#` comments are
    /// skipped; any other line, trimmed, becomes an exclude pattern when it
    /// compiles.
    pub fn process_ignore_line(&mut self, line: &str)
        ensures
            ({
                let t = trim(line@);
                pattern_sources(final(self).exclude_patterns@) == if t.len() == 0 || starts_with(
                    t,
                    "#"@,
                ) || !regex_compiles(t) {
                    pattern_sources(old(self).exclude_patterns@)
                } else {
                    pattern_sources(old(self).exclude_patterns@).push(t)
                }
            }),
            final(self).include_patterns@ == old(self).include_patterns@,
            final(self).git_mode == old(self).git_mode,
            final(self).code_only == old(self).code_only,
            final(self).verbose == old(self).verbose,
            final(self).rules == old(self).rules,
            final(self).preferences == old(self).preferences,
            final(self).commands == old(self).commands,
    {
        let v = to_chars(line);
        let t = trim_chars(&v);
        if t.len() == 0 || starts_with_str(&t, "#") {
            return ;
        }
        let ts = from_chars(&t);
        match Pattern::new(ts.as_str()) {
            Ok(p) => {
                let ghost before = self.exclude_patterns@;
                self.exclude_patterns.push(p);
                assert(pattern_sources(self.exclude_patterns@) =~= pattern_sources(before).push(
                    t@,
                ));
            },
            Err(_) => {},
        }
    }

    /// Takes over what the configuration file holds: its rules, its
    /// preferences and its commands, each entry as a list of lines.
    pub fn apply_toml(&mut self, parsed: SlopChopToml)
        ensures
            final(self).rules == parsed.rules,
            final(self).preferences == parsed.preferences,
            commands_view(final(self).commands@) == toml_commands(parsed.commands@),
            names_distinct(toml_commands(parsed.commands@)) ==> names_distinct(
                commands_view(final(self).commands@),
            ),
            final(self).git_mode == old(self).git_mode,
            final(self).include_patterns@ == old(self).include_patterns@,
            final(self).exclude_patterns@ == old(self).exclude_patterns@,
            final(self).code_only == old(self).code_only,
            final(self).verbose == old(self).verbose,
    {
        let ghost pc = toml_commands(parsed.commands@);
        self.rules = parsed.rules;
        self.preferences = parsed.preferences;
        let mut cmds: Vec<(String, Vec<String>)> = Vec::new();
        let mut rest = parsed.commands;
        let ghost all = rest@;
        let n = rest.len();
        let mut i: usize = 0;
        while i < n
            invariant
                i <= n == all.len(),
                pc == toml_commands(all),
                rest@ == all.subrange(i as int, all.len() as int),
                commands_view(cmds@) == pc.take(i as int),
            decreases n - i,
        {
            let (k, e) = rest.remove(0);
            let ghost c0 = commands_view(cmds@);
            assert((k, e) == all[i as int]);
            let lines = e.into_vec();
            cmds.push((k, lines));
            proof {
                assert(commands_view(cmds@) =~= c0.push(pc[i as int]));
                assert(pc.take(i + 1) =~= pc.take(i as int).push(pc[i as int]));
                assert(rest@ =~= all.subrange(i + 1, all.len() as int));
            }
            i += 1;
        }
        assert(pc.take(n as int) =~= pc);
        self.commands = cmds;
    }

    /// Adds the default commands of the project type for each name the
    /// configuration lacks, unless it already has a `check` command.
    pub fn apply_project_defaults(&mut self, project: ProjectType, windows: bool)
        ensures
            commands_view(final(self).commands@) == if has_command(
                commands_view(old(self).commands@),
                "check"@,
            ) {
                commands_view(old(self).commands@)
            } else {
                merge_defaults(
                    commands_view(old(self).commands@),
                    project_defaults_spec(project, npx_cmd_spec(windows)),
                )
            },
            names_distinct(commands_view(old(self).commands@)) ==> names_distinct(
                commands_view(final(self).commands@),
            ),
            final(self).rules == old(self).rules,
            final(self).preferences == old(self).preferences,
            final(self).git_mode == old(self).git_mode,
            final(self).include_patterns@ == old(self).include_patterns@,
            final(self).exclude_patterns@ == old(self).exclude_patterns@,
            final(self).code_only == old(self).code_only,
            final(self).verbose == old(self).verbose,
    {
        proof {
            if names_distinct(commands_view(self.commands@)) {
                law_defaults_keep_names_distinct(
                    commands_view(self.commands@),
                    project_defaults_spec(project, npx_cmd_spec(windows)),
                );
            }
        }
        if self.has_command("check") {
            return ;
        }
        let defaults = project_defaults(project, windows);
        let ghost ds = commands_view(defaults@);
        let ghost c0 = commands_view(self.commands@);
        let n = defaults.len();
        let mut rest = defaults;
        let ghost all = rest@;
        let mut i: usize = 0;
        while i < n
            invariant
                i <= n == all.len(),
                ds == commands_view(all),
                rest@ == all.subrange(i as int, all.len() as int),
                commands_view(self.commands@) == merge_defaults(c0, ds.take(i as int)),
                self.rules == old(self).rules,
                self.preferences == old(self).preferences,
                self.git_mode == old(self).git_mode,
                self.include_patterns@ == old(self).include_patterns@,
                self.exclude_patterns@ == old(self).exclude_patterns@,
                self.code_only == old(self).code_only,
                self.verbose == old(self).verbose,
            decreases n - i,
        {
            let (k, v) = rest.remove(0);
            assert((k, v) == all[i as int]);
            proof {
                assert(ds.take(i + 1).drop_last() =~= ds.take(i as int));
                assert(ds.take(i + 1).last() == ds[i as int]);
                assert(rest@ =~= all.subrange(i + 1, all.len() as int));
            }
            if !self.has_command(k.as_str()) {
                let ghost before = commands_view(self.commands@);
                self.commands.push((k, v));
                assert(commands_view(self.commands@) =~= before.push(ds[i as int]));
            }
            i += 1;
        }
        assert(ds.take(n as int) =~= ds);
    }

    /// Whether a command named `name` is configured.
    fn has_command(&self, name: &str) -> (r: bool)
        ensures
            r == has_command(commands_view(self.commands@), name@),
    {
        let ghost cv = commands_view(self.commands@);
        let mut i: usize = 0;
        while i < self.commands.len()
            invariant
                i <= self.commands.len(),
                cv == commands_view(self.commands@),
                forall|j: int| 0 <= j < i ==> #[trigger] cv[j].0 != name@,
            decreases self.commands.len() - i,
        {
            assert(cv[i as int].0 == self.commands@[i as int].0@);
            let kv = to_chars(self.commands[i].0.as_str());
            if eq_str(&kv, name) {
                return true;
            }
            i += 1;
        }
        false
    }
}

} // verus!
