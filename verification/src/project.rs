//! Project type detection and the configuration file generated for it.
use vstd::prelude::*;
use crate::text::{append_str, from_chars};

verus! {

/// The kind of project in the working directory.
#[derive(Debug, Clone, Copy, PartialEq, Eq, Structural)]
pub enum ProjectType {
    Rust,
    Node,
    Python,
    Unknown,
}

impl ProjectType {
    /// The project type given which marker files exist: `Cargo.toml`
    /// first, then `package.json`, then `pyproject.toml` or
    /// `requirements.txt`.
    pub fn detect(cargo_toml: bool, package_json: bool, pyproject: bool, requirements: bool) -> (r:
        ProjectType)
        ensures
            r == (if cargo_toml {
                ProjectType::Rust
            } else if package_json {
                ProjectType::Node
            } else if pyproject || requirements {
                ProjectType::Python
            } else {
                ProjectType::Unknown
            }),
    {
        if cargo_toml {
            return ProjectType::Rust;
        }
        if package_json {
            return ProjectType::Node;
        }
        if pyproject || requirements {
            return ProjectType::Python;
        }
        ProjectType::Unknown
    }
}

/// The npx command (`npx.cmd` on Windows).
pub fn npx_cmd(windows: bool) -> (r: &'static str)
    ensures
        r@ == (if windows { "npx.cmd"@ } else { "npx"@ }),
{
    if windows {
        "npx.cmd"
    } else {
        "npx"
    }
}

/// The npm command (`npm.cmd` on Windows).
pub fn npm_cmd(windows: bool) -> (r: &'static str)
    ensures
        r@ == (if windows { "npm.cmd"@ } else { "npm"@ }),
{
    if windows {
        "npm.cmd"
    } else {
        "npm"
    }
}

/// The cargo command (`cargo.exe` on Windows).
pub fn cargo_cmd(windows: bool) -> (r: &'static str)
    ensures
        r@ == (if windows { "cargo.exe"@ } else { "cargo"@ }),
{
    if windows {
        "cargo.exe"
    } else {
        "cargo"
    }
}

/// The `[commands]` table for a project type.
pub open spec fn commands_section(project: ProjectType, npx: Seq<char>) -> Seq<char> {
    match project {
        ProjectType::Rust => "[commands]\ncheck = \"cargo clippy --all-targets -- -D warnings -D clippy::pedantic\"\nfix = \"cargo fmt\""@,
        ProjectType::Node => "[commands]\ncheck = \""@ + npx + " @biomejs/biome check src/\"\nfix = \""@
            + npx + " @biomejs/biome check --write src/\""@,
        ProjectType::Python => "[commands]\ncheck = \"ruff check .\"\nfix = \"ruff check --fix .\""@,
        ProjectType::Unknown => "# No project type detected. Configure commands manually:\n# [commands]\n# check = \"your-lint-command\"\n# fix = \"your-fix-command\""@,
    }
}

/// The generated configuration file.
pub open spec fn toml_text(project: ProjectType, npx: Seq<char>) -> Seq<char> {
    "# warden.toml\n[rules]\nmax_file_tokens = 2000\nmax_cyclomatic_complexity = 5\nmax_nesting_depth = 2\nmax_function_args = 5\nmax_function_words = 5\nignore_naming_on = [\"tests\", \"spec\"]\n\n"@
        + commands_section(project, npx) + "\n"@
}

fn generate_commands_section(project: ProjectType, windows: bool) -> (r: Vec<char>)
    ensures
        r@ == commands_section(project, npx_cmd_spec(windows)),
{
    let mut out: Vec<char> = Vec::new();
    match project {
        ProjectType::Rust => append_str(
            &mut out,
            "[commands]\ncheck = \"cargo clippy --all-targets -- -D warnings -D clippy::pedantic\"\nfix = \"cargo fmt\"",
        ),
        ProjectType::Node => {
            let npx = npx_cmd(windows);
            append_str(&mut out, "[commands]\ncheck = \"");
            append_str(&mut out, npx);
            append_str(&mut out, " @biomejs/biome check src/\"\nfix = \"");
            append_str(&mut out, npx);
            append_str(&mut out, " @biomejs/biome check --write src/\"");
        },
        ProjectType::Python => append_str(
            &mut out,
            "[commands]\ncheck = \"ruff check .\"\nfix = \"ruff check --fix .\"",
        ),
        ProjectType::Unknown => append_str(
            &mut out,
            "# No project type detected. Configure commands manually:\n# [commands]\n# check = \"your-lint-command\"\n# fix = \"your-fix-command\"",
        ),
    }
    assert(out@ =~= commands_section(project, npx_cmd_spec(windows)));
    out
}

/// What `npx_cmd` returns.
pub open spec fn npx_cmd_spec(windows: bool) -> Seq<char> {
    if windows {
        "npx.cmd"@
    } else {
        "npx"@
    }
}

/// The configuration file for a project of type `project` on the given
/// platform.
pub fn generate_toml(project: ProjectType, windows: bool) -> (r: String)
    ensures
        r@ == toml_text(project, npx_cmd_spec(windows)),
{
    let mut out: Vec<char> = Vec::new();
    append_str(
        &mut out,
        "# warden.toml\n[rules]\nmax_file_tokens = 2000\nmax_cyclomatic_complexity = 5\nmax_nesting_depth = 2\nmax_function_args = 5\nmax_function_words = 5\nignore_naming_on = [\"tests\", \"spec\"]\n\n",
    );
    let c = generate_commands_section(project, windows);
    crate::text::append(&mut out, &c);
    append_str(&mut out, "\n");
    from_chars(&out)
}

} // verus!
