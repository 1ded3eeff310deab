//! Names that file discovery skips, and the patterns that classify paths.
use vstd::prelude::*;
use crate::text::eq_str;

verus! {

/// Binary file extensions.
pub const BIN_EXT_PATTERN: &'static str = "(?i)\\.(png|jpg|gif|svg|ico|webp|woff2?|ttf|pdf|mp4|zip|gz|tar|exe|dll|so|dylib|class|pyc)$";

/// Paths that may hold secrets.
pub const SECRET_PATTERN: &'static str = "(?i)(^\\.?env(\\..*)?$|/\\.?env(\\..*)?$|(^|/)(id_rsa|id_ed25519|.*\\.(pem|p12|key|pfx))$)";

/// Source-code file extensions.
pub const CODE_EXT_PATTERN: &'static str = "(?i)\\.(rs|go|py|js|jsx|ts|tsx|java|c|cpp|h|hpp|cs|php|rb|sh|sql|html|css|scss|json|toml|yaml|md)$";

/// Build files without an extension.
pub const CODE_BARE_PATTERN: &'static str = "(?i)(Makefile|Dockerfile|CMakeLists\\.txt)$";

/// Directories that discovery never enters.
pub open spec fn is_prune_dir(n: Seq<char>) -> bool {
    ||| n == ".git"@
    ||| n == ".svn"@
    ||| n == ".hg"@
    ||| n == "node_modules"@
    ||| n == "target"@
    ||| n == "dist"@
    ||| n == "build"@
    ||| n == "out"@
    ||| n == "gen"@
    ||| n == ".venv"@
    ||| n == "venv"@
    ||| n == ".tox"@
    ||| n == "__pycache__"@
    ||| n == "coverage"@
    ||| n == "vendor"@
    ||| n == ".warden_apply_backup"@
}

/// Lock files that discovery skips.
pub open spec fn is_prune_file(n: Seq<char>) -> bool {
    ||| n == "Cargo.lock"@
    ||| n == "package-lock.json"@
    ||| n == "pnpm-lock.yaml"@
    ||| n == "yarn.lock"@
    ||| n == "bun.lockb"@
    ||| n == "go.sum"@
    ||| n == "Gemfile.lock"@
}

/// Test and documentation directories that discovery skips.
pub open spec fn is_skip_dir(n: Seq<char>) -> bool {
    ||| n == "tests"@
    ||| n == "test"@
    ||| n == "spec"@
    ||| n == "docs"@
    ||| n == "examples"@
    ||| n == "fixtures"@
}

/// A name that discovery prunes.
pub open spec fn should_prune_spec(n: Seq<char>) -> bool {
    is_prune_dir(n) || is_prune_file(n) || is_skip_dir(n)
}

/// Whether discovery prunes an entry with this name.
pub fn should_prune(name: &str) -> (r: bool)
    ensures
        r == should_prune_spec(name@),
{
    let n = crate::text::to_chars(name);
    let dir = eq_str(&n, ".git") || eq_str(&n, ".svn") || eq_str(&n, ".hg") || eq_str(
        &n,
        "node_modules",
    ) || eq_str(&n, "target") || eq_str(&n, "dist") || eq_str(&n, "build") || eq_str(&n, "out")
        || eq_str(&n, "gen") || eq_str(&n, ".venv") || eq_str(&n, "venv") || eq_str(&n, ".tox")
        || eq_str(&n, "__pycache__") || eq_str(&n, "coverage") || eq_str(&n, "vendor") || eq_str(
        &n,
        ".warden_apply_backup",
    );
    let file = eq_str(&n, "Cargo.lock") || eq_str(&n, "package-lock.json") || eq_str(
        &n,
        "pnpm-lock.yaml",
    ) || eq_str(&n, "yarn.lock") || eq_str(&n, "bun.lockb") || eq_str(&n, "go.sum") || eq_str(
        &n,
        "Gemfile.lock",
    );
    let skip = eq_str(&n, "tests") || eq_str(&n, "test") || eq_str(&n, "spec") || eq_str(&n, "docs")
        || eq_str(&n, "examples") || eq_str(&n, "fixtures");
    dir || file || skip
}

} // verus!
