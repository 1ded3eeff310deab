//! The rule checks' decisions. These functions take what the syntax walk
//! (`crate::syntax`) found (function names, metrics of function nodes,
//! method-call captures) and a file's token count as plain values, and
//! decide which laws are broken and with which message.
use vstd::prelude::*;
use crate::checks::{count_words, ignored, is_ignored, word_count};
use crate::config::types::RuleConfig;
use crate::apply::types::strings_view;
use crate::syntax::{file_syntax, file_syntax_of};
use crate::text::{append, append_str, decimal, decimal_chars, from_chars};

verus! {

/// The law of short, blunt function names.
pub const LAW_OF_BLUNTNESS: &'static str = "LAW OF BLUNTNESS";

/// The law of small functions: few arguments, shallow nesting, few branches.
pub const LAW_OF_COMPLEXITY: &'static str = "LAW OF COMPLEXITY";

/// The law against calls that panic on failure.
pub const LAW_OF_PARANOIA: &'static str = "LAW OF PARANOIA";

/// The law of small files.
pub const LAW_OF_ATOMICITY: &'static str = "LAW OF ATOMICITY";

/// A broken law: the row it was found on (from zero), what is wrong, and
/// which law it breaks.
#[derive(Debug, Clone)]
pub struct Violation {
    pub row: usize,
    pub message: String,
    pub law: &'static str,
}

/// A violation as values.
pub open spec fn vview(v: Violation) -> (int, Seq<char>, Seq<char>) {
    (v.row as int, v.message@, v.law@)
}

/// Violations as values.
pub open spec fn vviews(vs: Seq<Violation>) -> Seq<(int, Seq<char>, Seq<char>)> {
    vs.map_values(|v: Violation| vview(v))
}

/// The message for a function name with too many words.
pub open spec fn naming_message(name: Seq<char>, words: nat, max: nat) -> Seq<char> {
    "Function '"@ + name + "' has "@ + decimal(words) + " words (Max: "@ + decimal(max)
        + "). Is it doing too much?"@
}

/// The violation, if any, of a function name found on `row`.
pub open spec fn naming_violation_spec(name: Seq<char>, row: int, max: nat) -> Option<
    (int, Seq<char>, Seq<char>),
> {
    if word_count(name) > max {
        Some((row, naming_message(name, word_count(name), max), LAW_OF_BLUNTNESS@))
    } else {
        None
    }
}

/// The violation, if any, of a function name found on `row`.
pub fn naming_violation(name: &str, row: usize, max_words: usize) -> (r: Option<Violation>)
    ensures
        match naming_violation_spec(name@, row as int, max_words as nat) {
            Some(v) => r matches Some(x) && vview(x) == v,
            None => r is None,
        },
{
    let words = count_words(name);
    if words > max_words {
        let mut m: Vec<char> = Vec::new();
        append_str(&mut m, "Function '");
        append_str(&mut m, name);
        append_str(&mut m, "' has ");
        append(&mut m, &decimal_chars(words));
        append_str(&mut m, " words (Max: ");
        append(&mut m, &decimal_chars(max_words));
        append_str(&mut m, "). Is it doing too much?");
        Some(Violation { row, message: from_chars(&m), law: LAW_OF_BLUNTNESS })
    } else {
        None
    }
}

/// A function name that the naming query captured, with its row.
#[derive(Debug, Clone)]
pub struct FunctionName {
    pub name: String,
    pub row: usize,
}

/// A captured function name as values: its text and its row.
pub type NameView = (Seq<char>, int);

/// Captured function names as values.
pub open spec fn names_view(ns: Seq<FunctionName>) -> Seq<NameView> {
    ns.map_values(|n: FunctionName| (n.name@, n.row as int))
}

/// The naming violations of the captured names, in order.
pub open spec fn naming_violations(names: Seq<NameView>, max: nat) -> Seq<
    (int, Seq<char>, Seq<char>),
>
    decreases names.len(),
{
    if names.len() == 0 {
        Seq::empty()
    } else {
        let rest = naming_violations(names.drop_last(), max);
        match naming_violation_spec(names.last().0, names.last().1, max) {
            Some(v) => rest.push(v),
            None => rest,
        }
    }
}

/// The naming check of a file: nothing for a file that one of the
/// `ignore_naming_on` patterns names, else one violation per captured name
/// with more words than allowed.
pub open spec fn naming_check(filename: Seq<char>, names: Seq<NameView>, config: RuleConfig) -> Seq<
    (int, Seq<char>, Seq<char>),
> {
    if ignored(filename, strings_view(config.ignore_naming_on@)) {
        Seq::empty()
    } else {
        naming_violations(names, config.max_function_words as nat)
    }
}

/// Appends the naming violations of a file's captured function names.
pub fn check_naming(
    filename: &str,
    names: &[FunctionName],
    config: &RuleConfig,
    out: &mut Vec<Violation>,
)
    ensures
        vviews(final(out)@) == vviews(old(out)@) + naming_check(filename@, names_view(names@), *config),
{
    let ghost start = vviews(out@);
    if is_ignored(filename, config.ignore_naming_on.as_slice()) {
        assert(start + Seq::<(int, Seq<char>, Seq<char>)>::empty() =~= start);
        return;
    }
    let mut i: usize = 0;
    while i < names.len()
        invariant
            i <= names.len(),
            vviews(out@) == start + naming_violations(
                names_view(names@).take(i as int),
                config.max_function_words as nat,
            ),
        decreases names.len() - i,
    {
        let ghost o0 = vviews(out@);
        proof {
            assert(names_view(names@).take(i + 1).drop_last() =~= names_view(names@).take(i as int));
            assert(names_view(names@).take(i + 1).last() == (names@[i as int].name@, names@[i as int].row as int));
        }
        match naming_violation(names[i].name.as_str(), names[i].row, config.max_function_words) {
            Some(v) => {
                out.push(v);
                assert(vviews(out@) =~= o0.push(vview(v)));
            },
            None => {},
        }
        i += 1;
    }
    assert(names_view(names@).take(names.len() as int) =~= names_view(names@));
}

/// The message for a function with too many arguments.
pub open spec fn arity_message(args: nat, max: nat) -> Seq<char> {
    "High Arity: Function takes "@ + decimal(args) + " arguments (Max: "@ + decimal(max)
        + "). Use a Struct."@
}

/// The message for a function nested too deeply.
pub open spec fn depth_message(depth: nat, max: nat) -> Seq<char> {
    "Deep Nesting: Max depth is "@ + decimal(depth) + " (Max: "@ + decimal(max) + "). Extract logic."@
}

/// The message for a function with too many branches.
pub open spec fn complexity_message(score: nat, max: nat) -> Seq<char> {
    "High Complexity: Score is "@ + decimal(score) + " (Max: "@ + decimal(max) + "). Hard to test."@
}

/// One violation on `row` when `value` exceeds `max`, else none.
pub open spec fn over_limit(value: nat, max: nat, row: int, message: Seq<char>) -> Seq<
    (int, Seq<char>, Seq<char>),
> {
    if value > max {
        seq![(row, message, LAW_OF_COMPLEXITY@)]
    } else {
        Seq::empty()
    }
}

/// Appends a violation when a function on `row` takes more than `max`
/// arguments.
pub fn validate_arity(args: usize, row: usize, max: usize, out: &mut Vec<Violation>)
    ensures
        vviews(final(out)@) == vviews(old(out)@) + over_limit(
            args as nat,
            max as nat,
            row as int,
            arity_message(args as nat, max as nat),
        ),
{
    let ghost o0 = vviews(out@);
    if args > max {
        let mut m: Vec<char> = Vec::new();
        append_str(&mut m, "High Arity: Function takes ");
        append(&mut m, &decimal_chars(args));
        append_str(&mut m, " arguments (Max: ");
        append(&mut m, &decimal_chars(max));
        append_str(&mut m, "). Use a Struct.");
        out.push(Violation { row, message: from_chars(&m), law: LAW_OF_COMPLEXITY });
    }
    assert(vviews(out@) =~= o0 + over_limit(
        args as nat,
        max as nat,
        row as int,
        arity_message(args as nat, max as nat),
    ));
}

/// Appends a violation when a function on `row` nests deeper than `max`.
pub fn validate_depth(depth: usize, row: usize, max: usize, out: &mut Vec<Violation>)
    ensures
        vviews(final(out)@) == vviews(old(out)@) + over_limit(
            depth as nat,
            max as nat,
            row as int,
            depth_message(depth as nat, max as nat),
        ),
{
    let ghost o0 = vviews(out@);
    if depth > max {
        let mut m: Vec<char> = Vec::new();
        append_str(&mut m, "Deep Nesting: Max depth is ");
        append(&mut m, &decimal_chars(depth));
        append_str(&mut m, " (Max: ");
        append(&mut m, &decimal_chars(max));
        append_str(&mut m, "). Extract logic.");
        out.push(Violation { row, message: from_chars(&m), law: LAW_OF_COMPLEXITY });
    }
    assert(vviews(out@) =~= o0 + over_limit(
        depth as nat,
        max as nat,
        row as int,
        depth_message(depth as nat, max as nat),
    ));
}

/// Appends a violation when a function on `row` scores more than `max`.
pub fn validate_complexity(score: usize, row: usize, max: usize, out: &mut Vec<Violation>)
    ensures
        vviews(final(out)@) == vviews(old(out)@) + over_limit(
            score as nat,
            max as nat,
            row as int,
            complexity_message(score as nat, max as nat),
        ),
{
    let ghost o0 = vviews(out@);
    if score > max {
        let mut m: Vec<char> = Vec::new();
        append_str(&mut m, "High Complexity: Score is ");
        append(&mut m, &decimal_chars(score));
        append_str(&mut m, " (Max: ");
        append(&mut m, &decimal_chars(max));
        append_str(&mut m, "). Hard to test.");
        out.push(Violation { row, message: from_chars(&m), law: LAW_OF_COMPLEXITY });
    }
    assert(vviews(out@) =~= o0 + over_limit(
        score as nat,
        max as nat,
        row as int,
        complexity_message(score as nat, max as nat),
    ));
}

/// A node of the syntax tree as the metrics check sees it: its kind, its
/// row, and the argument count, nesting depth and complexity score measured
/// on it.
#[derive(Debug, Clone)]
pub struct NodeMetrics {
    pub kind: String,
    pub row: usize,
    pub args: usize,
    pub depth: usize,
    pub complexity: usize,
}

/// A node whose kind names a function or a method.
pub open spec fn is_function_kind(kind: Seq<char>) -> bool {
    crate::text::contains(kind, "function"@) || crate::text::contains(kind, "method"@)
}

/// The metric violations of one function node: arity, then depth, then
/// complexity.
pub open spec fn node_violations(n: NodeMetrics, config: RuleConfig) -> Seq<
    (int, Seq<char>, Seq<char>),
> {
    let mr = config.max_function_args as nat;
    let md = config.max_nesting_depth as nat;
    let mc = config.max_cyclomatic_complexity as nat;
    over_limit(n.args as nat, mr, n.row as int, arity_message(n.args as nat, mr)) + over_limit(
        n.depth as nat,
        md,
        n.row as int,
        depth_message(n.depth as nat, md),
    ) + over_limit(n.complexity as nat, mc, n.row as int, complexity_message(n.complexity as nat, mc))
}

/// The metric violations of the nodes in walk order; nodes that are not
/// functions or methods give none.
pub open spec fn metric_violations(nodes: Seq<NodeMetrics>, config: RuleConfig) -> Seq<
    (int, Seq<char>, Seq<char>),
>
    decreases nodes.len(),
{
    if nodes.len() == 0 {
        Seq::empty()
    } else {
        metric_violations(nodes.drop_last(), config) + if is_function_kind(nodes.last().kind@) {
            node_violations(nodes.last(), config)
        } else {
            Seq::empty()
        }
    }
}

/// Appends the metric violations of the nodes of a file, in walk order.
pub fn check_metrics(nodes: &[NodeMetrics], config: &RuleConfig, out: &mut Vec<Violation>)
    ensures
        vviews(final(out)@) == vviews(old(out)@) + metric_violations(nodes@, *config),
{
    let ghost start = vviews(out@);
    let mut i: usize = 0;
    while i < nodes.len()
        invariant
            i <= nodes.len(),
            vviews(out@) == start + metric_violations(nodes@.take(i as int), *config),
        decreases nodes.len() - i,
    {
        let ghost o0 = vviews(out@);
        proof {
            assert(nodes@.take(i + 1).drop_last() =~= nodes@.take(i as int));
            assert(nodes@.take(i + 1).last() == nodes@[i as int]);
        }
        let n = &nodes[i];
        let k = crate::text::to_chars(n.kind.as_str());
        if crate::text::contains_str(&k, "function") || crate::text::contains_str(&k, "method") {
            validate_arity(n.args, n.row, config.max_function_args, out);
            validate_depth(n.depth, n.row, config.max_nesting_depth, out);
            validate_complexity(n.complexity, n.row, config.max_cyclomatic_complexity, out);
            assert(vviews(out@) =~= o0 + node_violations(*n, *config));
        } else {
            assert(o0 + Seq::<(int, Seq<char>, Seq<char>)>::empty() =~= o0);
        }
        assert(vviews(out@) =~= start + metric_violations(nodes@.take(i + 1), *config));
        i += 1;
    }
    assert(nodes@.take(nodes.len() as int) =~= nodes@);
}

/// A capture of the banned-call query: the capture's name, the captured
/// text (none where it is not valid UTF-8) and its row.
#[derive(Debug, Clone)]
pub struct Capture {
    pub name: String,
    pub text: Option<String>,
    pub row: usize,
}

/// A capture as values: its name, its text and its row.
pub type CaptureView = (Seq<char>, Option<Seq<char>>, int);

/// A capture as values.
pub open spec fn capture_view(c: Capture) -> CaptureView {
    (
        c.name@,
        match c.text {
            Some(t) => Some(t@),
            None => None,
        },
        c.row as int,
    )
}

/// The captures of a match as values.
pub open spec fn captures_view(cs: Seq<Capture>) -> Seq<CaptureView> {
    cs.map_values(|c: Capture| capture_view(c))
}

/// Matches as values.
pub open spec fn matches_view(ms: Seq<Vec<Capture>>) -> Seq<Seq<CaptureView>> {
    ms.map_values(|m: Vec<Capture>| captures_view(m@))
}

/// The method named by the last `method` capture of a match.
pub open spec fn method_of(caps: Seq<CaptureView>) -> Option<Seq<char>>
    decreases caps.len(),
{
    if caps.len() == 0 {
        None
    } else if caps.last().0 == "method"@ {
        caps.last().1
    } else {
        method_of(caps.drop_last())
    }
}

/// The row of the last `call` capture of a match, or row zero.
pub open spec fn call_row(caps: Seq<CaptureView>) -> int
    decreases caps.len(),
{
    if caps.len() == 0 {
        0
    } else if caps.last().0 == "call"@ {
        caps.last().2
    } else {
        call_row(caps.drop_last())
    }
}

/// The violation of one match of the banned-call query: a call of
/// `unwrap` or `expect`.
pub open spec fn banned_violation(caps: Seq<CaptureView>) -> Seq<(int, Seq<char>, Seq<char>)> {
    match method_of(caps) {
        Some(m) => if m == "unwrap"@ || m == "expect"@ {
            seq![(call_row(caps), "Banned: '."@ + m + "()'. Use '?' or 'unwrap_or'."@, LAW_OF_PARANOIA@)]
        } else {
            Seq::empty()
        },
        None => Seq::empty(),
    }
}

/// Appends the violation of one match of the banned-call query.
pub fn process_banned_match(caps: &[Capture], out: &mut Vec<Violation>)
    ensures
        vviews(final(out)@) == vviews(old(out)@) + banned_violation(captures_view(caps@)),
{
    let mut method: Option<&String> = None;
    let mut row: usize = 0;
    let mut i: usize = 0;
    while i < caps.len()
        invariant
            i <= caps.len(),
            (match method {
                Some(m) => Some(m@),
                None => None,
            }) == method_of(captures_view(caps@).take(i as int)),
            row == call_row(captures_view(caps@).take(i as int)),
        decreases caps.len() - i,
    {
        proof {
            assert(captures_view(caps@).take(i + 1).drop_last() =~= captures_view(caps@).take(i as int));
            assert(captures_view(caps@).take(i + 1).last() == capture_view(caps@[i as int]));
        }
        let c = &caps[i];
        let name = crate::text::to_chars(c.name.as_str());
        if crate::text::eq_str(&name, "method") {
            method = match &c.text {
                Some(t) => Some(t),
                None => None,
            };
        }
        if crate::text::eq_str(&name, "call") {
            row = c.row;
        }
        i += 1;
    }
    assert(captures_view(caps@).take(caps.len() as int) =~= captures_view(caps@));
    let ghost o0 = vviews(out@);
    match method {
        Some(m) => {
            let mv = crate::text::to_chars(m.as_str());
            if crate::text::eq_str(&mv, "unwrap") || crate::text::eq_str(&mv, "expect") {
                let mut msg: Vec<char> = Vec::new();
                append_str(&mut msg, "Banned: '.");
                append(&mut msg, &mv);
                append_str(&mut msg, "()'. Use '?' or 'unwrap_or'.");
                out.push(Violation { row, message: from_chars(&msg), law: LAW_OF_PARANOIA });
                assert(vviews(out@) =~= o0 + banned_violation(captures_view(caps@)));
            } else {
                assert(vviews(out@) =~= o0 + banned_violation(captures_view(caps@)));
            }
        },
        None => {
            assert(vviews(out@) =~= o0 + banned_violation(captures_view(caps@)));
        },
    }
}

/// The banned-call violations of the matches, in order.
pub open spec fn banned_violations(matches: Seq<Seq<CaptureView>>) -> Seq<(int, Seq<char>, Seq<char>)>
    decreases matches.len(),
{
    if matches.len() == 0 {
        Seq::empty()
    } else {
        banned_violations(matches.drop_last()) + banned_violation(matches.last())
    }
}

/// Appends the violations of all matches of the banned-call query.
pub fn check_banned(matches: &[Vec<Capture>], out: &mut Vec<Violation>)
    ensures
        vviews(final(out)@) == vviews(old(out)@) + banned_violations(matches_view(matches@)),
{
    let ghost start = vviews(out@);
    let mut i: usize = 0;
    while i < matches.len()
        invariant
            i <= matches.len(),
            vviews(out@) == start + banned_violations(matches_view(matches@).take(i as int)),
        decreases matches.len() - i,
    {
        proof {
            assert(matches_view(matches@).take(i + 1).drop_last() =~= matches_view(matches@).take(i as int));
            assert(matches_view(matches@).take(i + 1).last() == captures_view(matches@[i as int]@));
        }
        process_banned_match(matches[i].as_slice(), out);
        assert(vviews(out@) =~= start + banned_violations(matches_view(matches@).take(i + 1)));
        i += 1;
    }
    assert(matches_view(matches@).take(matches.len() as int) =~= matches_view(matches@));
}

/// A file that carries one of the ignore markers is not checked.
pub open spec fn ignore_marked(content: Seq<char>) -> bool {
    crate::text::contains(content, "// warden:ignore"@) || crate::text::contains(
        content,
        "# warden:ignore"@,
    ) || crate::text::contains(content, "<!-- warden:ignore -->"@)
}

/// The size violation of a file: on row zero, when the file has more tokens
/// than allowed and no `ignore_tokens_on` pattern names it.
pub open spec fn token_violation(filename: Seq<char>, tokens: nat, rules: RuleConfig) -> Seq<
    (int, Seq<char>, Seq<char>),
> {
    if !ignored(filename, strings_view(rules.ignore_tokens_on@)) && tokens
        > rules.max_file_tokens {
        seq![
            (
                0,
                "File size is "@ + decimal(tokens) + " tokens (Limit: "@ + decimal(
                    rules.max_file_tokens as nat,
                ) + ")"@,
                LAW_OF_ATOMICITY@,
            ),
        ]
    } else {
        Seq::empty()
    }
}

/// The findings for one file.
#[derive(Debug)]
pub struct FileReport {
    pub path: String,
    pub token_count: usize,
    pub complexity_score: usize,
    pub violations: Vec<Violation>,
}

impl FileReport {
    /// Whether the file broke no law.
    pub fn is_clean(&self) -> (r: bool)
        ensures
            r == (self.violations@.len() == 0),
    {
        self.violations.len() == 0
    }
}

/// What the scan learned of one file: its path, its text (none where it
/// could not be read) and its token count.
#[derive(Debug)]
pub struct ScannedFile {
    pub path: String,
    pub content: Option<String>,
    pub token_count: usize,
}

/// The syntax violations of a scanned file: those of its text, none when
/// it could not be read.
pub open spec fn scanned_syntax(f: ScannedFile, rules: RuleConfig) -> Seq<(int, Seq<char>, Seq<char>)> {
    match f.content {
        Some(c) => file_syntax_of(f.path@, c@, rules),
        None => Seq::empty(),
    }
}

/// What a file's report says, when there is one: its path, its token count,
/// a complexity score of zero, and the size violation before the syntax
/// ones.
pub open spec fn file_report_of(f: ScannedFile, r: FileReport, rules: RuleConfig) -> bool {
    &&& r.path@ == f.path@
    &&& r.token_count == f.token_count
    &&& r.complexity_score == 0
    &&& vviews(r.violations@) == token_violation(f.path@, f.token_count as nat, rules)
        + scanned_syntax(f, rules)
}

/// A file that is reported: it was read and carries no ignore marker.
pub open spec fn reported(f: ScannedFile) -> bool {
    f.content matches Some(c) && !ignore_marked(c@)
}

/// Sum of the token counts of reports.
pub open spec fn sum_tokens(fs: Seq<FileReport>) -> nat
    decreases fs.len(),
{
    if fs.len() == 0 {
        0
    } else {
        sum_tokens(fs.drop_last()) + fs.last().token_count as nat
    }
}

/// Sum of the violation counts of reports.
pub open spec fn sum_violations(fs: Seq<FileReport>) -> nat
    decreases fs.len(),
{
    if fs.len() == 0 {
        0
    } else {
        sum_violations(fs.drop_last()) + fs.last().violations@.len()
    }
}

/// The reports of a scan, with the totals over them.
#[derive(Debug)]
pub struct ScanReport {
    pub files: Vec<FileReport>,
    pub total_tokens: usize,
    pub total_violations: usize,
    pub duration_ms: usize,
}

impl ScanReport {
    /// Whether some law was broken.
    pub fn has_errors(&self) -> (r: bool)
        ensures
            r == (self.total_violations > 0),
    {
        self.total_violations > 0
    }
}

/// Checks files against the configured rules.
pub struct RuleEngine {
    pub config: crate::config::types::Config,
}

impl RuleEngine {
    /// An engine for a configuration.
    pub fn new(config: crate::config::types::Config) -> (r: RuleEngine)
        ensures
            r.config == config,
    {
        RuleEngine { config }
    }

    /// Whether the size law is waived for a file: one of the
    /// `ignore_tokens_on` patterns occurs in its name.
    pub fn is_exempt_from_tokens(&self, filename: &str) -> (r: bool)
        ensures
            r == ignored(filename@, strings_view(self.config.rules.ignore_tokens_on@)),
    {
        is_ignored(filename, self.config.rules.ignore_tokens_on.as_slice())
    }

    /// The report of one scanned file; none for a file that could not be
    /// read or that carries an ignore marker.
    pub fn analyze_file(&self, file: ScannedFile) -> (r: Option<FileReport>)
        ensures
            r is Some <==> reported(file),
            r matches Some(rep) ==> file_report_of(file, rep, self.config.rules),
    {
        let ghost f0 = file;
        let ScannedFile { path, content, token_count } = file;
        let text = match content {
            Some(c) => c,
            None => {
                return None;
            },
        };
        let t = crate::text::to_chars(text.as_str());
        if crate::text::contains_str(&t, "// warden:ignore") || crate::text::contains_str(
            &t,
            "# warden:ignore",
        ) || crate::text::contains_str(&t, "<!-- warden:ignore -->") {
            return None;
        }
        let mut violations: Vec<Violation> = Vec::new();
        let max = self.config.rules.max_file_tokens;
        if !self.is_exempt_from_tokens(path.as_str()) && token_count > max {
            let mut m: Vec<char> = Vec::new();
            append_str(&mut m, "File size is ");
            append(&mut m, &decimal_chars(token_count));
            append_str(&mut m, " tokens (Limit: ");
            append(&mut m, &decimal_chars(max));
            append_str(&mut m, ")");
            violations.push(Violation { row: 0, message: from_chars(&m), law: LAW_OF_ATOMICITY });
        }
        let ghost v0 = vviews(violations@);
        assert(v0 == token_violation(path@, token_count as nat, self.config.rules));
        let mut rest = file_syntax(path.as_str(), text.as_str(), &self.config.rules);
        let ghost sv = vviews(rest@);
        violations.append(&mut rest);
        assert(vviews(violations@) =~= v0 + sv);
        Some(FileReport { path, token_count, complexity_score: 0, violations })
    }

    /// The scan report of the files: the reports of the reported files, in
    /// order, with the totals over them.
    pub fn scan(&self, files: Vec<ScannedFile>, duration_ms: usize) -> (r: ScanReport)
        requires
            scanned_tokens(reported_files(files@)) <= usize::MAX,
            scanned_violations(reported_files(files@), self.config.rules) <= usize::MAX,
        ensures
            reports_of(r.files@, reported_files(files@), self.config.rules),
            r.total_tokens == scanned_tokens(reported_files(files@)),
            r.total_violations == scanned_violations(reported_files(files@), self.config.rules),
            r.duration_ms == duration_ms,
    {
        let ghost all = files@;
        let ghost rules = self.config.rules;
        let mut reports: Vec<FileReport> = Vec::new();
        let mut rest = files;
        let n = rest.len();
        let mut i: usize = 0;
        while i < n
            invariant
                i <= n == all.len(),
                rules == self.config.rules,
                rest@ == all.subrange(i as int, n as int),
                reports_of(reports@, reported_files(all.take(i as int)), rules),
            decreases n - i,
        {
            let ghost fi = all[i as int];
            proof {
                assert(all.take(i + 1).drop_last() =~= all.take(i as int));
                assert(all.take(i + 1).last() == fi);
            }
            let f = rest.remove(0);
            assert(f == fi);
            let ghost r0 = reports@;
            match self.analyze_file(f) {
                Some(rep) => {
                    reports.push(rep);
                    assert(reports@.drop_last() =~= r0);
                },
                None => {},
            }
            assert(rest@ =~= all.subrange(i + 1, n as int));
            i += 1;
        }
        assert(all.take(n as int) =~= all);
        proof {
            lemma_sums_match(reports@, reported_files(all), rules);
        }
        let mut tokens: usize = 0;
        let mut count: usize = 0;
        let mut j: usize = 0;
        while j < reports.len()
            invariant
                j <= reports.len(),
                sum_tokens(reports@) <= usize::MAX,
                sum_violations(reports@) <= usize::MAX,
                tokens == sum_tokens(reports@.take(j as int)),
                count == sum_violations(reports@.take(j as int)),
            decreases reports.len() - j,
        {
            proof {
                assert(reports@.take(j + 1).drop_last() =~= reports@.take(j as int));
                lemma_sum_take(reports@, j + 1);
            }
            tokens = tokens + reports[j].token_count;
            count = count + reports[j].violations.len();
            j += 1;
        }
        assert(reports@.take(reports.len() as int) =~= reports@);
        ScanReport { files: reports, total_tokens: tokens, total_violations: count, duration_ms }
    }
}

/// The files that get a report, in order.
pub open spec fn reported_files(fs: Seq<ScannedFile>) -> Seq<ScannedFile>
    decreases fs.len(),
{
    if fs.len() == 0 {
        Seq::empty()
    } else if reported(fs.last()) {
        reported_files(fs.drop_last()).push(fs.last())
    } else {
        reported_files(fs.drop_last())
    }
}

/// `reps` are the reports of `fs`, one for one.
pub open spec fn reports_of(reps: Seq<FileReport>, fs: Seq<ScannedFile>, rules: RuleConfig) -> bool {
    &&& reps.len() == fs.len()
    &&& forall|k: int| 0 <= k < fs.len() ==> file_report_of(#[trigger] fs[k], reps[k], rules)
}

/// Sum of the token counts of scanned files.
pub open spec fn scanned_tokens(fs: Seq<ScannedFile>) -> nat
    decreases fs.len(),
{
    if fs.len() == 0 {
        0
    } else {
        scanned_tokens(fs.drop_last()) + fs.last().token_count as nat
    }
}

/// Sum of the violation counts that the reports of scanned files have.
pub open spec fn scanned_violations(fs: Seq<ScannedFile>, rules: RuleConfig) -> nat
    decreases fs.len(),
{
    if fs.len() == 0 {
        0
    } else {
        scanned_violations(fs.drop_last(), rules) + token_violation(
            fs.last().path@,
            fs.last().token_count as nat,
            rules,
        ).len() + scanned_syntax(fs.last(), rules).len()
    }
}

proof fn lemma_sums_match(reps: Seq<FileReport>, fs: Seq<ScannedFile>, rules: RuleConfig)
    requires
        reports_of(reps, fs, rules),
    ensures
        sum_tokens(reps) == scanned_tokens(fs),
        sum_violations(reps) == scanned_violations(fs, rules),
    decreases reps.len(),
{
    if reps.len() > 0 {
        let k = reps.len() - 1;
        assert(file_report_of(fs[k], reps[k], rules));
        assert(reports_of(reps.drop_last(), fs.drop_last(), rules)) by {
            assert forall|m: int| 0 <= m < fs.drop_last().len() implies file_report_of(
                #[trigger] fs.drop_last()[m],
                reps.drop_last()[m],
                rules,
            ) by {
                assert(file_report_of(fs[m], reps[m], rules));
            }
        }
        lemma_sums_match(reps.drop_last(), fs.drop_last(), rules);
        assert(vviews(reps[k].violations@).len() == reps[k].violations@.len());
    }
}

proof fn lemma_sum_take(fs: Seq<FileReport>, j: int)
    requires
        0 <= j <= fs.len(),
    ensures
        sum_tokens(fs.take(j)) <= sum_tokens(fs),
        sum_violations(fs.take(j)) <= sum_violations(fs),
    decreases fs.len(),
{
    if j == fs.len() {
        assert(fs.take(j) =~= fs);
    } else {
        lemma_sum_take(fs.drop_last(), j);
        assert(fs.drop_last().take(j) =~= fs.take(j));
    }
}

/// The number of violations in the files that broke some law.
pub fn count_failures(report: &ScanReport) -> (r: usize)
    requires
        sum_violations(report.files@) <= usize::MAX,
    ensures
        r == sum_violations(report.files@),
{
    let fs = &report.files;
    let mut count: usize = 0;
    let mut j: usize = 0;
    while j < fs.len()
        invariant
            j <= fs.len(),
            fs@ == report.files@,
            sum_violations(fs@) <= usize::MAX,
            count == sum_violations(fs@.take(j as int)),
        decreases fs.len() - j,
    {
        proof {
            assert(fs@.take(j + 1).drop_last() =~= fs@.take(j as int));
            lemma_sum_take(fs@, j + 1);
        }
        if !fs[j].is_clean() {
            count = count + fs[j].violations.len();
        }
        j += 1;
    }
    assert(fs@.take(fs.len() as int) =~= fs@);
    count
}

/// The closing line of a scan report.
pub open spec fn summary_text(failures: nat, tokens: nat, ms: nat) -> Seq<char> {
    if failures > 0 {
        "❌ Warden found "@ + decimal(failures) + " violations in "@ + decimal(ms) + "ms."@
    } else {
        "✅ All Clear. Scanned "@ + decimal(tokens) + " tokens in "@ + decimal(ms) + "ms."@
    }
}

/// The closing line of a scan report with `failures` violations.
pub fn summary_line(report: &ScanReport, failures: usize) -> (r: String)
    ensures
        r@ == summary_text(failures as nat, report.total_tokens as nat, report.duration_ms as nat),
{
    let mut m: Vec<char> = Vec::new();
    if failures > 0 {
        append_str(&mut m, "❌ Warden found ");
        append(&mut m, &decimal_chars(failures));
        append_str(&mut m, " violations in ");
        append(&mut m, &decimal_chars(report.duration_ms));
        append_str(&mut m, "ms.");
    } else {
        append_str(&mut m, "✅ All Clear. Scanned ");
        append(&mut m, &decimal_chars(report.total_tokens));
        append_str(&mut m, " tokens in ");
        append(&mut m, &decimal_chars(report.duration_ms));
        append_str(&mut m, "ms.");
    }
    from_chars(&m)
}

/// What a walk of a file's syntax tree found: the captured function names,
/// every node with its metrics, and the matches of the banned-call query.
#[derive(Debug, Clone)]
pub struct SyntaxFacts {
    pub names: Vec<FunctionName>,
    pub nodes: Vec<NodeMetrics>,
    pub banned: Vec<Vec<Capture>>,
}

/// The syntax violations of a file: naming, then metrics, then banned
/// calls for the languages that have a banned-call query.
pub open spec fn syntax_violations(
    lang: crate::lang::Lang,
    filename: Seq<char>,
    names: Seq<NameView>,
    nodes: Seq<NodeMetrics>,
    banned: Seq<Seq<CaptureView>>,
    config: RuleConfig,
) -> Seq<(int, Seq<char>, Seq<char>)> {
    naming_check(filename, names, config) + metric_violations(nodes, config) + if crate::lang::q_banned_text(lang) is Some {
        banned_violations(banned)
    } else {
        Seq::empty()
    }
}

/// The syntax violations of what a walk found.
pub open spec fn facts_violations(
    lang: crate::lang::Lang,
    filename: Seq<char>,
    facts: SyntaxFacts,
    config: RuleConfig,
) -> Seq<(int, Seq<char>, Seq<char>)> {
    syntax_violations(
        lang,
        filename,
        names_view(facts.names@),
        facts.nodes@,
        matches_view(facts.banned@),
        config,
    )
}

/// The syntax violations of a file in the given language.
pub fn run_analysis(
    lang: crate::lang::Lang,
    filename: &str,
    facts: &SyntaxFacts,
    config: &RuleConfig,
) -> (r: Vec<Violation>)
    ensures
        vviews(r@) == facts_violations(lang, filename@, *facts, *config),
{
    let mut out: Vec<Violation> = Vec::new();
    assert(vviews(out@) =~= Seq::<(int, Seq<char>, Seq<char>)>::empty());
    check_naming(filename, facts.names.as_slice(), config, &mut out);
    check_metrics(facts.nodes.as_slice(), config, &mut out);
    let ghost o1 = vviews(out@);
    if lang.q_banned().is_some() {
        check_banned(facts.banned.as_slice(), &mut out);
    } else {
        assert(o1 + Seq::<(int, Seq<char>, Seq<char>)>::empty() =~= o1);
    }
    assert(vviews(out@) =~= facts_violations(lang, filename@, *facts, *config));
    out
}

/// The rule that frames the violations section.
pub open spec fn rule_line() -> Seq<char> {
    "═══════════════════════════════════════════════════════════════════"@
}

/// One violation of the violations section.
pub open spec fn violation_entry(path: Seq<char>, v: Violation) -> Seq<char> {
    "FILE: "@ + path + "\nLAW:  "@ + v.law@ + "\nLINE: "@ + decimal((v.row + 1) as nat) + "\nERR:  "@
        + v.message@ + "\n────────────────────────────────────────\n"@
}

/// The entries of a file's violations, in order.
pub open spec fn file_entries(path: Seq<char>, vs: Seq<Violation>) -> Seq<char>
    decreases vs.len(),
{
    if vs.len() == 0 {
        Seq::empty()
    } else {
        file_entries(path, vs.drop_last()) + violation_entry(path, vs.last())
    }
}

/// The entries of all files' violations, in order.
pub open spec fn report_entries(fs: Seq<FileReport>) -> Seq<char>
    decreases fs.len(),
{
    if fs.len() == 0 {
        Seq::empty()
    } else {
        report_entries(fs.drop_last()) + file_entries(fs.last().path@, fs.last().violations@)
    }
}

/// The section that lists a report's violations ahead of the packed code;
/// empty when no law was broken.
pub open spec fn violations_section(r: ScanReport) -> Seq<char> {
    if r.total_violations > 0 {
        rule_line() + "\n⚠️  ACTIVE VIOLATIONS (PRIORITY FIX REQUIRED)\n"@ + rule_line() + "\n\n"@
            + report_entries(r.files@) + "\n"@
    } else {
        Seq::empty()
    }
}

/// Every violation of the report lies on a row before the last one.
pub open spec fn rows_bounded(fs: Seq<FileReport>) -> bool {
    forall|i: int, j: int|
        0 <= i < fs.len() && 0 <= j < fs[i].violations@.len() ==> (#[trigger] fs[i].violations@[j]).row
            < usize::MAX
}

/// Appends one file's entries.
fn write_file_entries(out: &mut Vec<char>, path: &str, vs: &Vec<Violation>)
    requires
        forall|j: int| 0 <= j < vs@.len() ==> (#[trigger] vs@[j]).row < usize::MAX,
    ensures
        final(out)@ == old(out)@ + file_entries(path@, vs@),
{
    let ghost start = out@;
    let mut j: usize = 0;
    while j < vs.len()
        invariant
            j <= vs.len(),
            forall|k: int| 0 <= k < vs@.len() ==> (#[trigger] vs@[k]).row < usize::MAX,
            out@ == start + file_entries(path@, vs@.take(j as int)),
        decreases vs.len() - j,
    {
        proof {
            assert(vs@.take(j + 1).drop_last() =~= vs@.take(j as int));
            assert(vs@.take(j + 1).last() == vs@[j as int]);
        }
        let v = &vs[j];
        let ghost o0 = out@;
        append_str(out, "FILE: ");
        append_str(out, path);
        append_str(out, "\nLAW:  ");
        append_str(out, v.law);
        append_str(out, "\nLINE: ");
        append(out, &decimal_chars(v.row + 1));
        append_str(out, "\nERR:  ");
        append_str(out, v.message.as_str());
        append_str(out, "\n────────────────────────────────────────\n");
        assert(out@ =~= o0 + violation_entry(path@, *v));
        j += 1;
    }
    assert(vs@.take(vs.len() as int) =~= vs@);
}

/// The section that lists a report's violations ahead of the packed code.
pub fn violations_block(report: &ScanReport) -> (r: String)
    requires
        rows_bounded(report.files@),
    ensures
        r@ == violations_section(*report),
{
    let mut out: Vec<char> = Vec::new();
    if !report.has_errors() {
        return from_chars(&out);
    }
    append_str(&mut out, "═══════════════════════════════════════════════════════════════════");
    append_str(&mut out, "\n⚠️  ACTIVE VIOLATIONS (PRIORITY FIX REQUIRED)\n");
    append_str(&mut out, "═══════════════════════════════════════════════════════════════════");
    append_str(&mut out, "\n\n");
    let ghost head = out@;
    let fs = &report.files;
    let mut i: usize = 0;
    while i < fs.len()
        invariant
            i <= fs.len(),
            fs@ == report.files@,
            rows_bounded(fs@),
            out@ == head + report_entries(fs@.take(i as int)),
        decreases fs.len() - i,
    {
        proof {
            assert(fs@.take(i + 1).drop_last() =~= fs@.take(i as int));
            assert(fs@.take(i + 1).last() == fs@[i as int]);
            assert forall|j: int| 0 <= j < fs@[i as int].violations@.len() implies (
            #[trigger] fs@[i as int].violations@[j]).row < usize::MAX by {
                assert(0 <= i < fs@.len());
            }
        }
        write_file_entries(&mut out, fs[i].path.as_str(), &fs[i].violations);
        i += 1;
    }
    assert(fs@.take(fs.len() as int) =~= fs@);
    append_str(&mut out, "\n");
    from_chars(&out)
}

/// A violation with the advice that goes with it.
#[derive(Debug, Clone)]
pub struct Finding {
    pub violation: Violation,
    pub help: &'static str,
}

/// The advice for a syntax violation: rename for the naming law, else add
/// error handling.
pub open spec fn syntax_help(law: Seq<char>) -> Seq<char> {
    if law == LAW_OF_BLUNTNESS@ {
        "Rename function."@
    } else {
        "Add Error Handling."@
    }
}

/// The advice for each syntax violation, in order.
pub open spec fn syntax_findings(vs: Seq<(int, Seq<char>, Seq<char>)>) -> Seq<
    ((int, Seq<char>, Seq<char>), Seq<char>),
>
    decreases vs.len(),
{
    if vs.len() == 0 {
        Seq::empty()
    } else {
        syntax_findings(vs.drop_last()).push((vs.last(), syntax_help(vs.last().2)))
    }
}

/// Findings as values.
pub open spec fn fviews(fs: Seq<Finding>) -> Seq<((int, Seq<char>, Seq<char>), Seq<char>)> {
    fs.map_values(|f: Finding| (vview(f.violation), f.help@))
}

/// What the file check finds: nothing for an unreadable file or one marked
/// `// warden:ignore` or `# warden:ignore`; else the size violation when
/// the file has more tokens than allowed, then the syntax violations.
pub open spec fn file_findings(f: ScannedFile, rules: RuleConfig) -> Seq<
    ((int, Seq<char>, Seq<char>), Seq<char>),
> {
    match f.content {
        None => Seq::empty(),
        Some(c) => if crate::text::contains(c@, "// warden:ignore"@) || crate::text::contains(
            c@,
            "# warden:ignore"@,
        ) {
            Seq::empty()
        } else {
            (if f.token_count > rules.max_file_tokens {
                seq![
                    (
                        (
                            0int,
                            "File size is "@ + decimal(f.token_count as nat) + " tokens (Limit: "@
                                + decimal(rules.max_file_tokens as nat) + ")"@,
                            LAW_OF_ATOMICITY@,
                        ),
                        "Split this file into smaller modules."@,
                    ),
                ]
            } else {
                Seq::empty()
            }) + syntax_findings(file_syntax_of(f.path@, c@, rules))
        },
    }
}

impl RuleEngine {
    /// The findings of the file check; the file passes when there are none.
    pub fn check_file(&self, file: &ScannedFile) -> (r: Vec<Finding>)
        ensures
            fviews(r@) == file_findings(*file, self.config.rules),
    {
        let mut out: Vec<Finding> = Vec::new();
        let text = match &file.content {
            Some(c) => c,
            None => {
                assert(fviews(out@) =~= Seq::empty());
                return out;
            },
        };
        let t = crate::text::to_chars(text.as_str());
        if crate::text::contains_str(&t, "// warden:ignore") || crate::text::contains_str(
            &t,
            "# warden:ignore",
        ) {
            assert(fviews(out@) =~= Seq::empty());
            return out;
        }
        let max = self.config.rules.max_file_tokens;
        if file.token_count > max {
            let mut m: Vec<char> = Vec::new();
            append_str(&mut m, "File size is ");
            append(&mut m, &decimal_chars(file.token_count));
            append_str(&mut m, " tokens (Limit: ");
            append(&mut m, &decimal_chars(max));
            append_str(&mut m, ")");
            out.push(
                Finding {
                    violation: Violation { row: 0, message: from_chars(&m), law: LAW_OF_ATOMICITY },
                    help: "Split this file into smaller modules.",
                },
            );
        }
        let ghost head = fviews(out@);
        let vs = file_syntax(file.path.as_str(), text.as_str(), &self.config.rules);
        let ghost vv = vviews(vs@);
        let mut i: usize = 0;
        while i < vs.len()
            invariant
                i <= vs.len(),
                vv == vviews(vs@),
                fviews(out@) == head + syntax_findings(vv.take(i as int)),
            decreases vs.len() - i,
        {
            proof {
                assert(vv.take(i + 1).drop_last() =~= vv.take(i as int));
                assert(vv.take(i + 1).last() == vview(vs@[i as int]));
            }
            let v = &vs[i];
            let law = crate::text::to_chars(v.law);
            let help: &'static str = if crate::text::eq_str(&law, LAW_OF_BLUNTNESS) {
                "Rename function."
            } else {
                "Add Error Handling."
            };
            let ghost o0 = fviews(out@);
            out.push(
                Finding {
                    violation: Violation { row: v.row, message: v.message.clone(), law: v.law },
                    help,
                },
            );
            assert(fviews(out@) =~= o0.push((vview(*v), syntax_help(v.law@))));
            i += 1;
        }
        assert(vv.take(vs.len() as int) =~= vv);
        out
    }
}

} // verus!
