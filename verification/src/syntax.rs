//! The syntax walk of a file, through tree-sitter.
//!
//! What tree-sitter finds when it parses a file's content and runs a query
//! over the tree is named by an uninterpreted spec function of the
//! language, the query text and the content: a grammar and a query engine
//! take far more than a few lines to state. From the matches, verified code
//! gathers the function names and the banned-call captures and hands them
//! to the rule checks.
use vstd::prelude::*;
use crate::analysis::{
    capture_view, captures_view, facts_violations, matches_view, names_view, run_analysis, syntax_violations, Capture,
    CaptureView, FunctionName, NameView, SyntaxFacts, Violation, vviews,
};
use crate::config::types::RuleConfig;
use crate::lang::{lang_of_ext, q_banned_text, q_naming_text, Lang};
use tree_sitter::{Parser, Query, QueryCursor};
use tree_sitter_python::language as python_language;
use tree_sitter_rust::language as rust_language;
use tree_sitter_typescript::language_typescript;

verus! {

/// What the tree-sitter query `query` matches in `content` parsed with the
/// grammar of `lang`: `None` when the query does not compile for that
/// grammar or the content does not parse; else, for each match in the
/// order tree-sitter reports them, its captures with their names, their
/// text (none where it is not valid UTF-8) and their rows.
pub uninterp spec fn query_matches(lang: Lang, query: Seq<char>, content: Seq<char>) -> Option<
    Seq<Seq<(Seq<char>, Option<Seq<char>>, int)>>,
>;

/// What `std::path::Path::extension` gives for `path`, as text.
pub uninterp spec fn path_extension(path: Seq<char>) -> Option<Seq<char>>;

/// A raw capture (name, text, row) as values.
pub open spec fn raw_capture_view(c: (String, Option<String>, usize)) -> CaptureView {
    (
        c.0@,
        match c.1 {
            Some(t) => Some(t@),
            None => None,
        },
        c.2 as int,
    )
}

/// Raw matches as values.
pub open spec fn raw_matches_view(ms: Seq<Vec<(String, Option<String>, usize)>>) -> Seq<Seq<CaptureView>> {
    ms.map_values(|m: Vec<(String, Option<String>, usize)>| m@.map_values(|c: (String, Option<String>, usize)| raw_capture_view(c)))
}

/// Raw matches, when there are any, as values.
pub open spec fn opt_matches_view(r: Option<Vec<Vec<(String, Option<String>, usize)>>>) -> Option<Seq<Seq<CaptureView>>> {
    match r {
        Some(v) => Some(raw_matches_view(v@)),
        None => None,
    }
}

/// tree-sitter's `Query::new`, `Parser::parse` and `QueryCursor::matches`:
/// parses `content` with the grammar of `lang` and runs `query` over the
/// whole tree. Each capture is converted to its name, its text and the row
/// where it starts; a query error or a failed parse gives `None`. The
/// result is named, not described.
#[verifier::external_body]
fn query_captures(lang: Lang, query: &str, content: &str) -> (r: Option<Vec<Vec<(String, Option<String>, usize)>>>)
    ensures
        opt_matches_view(r) == query_matches(lang, query@, content@),
{
    let grammar = match lang {
        Lang::Rust => rust_language(),
        Lang::Python => python_language(),
        Lang::TypeScript => language_typescript(),
    };
    let q = Query::new(grammar, query).ok()?;
    let mut parser = Parser::new();
    parser.set_language(grammar).ok()?;
    let tree = parser.parse(content, None)?;
    let src = content.as_bytes();
    let mut cursor = QueryCursor::new();
    Some(cursor.matches(&q, tree.root_node(), src).map(|m| m.captures.iter().map(|c| (q.capture_names()[c.index as usize].clone(), c.node.utf8_text(src).ok().map(str::to_string), c.node.start_position().row)).collect()).collect())
}

/// `std::path::Path::extension`, converted to text (a path made from text
/// has a textual extension). The result is named, not described.
#[verifier::external_body]
fn extension_of(path: &str) -> (r: Option<String>)
    ensures
        match r {
            Some(e) => path_extension(path@) == Some(e@),
            None => path_extension(path@) is None,
        },
{
    std::path::Path::new(path).extension().and_then(|s| s.to_str()).map(str::to_string)
}

/// The function name of one naming match: its first capture's text (`?`
/// where it is not valid UTF-8) and row; a match without captures names
/// nothing.
pub open spec fn name_of_match(m: Seq<CaptureView>) -> Seq<NameView> {
    if m.len() == 0 {
        Seq::empty()
    } else {
        seq![
            (
                match m[0].1 {
                    Some(t) => t,
                    None => "?"@,
                },
                m[0].2,
            ),
        ]
    }
}

/// The function names of the naming matches, in order.
pub open spec fn names_from(ms: Seq<Seq<CaptureView>>) -> Seq<NameView>
    decreases ms.len(),
{
    if ms.len() == 0 {
        Seq::empty()
    } else {
        names_from(ms.drop_last()) + name_of_match(ms.last())
    }
}

/// The function names that the naming matches `ms` found.
pub fn function_names(ms: &Vec<Vec<(String, Option<String>, usize)>>) -> (r: Vec<FunctionName>)
    ensures
        names_view(r@) == names_from(raw_matches_view(ms@)),
{
    let ghost mv = raw_matches_view(ms@);
    let mut out: Vec<FunctionName> = Vec::new();
    let mut i: usize = 0;
    while i < ms.len()
        invariant
            i <= ms.len(),
            mv == raw_matches_view(ms@),
            names_view(out@) == names_from(mv.take(i as int)),
        decreases ms.len() - i,
    {
        proof {
            assert(mv.take(i + 1).drop_last() =~= mv.take(i as int));
            assert(mv.take(i + 1).last() == mv[i as int]);
        }
        let ghost o0 = names_view(out@);
        let m = &ms[i];
        if m.len() > 0 {
            let c = &m[0];
            let name = match &c.1 {
                Some(t) => t.clone(),
                None => String::from_str("?"),
            };
            proof {
                reveal_strlit("?");
            }
            out.push(FunctionName { name, row: c.2 });
            assert(names_view(out@) =~= o0 + name_of_match(mv[i as int]));
        } else {
            assert(names_view(out@) =~= o0 + name_of_match(mv[i as int]));
        }
        i += 1;
    }
    assert(mv.take(ms.len() as int) =~= mv);
    out
}

/// The captures of raw matches, as the banned-call check takes them.
pub fn captures_of_matches(ms: &Vec<Vec<(String, Option<String>, usize)>>) -> (r: Vec<Vec<Capture>>)
    ensures
        matches_view(r@) == raw_matches_view(ms@),
{
    let ghost mv = raw_matches_view(ms@);
    let mut out: Vec<Vec<Capture>> = Vec::new();
    let mut i: usize = 0;
    while i < ms.len()
        invariant
            i <= ms.len(),
            mv == raw_matches_view(ms@),
            matches_view(out@) == mv.take(i as int),
        decreases ms.len() - i,
    {
        let m = &ms[i];
        let ghost cv = mv[i as int];
        let mut caps: Vec<Capture> = Vec::new();
        let mut j: usize = 0;
        while j < m.len()
            invariant
                j <= m.len(),
                cv == m@.map_values(|c: (String, Option<String>, usize)| raw_capture_view(c)),
                captures_view(caps@) == cv.take(j as int),
            decreases m.len() - j,
        {
            let c = &m[j];
            let text = match &c.1 {
                Some(t) => Some(t.clone()),
                None => None,
            };
            let name = c.0.clone();
            let cap = Capture { name, text, row: c.2 };
            assert(capture_view(cap) == cv[j as int]);
            let ghost c0 = captures_view(caps@);
            caps.push(cap);
            assert(captures_view(caps@) =~= c0.push(capture_view(cap)));
            assert(cv.take(j + 1) =~= cv.take(j as int).push(cv[j as int]));
            j += 1;
        }
        assert(cv.take(m.len() as int) =~= cv);
        let ghost o0 = matches_view(out@);
        assert(mv[i as int] == cv);
        out.push(caps);
        assert(matches_view(out@) =~= o0.push(cv));
        assert(mv.take(i + 1) =~= mv.take(i as int).push(mv[i as int]));
        i += 1;
    }
    assert(mv.take(ms.len() as int) =~= mv);
    out
}

/// The syntax violations of a file with extension `ext`: none for a
/// language without queries, or when the content does not parse or a query
/// does not compile; else the naming and banned-call violations of what the
/// queries found (no node metrics are measured).
pub open spec fn analysis_of(ext: Seq<char>, filename: Seq<char>, content: Seq<char>, config: RuleConfig) -> Seq<
    (int, Seq<char>, Seq<char>),
> {
    match lang_of_ext(ext) {
        None => Seq::empty(),
        Some(l) => match query_matches(l, q_naming_text(l), content) {
            None => Seq::empty(),
            Some(nm) => match q_banned_text(l) {
                None => syntax_violations(l, filename, names_from(nm), Seq::empty(), Seq::empty(), config),
                Some(bq) => match query_matches(l, bq, content) {
                    None => Seq::empty(),
                    Some(bm) => syntax_violations(l, filename, names_from(nm), Seq::empty(), bm, config),
                },
            },
        },
    }
}

/// An empty list of violations.
fn no_violations() -> (r: Vec<Violation>)
    ensures
        vviews(r@) == Seq::<(int, Seq<char>, Seq<char>)>::empty(),
{
    let r: Vec<Violation> = Vec::new();
    assert(vviews(r@) =~= Seq::<(int, Seq<char>, Seq<char>)>::empty());
    r
}

/// A JavaScript file is analysed exactly as a TypeScript file with the same
/// name and text: `js`, `jsx`, `ts` and `tsx` give the same violations.
pub proof fn law_javascript_checked_as_typescript(
    filename: Seq<char>,
    content: Seq<char>,
    config: RuleConfig,
)
    ensures
        analysis_of("js"@, filename, content, config) == analysis_of("ts"@, filename, content, config),
        analysis_of("jsx"@, filename, content, config) == analysis_of("ts"@, filename, content, config),
        analysis_of("tsx"@, filename, content, config) == analysis_of("ts"@, filename, content, config),
{
    crate::lang::law_extension_languages("js"@);
    crate::lang::law_extension_languages("jsx"@);
    crate::lang::law_extension_languages("ts"@);
    crate::lang::law_extension_languages("tsx"@);
}

/// The syntax violations of file `filename` with extension `ext` and text
/// `content` (see `analysis_of`).
pub fn analyze(ext: &str, filename: &str, content: &str, config: &RuleConfig) -> (r: Vec<Violation>)
    ensures
        vviews(r@) == analysis_of(ext@, filename@, content@, *config),
{
    let lang = match Lang::from_ext(ext) {
        Some(l) => l,
        None => {
            return no_violations();
        },
    };
    let named = match query_captures(lang, lang.q_naming(), content) {
        Some(m) => m,
        None => {
            return no_violations();
        },
    };
    let banned = match lang.q_banned() {
        Some(q) => match query_captures(lang, q, content) {
            Some(m) => captures_of_matches(&m),
            None => {
                return no_violations();
            },
        },
        None => Vec::new(),
    };
    let facts = SyntaxFacts { names: function_names(&named), nodes: Vec::new(), banned };
    proof {
        assert(facts.nodes@ =~= Seq::<crate::analysis::NodeMetrics>::empty());
        if q_banned_text(lang) is None {
            assert(matches_view(facts.banned@) =~= Seq::<Seq<CaptureView>>::empty());
        }
    }
    let r = run_analysis(lang, filename, &facts, config);
    assert(vviews(r@) == facts_violations(lang, filename@, facts, *config));
    r
}

/// The syntax violations of the file at `path` with text `content`: those
/// of its extension, none for a path without one.
pub open spec fn file_syntax_of(path: Seq<char>, content: Seq<char>, config: RuleConfig) -> Seq<
    (int, Seq<char>, Seq<char>),
> {
    match path_extension(path) {
        Some(e) => analysis_of(e, path, content, config),
        None => Seq::empty(),
    }
}

/// The syntax violations of the file at `path` with text `content`.
pub fn file_syntax(path: &str, content: &str, config: &RuleConfig) -> (r: Vec<Violation>)
    ensures
        vviews(r@) == file_syntax_of(path@, content@, *config),
{
    match extension_of(path) {
        Some(e) => analyze(e.as_str(), path, content, config),
        None => no_violations(),
    }
}

} // verus!
