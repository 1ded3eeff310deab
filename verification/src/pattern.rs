//! Regular expressions, through the `regex` crate.
//!
//! A `Pattern` pairs a compiled `regex::Regex` with the pattern text it was
//! compiled from. What a search returns is named by an uninterpreted spec
//! function of the pattern text and the haystack, since the semantics of a
//! regular-expression engine take far more than a few lines to state.
use vstd::prelude::*;
use crate::text::{to_chars, from_chars};

verus! {

/// The compiled regular expression type of the `regex` crate.
#[verifier::external_type_specification]
#[verifier::external_body]
pub struct ExRegex(regex::Regex);

/// Whether `regex::Regex::new` accepts `pattern`.
pub uninterp spec fn regex_compiles(pattern: Seq<char>) -> bool;

/// What `Regex::captures` returns on `haystack` for the regex compiled from
/// `pattern`: `None` without a match, else the text of each capture group in
/// order (group 0 is the whole match), `None` for groups that did not take
/// part in the match.
pub uninterp spec fn regex_captures(pattern: Seq<char>, haystack: Seq<char>) -> Option<
    Seq<Option<Seq<char>>>,
>;

/// What `Regex::find_at` returns, in character positions: the start and end
/// of the leftmost match that begins at or after `start`.
pub uninterp spec fn regex_find_at(pattern: Seq<char>, haystack: Seq<char>, start: int) -> Option<
    (int, int),
>;

/// What `Regex::replace` returns with a literal replacement: `haystack`
/// with its leftmost match (the one a search from the start finds)
/// replaced by `replacement`, or `haystack` itself without a match.
pub open spec fn replace_first(pattern: Seq<char>, haystack: Seq<char>, replacement: Seq<char>) -> Seq<
    char,
> {
    match regex_find_at(pattern, haystack, 0) {
        Some((a, b)) => haystack.subrange(0, a) + replacement + haystack.subrange(
            b,
            haystack.len() as int,
        ),
        None => haystack,
    }
}

/// The message of the error that `regex::Regex::new` reports for
/// `pattern`.
pub uninterp spec fn regex_error_text(pattern: Seq<char>) -> Seq<char>;

/// `regex::Regex::new`: compiles `pattern`, or gives the text of its
/// error. Both depend on the pattern alone.
#[verifier::external_body]
fn compile(pattern: &str) -> (r: Result<regex::Regex, String>)
    ensures
        r is Ok <==> regex_compiles(pattern@),
        r matches Err(m) ==> m@ == regex_error_text(pattern@),
{
    regex::Regex::new(pattern).map_err(|e| e.to_string())
}

/// A compiled regular expression together with its source text.
pub struct Pattern {
    re: regex::Regex,
    source: Ghost<Seq<char>>,
}

/// The view of captured groups.
pub open spec fn groups_view(g: Option<Vec<Option<String>>>) -> Option<Seq<Option<Seq<char>>>> {
    match g {
        None => None,
        Some(v) => Some(
            v@.map_values(
                |o: Option<String>|
                    match o {
                        Some(s) => Some(s@),
                        None => None,
                    },
            ),
        ),
    }
}

impl Pattern {
    /// The pattern text this regex was compiled from.
    pub closed spec fn source(&self) -> Seq<char> {
        self.source@
    }

    /// Compiles `pattern`; the error text when the `regex` crate rejects it.
    pub fn new(pattern: &str) -> (r: Result<Pattern, String>)
        ensures
            r is Ok <==> regex_compiles(pattern@),
            r matches Ok(p) ==> p.source() == pattern@,
            r matches Err(m) ==> m@ == regex_error_text(pattern@),
    {
        match compile(pattern) {
            Ok(re) => Ok(Pattern { re, source: Ghost(pattern@) }),
            Err(e) => Err(e),
        }
    }

    /// `regex::Regex::captures`: the capture groups of the leftmost match.
    /// Sound because a `Pattern` is only built by `Pattern::new`, which
    /// compiles `source`.
    #[verifier::external_body]
    pub(crate) fn captures(&self, haystack: &str) -> (r: Option<Vec<Option<String>>>)
        ensures
            groups_view(r) == regex_captures(self.source(), haystack@),
    {
        self.re.captures(haystack).map(
            |c| c.iter().map(|m| m.map(|m| m.as_str().to_string())).collect(),
        )
    }

    /// `regex::Regex::find_at`, with positions counted in characters.
    /// `start` is converted to the byte offset of that character and the
    /// byte offsets of the match back to character counts. The search runs
    /// over `start..` of the haystack, so a match lies within it.
    #[verifier::external_body]
    pub(crate) fn find_at(&self, haystack: &str, start: usize) -> (r: Option<(usize, usize)>)
        requires
            start <= haystack@.len(),
        ensures
            match r {
                Some((a, b)) => regex_find_at(self.source(), haystack@, start as int) == Some(
                    (a as int, b as int),
                ) && start <= a <= b <= haystack@.len(),
                None => regex_find_at(self.source(), haystack@, start as int) is None,
            },
    {
        let b = haystack.char_indices().nth(start).map_or(haystack.len(), |(i, _)| i);
        self.re.find_at(haystack, b).map(
            |m| (haystack[..m.start()].chars().count(), haystack[..m.end()].chars().count()),
        )
    }

    /// `regex::Regex::is_match`: whether the regex matches anywhere in the
    /// haystack, which is whether `find` (a search from the start) finds a
    /// match.
    #[verifier::external_body]
    pub(crate) fn is_match(&self, haystack: &str) -> (r: bool)
        ensures
            r == regex_find_at(self.source(), haystack@, 0) is Some,
    {
        self.re.is_match(haystack)
    }

    /// `regex::Regex::replace` with `NoExpand`: the replacement is taken
    /// literally and put in place of the first match of `find_iter`, which
    /// is the match a search from the start finds; without a match the
    /// haystack comes back unchanged.
    #[verifier::external_body]
    pub(crate) fn replace(&self, haystack: &str, replacement: &str) -> (r: String)
        ensures
            r@ == replace_first(self.source(), haystack@, replacement@),
    {
        self.re.replace(haystack, regex::NoExpand(replacement)).into_owned()
    }
}

/// Capture groups of `pattern` in `haystack`; `None` also when the pattern
/// does not compile.
pub fn captures_of(pattern: &str, haystack: &Vec<char>) -> (r: Option<Vec<Option<String>>>)
    ensures
        groups_view(r) == (if regex_compiles(pattern@) {
            regex_captures(pattern@, haystack@)
        } else {
            None
        }),
{
    match Pattern::new(pattern) {
        Ok(p) => {
            let h = from_chars(haystack);
            p.captures(h.as_str())
        },
        Err(_) => None,
    }
}

/// The text of capture group `i`, if present.
pub open spec fn group_text(g: Seq<Option<Seq<char>>>, i: int) -> Option<Seq<char>> {
    if 0 <= i < g.len() {
        g[i]
    } else {
        None
    }
}

/// `Captures::get(i)`.
pub fn group(g: &Vec<Option<String>>, i: usize) -> (r: Option<Vec<char>>)
    ensures
        match group_text(groups_view(Some(*g))->0, i as int) {
            Some(t) => r matches Some(x) && x@ == t,
            None => r is None,
        },
{
    if i < g.len() {
        match &g[i] {
            Some(s) => Some(to_chars(s.as_str())),
            None => None,
        }
    } else {
        None
    }
}

} // verus!
