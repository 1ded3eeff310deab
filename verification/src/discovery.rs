//! File discovery: which enumerated paths are kept.
use vstd::prelude::*;
use crate::config::pattern_sources;
use crate::config::types::Config;
use crate::constants::{
    should_prune, should_prune_spec, BIN_EXT_PATTERN, CODE_BARE_PATTERN, CODE_EXT_PATTERN,
    SECRET_PATTERN,
};
use crate::error::SlopChopError;
use crate::pattern::{regex_compiles, regex_error_text, regex_find_at, Pattern};
use crate::text::{
    contains, from_chars, lower_unicode, replace, replace_str, split_char, split_on, to_chars,
    to_lowercase_str, views, contains_str,
};

verus! {

/// Some component of the path is pruned.
pub open spec fn has_pruned_component(p: Seq<char>) -> bool {
    exists|i: int| 0 <= i < split_char(p, '/').len() && should_prune_spec(
        #[trigger] split_char(p, '/')[i],
    )
}

/// Whether some component of the path is a pruned name.
pub fn contains_pruned_component(path: &str) -> (r: bool)
    ensures
        r == has_pruned_component(path@),
{
    let v = to_chars(path);
    let parts = split_on(&v, '/');
    let ghost pv = views(parts@);
    let mut i: usize = 0;
    while i < parts.len()
        invariant
            i <= parts.len(),
            pv == views(parts@),
            pv == split_char(path@, '/'),
            forall|j: int| 0 <= j < i ==> !should_prune_spec(#[trigger] pv[j]),
        decreases parts.len() - i,
    {
        assert(pv[i as int] == parts@[i as int]@);
        let s = from_chars(&parts[i]);
        if should_prune(s.as_str()) {
            return true;
        }
        i += 1;
    }
    false
}

/// The paths without a pruned component, in order.
pub open spec fn unpruned(ps: Seq<Seq<char>>) -> Seq<Seq<char>>
    decreases ps.len(),
{
    if ps.len() == 0 {
        Seq::empty()
    } else {
        unpruned(ps.drop_last()) + if has_pruned_component(ps.last()) {
            Seq::empty()
        } else {
            seq![ps.last()]
        }
    }
}

/// Drops the paths that have a pruned component.
pub fn filter_pruned(paths: Vec<String>) -> (r: Vec<String>)
    ensures
        crate::apply::types::strings_view(r@) == unpruned(crate::apply::types::strings_view(paths@)),
{
    let ghost pv = crate::apply::types::strings_view(paths@);
    let mut out: Vec<String> = Vec::new();
    let mut i: usize = 0;
    while i < paths.len()
        invariant
            i <= paths.len(),
            pv == crate::apply::types::strings_view(paths@),
            crate::apply::types::strings_view(out@) == unpruned(pv.take(i as int)),
        decreases paths.len() - i,
    {
        let ghost o0 = crate::apply::types::strings_view(out@);
        proof {
            assert(pv.take(i + 1).drop_last() =~= pv.take(i as int));
            assert(pv.take(i + 1).last() == paths@[i as int]@);
        }
        if !contains_pruned_component(paths[i].as_str()) {
            out.push(paths[i].clone());
        }
        assert(crate::apply::types::strings_view(out@) =~= unpruned(pv.take(i + 1)));
        i += 1;
    }
    assert(pv.take(paths.len() as int) =~= pv);
    out
}

/// `p` matches somewhere in `s`.
pub open spec fn matches(p: Seq<char>, s: Seq<char>) -> bool {
    regex_find_at(p, s, 0) is Some
}

/// A path that names source code by its extension or a known bare name.
pub open spec fn known_code(s: Seq<char>) -> bool {
    (regex_compiles(CODE_EXT_PATTERN@) && matches(CODE_EXT_PATTERN@, s)) || (regex_compiles(
        CODE_BARE_PATTERN@,
    ) && matches(CODE_BARE_PATTERN@, s))
}

/// Whether the path names source code by its extension or a known bare
/// name.
pub fn is_known_code(path_str: &str) -> (r: bool)
    ensures
        r == known_code(path_str@),
{
    let ext = match Pattern::new(CODE_EXT_PATTERN) {
        Ok(p) => p.is_match(path_str),
        Err(_) => false,
    };
    let bare = match Pattern::new(CODE_BARE_PATTERN) {
        Ok(p) => p.is_match(path_str),
        Err(_) => false,
    };
    ext || bare
}

/// Content that looks like a build file: its lower-case form holds one of
/// the build markers.
pub open spec fn has_build_markers_spec(content: Seq<char>) -> bool {
    build_markers_in(lower_unicode(content))
}

/// Lower-cased content that holds one of the build markers.
pub open spec fn build_markers_in(l: Seq<char>) -> bool {
    ||| contains(l, "find_package"@)
    ||| contains(l, "add_executable"@)
    ||| contains(l, "target_link_libraries"@)
    ||| contains(l, "cmake_minimum_required"@)
    ||| contains(l, "project("@)
    ||| contains(l, "add-apt-repository"@)
    ||| contains(l, "conanfile.py"@)
    ||| contains(l, "dependency"@)
    ||| contains(l, "require"@)
    ||| contains(l, "inc"@ + "lude"@)
    ||| contains(l, "import"@)
}

/// Whether file content looks like a build file.
pub fn has_build_markers(content: &str) -> (r: bool)
    ensures
        r == has_build_markers_spec(content@),
{
    let lower = to_lowercase_str(content);
    has_build_markers_lower(lower.as_str())
}

/// Whether already lower-cased content holds one of the build markers.
pub fn has_build_markers_lower(lower: &str) -> (r: bool)
    ensures
        r == build_markers_in(lower@),
{
    let l = to_chars(lower);
    contains_str(&l, "find_package") || contains_str(&l, "add_executable") || contains_str(
        &l,
        "target_link_libraries",
    ) || contains_str(&l, "cmake_minimum_required") || contains_str(&l, "project(")
        || contains_str(&l, "add-apt-repository") || contains_str(&l, "conanfile.py")
        || contains_str(&l, "dependency") || contains_str(&l, "require") || contains_chars_of(
        &l,
        "inc",
        "lude",
    ) || contains_str(&l, "import")
}

/// Whether `l` contains the word `a` + `b`.
fn contains_chars_of(l: &Vec<char>, a: &str, b: &str) -> (r: bool)
    ensures
        r == contains(l@, a@ + b@),
{
    let mut w = to_chars(a);
    crate::text::append_str(&mut w, b);
    crate::text::find_chars(l, &w).is_some()
}

/// Some pattern of `ps` matches `s`.
pub open spec fn any_matches(ps: Seq<Seq<char>>, s: Seq<char>) -> bool {
    exists|i: int| 0 <= i < ps.len() && matches(#[trigger] ps[i], s)
}

/// A path that the configuration keeps: backslashes read as slashes, it
/// is no secret, no binary and not excluded; with `code_only` it is code;
/// and some inclusion pattern matches it (when there are any).
pub open spec fn keep_config(path: Seq<char>, code_only: bool, incl: Seq<Seq<char>>, exclude: Seq<
    Seq<char>,
>) -> bool {
    let s = replace(path, "\\"@, "/"@);
    &&& !matches(SECRET_PATTERN@, s)
    &&& !matches(BIN_EXT_PATTERN@, s)
    &&& !any_matches(exclude, s)
    &&& code_only ==> (matches(CODE_EXT_PATTERN@, s) || matches(CODE_BARE_PATTERN@, s))
    &&& (incl.len() == 0 || any_matches(incl, s))
}

/// The paths kept by the configuration, in order.
pub open spec fn kept(ps: Seq<Seq<char>>, code_only: bool, incl: Seq<Seq<char>>, exclude: Seq<
    Seq<char>,
>) -> Seq<Seq<char>>
    decreases ps.len(),
{
    if ps.len() == 0 {
        Seq::empty()
    } else {
        kept(ps.drop_last(), code_only, incl, exclude) + if keep_config(
            ps.last(),
            code_only,
            incl,
            exclude,
        ) {
            seq![ps.last()]
        } else {
            Seq::empty()
        }
    }
}

fn any_match(ps: &Vec<Pattern>, s: &str) -> (r: bool)
    ensures
        r == any_matches(pattern_sources(ps@), s@),
{
    let ghost src = pattern_sources(ps@);
    let mut i: usize = 0;
    while i < ps.len()
        invariant
            i <= ps.len(),
            src == pattern_sources(ps@),
            forall|j: int| 0 <= j < i ==> !matches(#[trigger] src[j], s@),
        decreases ps.len() - i,
    {
        assert(src[i as int] == ps@[i as int].source());
        if ps[i].is_match(s) {
            return true;
        }
        i += 1;
    }
    false
}

fn compile_or_error(p: &str) -> (r: Result<Pattern, SlopChopError>)
    ensures
        match r {
            Ok(x) => regex_compiles(p@) && x.source() == p@,
            Err(e) => !regex_compiles(p@) && e == SlopChopError::Regex(e->Regex_0)
                && e->Regex_0@ == regex_error_text(p@),
        },
{
    match Pattern::new(p) {
        Ok(x) => Ok(x),
        Err(m) => Err(SlopChopError::Regex(m)),
    }
}

/// What `filter_config` gives: the error of the first pattern that does
/// not compile (the code patterns only with `code_only`), else the kept
/// paths.
pub open spec fn filter_config_spec(ps: Seq<Seq<char>>, c: &Config) -> Result<Seq<Seq<char>>, Seq<char>> {
    if !regex_compiles(BIN_EXT_PATTERN@) {
        Err(regex_error_text(BIN_EXT_PATTERN@))
    } else if !regex_compiles(SECRET_PATTERN@) {
        Err(regex_error_text(SECRET_PATTERN@))
    } else if c.code_only && !regex_compiles(CODE_EXT_PATTERN@) {
        Err(regex_error_text(CODE_EXT_PATTERN@))
    } else if c.code_only && !regex_compiles(CODE_BARE_PATTERN@) {
        Err(regex_error_text(CODE_BARE_PATTERN@))
    } else {
        Ok(
            kept(
                ps,
                c.code_only,
                pattern_sources(c.include_patterns@),
                pattern_sources(c.exclude_patterns@),
            ),
        )
    }
}

/// Keeps the paths that the configuration allows (see `keep_config`).
pub fn filter_config(files: Vec<String>, config: &Config) -> (r: Result<Vec<String>, SlopChopError>)
    ensures
        match filter_config_spec(crate::apply::types::strings_view(files@), config) {
            Ok(ps) => r matches Ok(v) && crate::apply::types::strings_view(v@) == ps,
            Err(m) => r matches Err(SlopChopError::Regex(e)) && e@ == m,
        },
{
    let bin = match compile_or_error(BIN_EXT_PATTERN) {
        Ok(p) => p,
        Err(e) => {
            return Err(e);
        },
    };
    let secret = match compile_or_error(SECRET_PATTERN) {
        Ok(p) => p,
        Err(e) => {
            return Err(e);
        },
    };
    let mut code: Option<Pattern> = None;
    let mut bare: Option<Pattern> = None;
    if config.code_only {
        match compile_or_error(CODE_EXT_PATTERN) {
            Ok(p) => {
                code = Some(p);
            },
            Err(e) => {
                return Err(e);
            },
        }
        match compile_or_error(CODE_BARE_PATTERN) {
            Ok(p) => {
                bare = Some(p);
            },
            Err(e) => {
                return Err(e);
            },
        }
    }
    let ghost pv = crate::apply::types::strings_view(files@);
    let ghost inc = pattern_sources(config.include_patterns@);
    let ghost exc = pattern_sources(config.exclude_patterns@);
    let mut out: Vec<String> = Vec::new();
    let mut i: usize = 0;
    while i < files.len()
        invariant
            i <= files.len(),
            pv == crate::apply::types::strings_view(files@),
            inc == pattern_sources(config.include_patterns@),
            exc == pattern_sources(config.exclude_patterns@),
            bin.source() == BIN_EXT_PATTERN@,
            secret.source() == SECRET_PATTERN@,
            config.code_only ==> (code matches Some(c) && c.source() == CODE_EXT_PATTERN@),
            config.code_only ==> (bare matches Some(b) && b.source() == CODE_BARE_PATTERN@),
            crate::apply::types::strings_view(out@) == kept(
                pv.take(i as int),
                config.code_only,
                inc,
                exc,
            ),
        decreases files.len() - i,
    {
        let ghost o0 = crate::apply::types::strings_view(out@);
        proof {
            assert(pv.take(i + 1).drop_last() =~= pv.take(i as int));
            assert(pv.take(i + 1).last() == files@[i as int]@);
        }
        let v = to_chars(files[i].as_str());
        proof {
            reveal_strlit("\\");
        }
        let sv = replace_str(&v, "\\", "/");
        let s = from_chars(&sv);
        let mut keep = !(secret.is_match(s.as_str()) || bin.is_match(s.as_str()) || any_match(
            &config.exclude_patterns,
            s.as_str(),
        ));
        if keep && config.code_only {
            let is_code = match (&code, &bare) {
                (Some(c), Some(b)) => c.is_match(s.as_str()) || b.is_match(s.as_str()),
                _ => false,
            };
            if !is_code {
                keep = false;
            }
        }
        if keep {
            keep = config.include_patterns.len() == 0 || any_match(
                &config.include_patterns,
                s.as_str(),
            );
        }
        if keep {
            out.push(files[i].clone());
        }
        assert(crate::apply::types::strings_view(out@) =~= kept(
            pv.take(i + 1),
            config.code_only,
            inc,
            exc,
        ));
        i += 1;
    }
    assert(pv.take(files.len() as int) =~= pv);
    Ok(out)
}

} // verus!
