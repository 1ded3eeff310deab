//! Pure helpers of the naming check: how many words a name has, and which
//! files the checks skip.
use vstd::prelude::*;
use crate::apply::types::strings_view;
use crate::text::{contains, find_chars, split_char, split_on, to_chars};

verus! {

/// What `char::is_uppercase` returns for `c` (the Unicode `Uppercase`
/// property).
pub uninterp spec fn is_upper(c: char) -> bool;

/// `char::is_uppercase`.
#[verifier::external_body]
fn char_is_uppercase(c: char) -> (r: bool)
    ensures
        r == is_upper(c),
{
    c.is_uppercase()
}

/// Number of upper-case characters among the first `n` of `s`.
pub open spec fn count_upper(s: Seq<char>, n: int) -> nat
    decreases n,
{
    if n <= 0 || n > s.len() {
        0
    } else {
        count_upper(s, n - 1) + if is_upper(s[n - 1]) { 1nat } else { 0nat }
    }
}

/// The number of words in a name: its `_`-separated pieces in snake case;
/// else one per upper-case letter, plus one for a lower-case start.
pub open spec fn word_count(name: Seq<char>) -> nat {
    if name.contains('_') {
        split_char(name, '_').len()
    } else {
        let caps = count_upper(name, name.len() as int);
        if name.len() > 0 && is_upper(name[0]) {
            caps
        } else {
            caps + 1
        }
    }
}

proof fn lemma_count_upper_bound(s: Seq<char>, n: int)
    requires
        0 <= n <= s.len(),
    ensures
        count_upper(s, n) <= n,
    decreases n,
{
    if n > 0 {
        lemma_count_upper_bound(s, n - 1);
    }
}

/// Past its first character, a name has at most one upper-case character
/// for each further character.
proof fn lemma_count_upper_tail(s: Seq<char>, n: int)
    requires
        1 <= n <= s.len(),
    ensures
        count_upper(s, n) <= n - 1 + if is_upper(s[0]) { 1int } else { 0int },
    decreases n,
{
    assert(count_upper(s, n) == count_upper(s, n - 1) + if is_upper(s[n - 1]) { 1nat } else { 0nat });
    if n > 1 {
        lemma_count_upper_tail(s, n - 1);
    } else {
        assert(count_upper(s, 0) == 0);
    }
}

/// The number of words in a function name.
pub fn count_words(name: &str) -> (r: usize)
    ensures
        r == word_count(name@),
{
    let v = to_chars(name);
    let mut has_underscore = false;
    let mut i: usize = 0;
    while i < v.len()
        invariant
            i <= v.len(),
            has_underscore == exists|k: int| 0 <= k < i && v@[k] == '_',
        decreases v.len() - i,
    {
        if v[i] == '_' {
            has_underscore = true;
        }
        i += 1;
    }
    proof {
        if has_underscore {
            let k = choose|k: int| 0 <= k < v.len() && v@[k] == '_';
            assert(v@.contains('_'));
        }
    }
    if has_underscore {
        let parts = split_on(&v, '_');
        return parts.len();
    }
    let mut caps: usize = 0;
    let mut j: usize = 0;
    while j < v.len()
        invariant
            j <= v.len(),
            caps == count_upper(v@, j as int),
        decreases v.len() - j,
    {
        proof {
            lemma_count_upper_bound(v@, j as int);
        }
        if char_is_uppercase(v[j]) {
            caps += 1;
        }
        j += 1;
    }
    proof {
        lemma_count_upper_bound(v@, v.len() as int);
        if v.len() > 0 {
            lemma_count_upper_tail(v@, v.len() as int);
        }
    }
    if v.len() > 0 && char_is_uppercase(v[0]) {
        caps
    } else {
        caps + 1
    }
}

/// Some pattern occurs in the file name.
pub open spec fn ignored(filename: Seq<char>, patterns: Seq<Seq<char>>) -> bool {
    exists|i: int| 0 <= i < patterns.len() && contains(filename, #[trigger] patterns[i])
}

/// Whether one of the patterns occurs in the file name.
pub fn is_ignored(filename: &str, patterns: &[String]) -> (r: bool)
    ensures
        r == ignored(filename@, strings_view(patterns@)),
{
    let f = to_chars(filename);
    let ghost pv = strings_view(patterns@);
    let mut i: usize = 0;
    while i < patterns.len()
        invariant
            i <= patterns.len(),
            pv == strings_view(patterns@),
            f@ == filename@,
            forall|k: int| 0 <= k < i ==> !contains(f@, #[trigger] pv[k]),
        decreases patterns.len() - i,
    {
        assert(pv[i as int] == patterns@[i as int]@);
        let p = to_chars(patterns[i].as_str());
        if find_chars(&f, &p).is_some() {
            assert(contains(f@, pv[i as int]));
            return true;
        }
        i += 1;
    }
    false
}

} // verus!
