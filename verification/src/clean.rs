//! The `clean` command's decisions: keeping the context file out of git
//! and the commit message for what was done.
use vstd::prelude::*;
use crate::apply::types::strings_view;
use crate::text::{
    append, append_str, eq_str, ends_with, ends_with_str, from_chars, join, lines, lower_unicode,
    split_lines, to_chars, to_lowercase_str, trim, trim_chars, views,
};

verus! {

/// The file that packing leaves behind.
pub const CONTEXT_FILE: &'static str = "context.txt";

/// The ignore file of git.
pub const GITIGNORE_FILE: &'static str = ".gitignore";

/// The new `.gitignore` content, or `None` when a line already names the
/// context file: the name is appended on a line of its own.
pub open spec fn gitignore_update(content: Seq<char>) -> Option<Seq<char>> {
    if exists|i: int| 0 <= i < lines(content).len() && #[trigger] trim(lines(content)[i]) == CONTEXT_FILE@ {
        None
    } else if content.len() == 0 || ends_with(content, "\n"@) {
        Some(content + CONTEXT_FILE@ + "\n"@)
    } else {
        Some(content + "\n"@ + CONTEXT_FILE@ + "\n"@)
    }
}

/// What `.gitignore` should become so that it ignores the context file;
/// `None` when it already does.
pub fn ensure_gitignore(content: &str) -> (r: Option<String>)
    ensures
        match gitignore_update(content@) {
            Some(n) => r matches Some(s) && s@ == n,
            None => r is None,
        },
{
    let c = to_chars(content);
    let ls = split_lines(&c);
    let ghost lv = views(ls@);
    let mut i: usize = 0;
    while i < ls.len()
        invariant
            i <= ls.len(),
            lv == views(ls@),
            lv == lines(content@),
            forall|k: int| 0 <= k < i ==> #[trigger] trim(lv[k]) != CONTEXT_FILE@,
        decreases ls.len() - i,
    {
        assert(lv[i as int] == ls@[i as int]@);
        let t = trim_chars(&ls[i]);
        if eq_str(&t, CONTEXT_FILE) {
            assert(trim(lv[i as int]) == CONTEXT_FILE@);
            return None;
        }
        i += 1;
    }
    let mut out = c;
    if out.len() == 0 || ends_with_str(&out, "\n") {
        append_str(&mut out, CONTEXT_FILE);
        append_str(&mut out, "\n");
    } else {
        append_str(&mut out, "\n");
        append_str(&mut out, CONTEXT_FILE);
        append_str(&mut out, "\n");
    }
    Some(from_chars(&out))
}

/// The commit message for the actions taken: `chore: ` and the actions,
/// joined with `, ` and lower-cased.
pub open spec fn clean_commit_message(actions: Seq<Seq<char>>) -> Seq<char> {
    "chore: "@ + lower_unicode(join(actions, ", "@))
}

/// The commit message for the actions taken.
pub fn commit_message(actions: &[&str]) -> (r: String)
    ensures
        r@ == clean_commit_message(actions@.map_values(|a: &str| a@)),
{
    let mut parts: Vec<Vec<char>> = Vec::new();
    let mut i: usize = 0;
    while i < actions.len()
        invariant
            i <= actions.len(),
            views(parts@) == actions@.map_values(|a: &str| a@).take(i as int),
        decreases actions.len() - i,
    {
        let ghost p0 = views(parts@);
        parts.push(to_chars(actions[i]));
        proof {
            assert(views(parts@) =~= p0.push(actions@[i as int]@));
            assert(views(parts@) =~= actions@.map_values(|a: &str| a@).take(i + 1));
        }
        i += 1;
    }
    assert(actions@.map_values(|a: &str| a@).take(actions.len() as int) =~= actions@.map_values(
        |a: &str| a@,
    ));
    let joined = crate::text::join_chars(&parts, &to_chars(", "));
    let js = from_chars(&joined);
    let lower = to_lowercase_str(js.as_str());
    let mut out: Vec<char> = Vec::new();
    append_str(&mut out, "chore: ");
    append_str(&mut out, lower.as_str());
    from_chars(&out)
}

/// Reading lines from a line start `i` ends with the lines read from a
/// later line start `j`.
proof fn lemma_lines_suffix(s: Seq<char>, i: int, j: int)
    requires
        0 <= i <= j <= s.len(),
        j == 0 || s[j - 1] == '\n',
    ensures
        exists|pre: Seq<Seq<char>>| crate::text::lines_from(s, i) == pre + crate::text::lines_from(s, j),
    decreases j - i,
{
    if i < j {
        crate::text::lemma_next_nl(s, i);
        let e = crate::text::next_nl(s, i);
        if e > j - 1 {
            assert(s[j - 1] != '\n');
        }
        lemma_lines_suffix(s, e + 1, j);
        let pre2 = choose|pre: Seq<Seq<char>>|
            crate::text::lines_from(s, e + 1) == pre + crate::text::lines_from(s, j);
        let line = crate::text::strip_cr(s.subrange(i, e));
        assert(crate::text::lines_from(s, i) == seq![line] + crate::text::lines_from(s, e + 1));
        assert(crate::text::lines_from(s, i) =~= (seq![line] + pre2) + crate::text::lines_from(s, j));
    } else {
        assert(crate::text::lines_from(s, i) =~= Seq::<Seq<char>>::empty() + crate::text::lines_from(
            s,
            j,
        ));
    }
}

/// Once `.gitignore` has been given the context file, it needs no more:
/// a second update finds the file listed.
pub proof fn law_gitignore_once(content: Seq<char>)
    ensures
        gitignore_update(content) matches Some(n) ==> gitignore_update(n) is None,
{
    reveal_strlit("context.txt");
    reveal_strlit("\n");
    let x = CONTEXT_FILE@;
    if let Some(n) = gitignore_update(content) {
        let p = if content.len() == 0 || ends_with(content, "\n"@) {
            content
        } else {
            content + "\n"@
        };
        assert(n =~= p + x + "\n"@);
        let j = p.len() as int;
        if j > 0 {
            if content.len() == 0 || ends_with(content, "\n"@) {
                assert(content.subrange(content.len() - 1, content.len() as int)[0] == content[content.len() - 1]);
            }
            assert(n[j - 1] == p[j - 1]);
        }
        lemma_lines_suffix(n, 0, j);
        let pre = choose|pre: Seq<Seq<char>>|
            crate::text::lines_from(n, 0) == pre + crate::text::lines_from(n, j);
        crate::text::lemma_next_nl(n, j);
        assert(n[j + 11] == '\n');
        if crate::text::next_nl(n, j) < j + 11 {
            let e = crate::text::next_nl(n, j);
            assert(n[e] == x[e - j]);
        }
        assert(crate::text::next_nl(n, j) == j + 11);
        assert(n.subrange(j, j + 11) =~= x);
        assert(crate::text::strip_cr(x) == x);
        assert(crate::text::lines_from(n, j + 12) =~= Seq::<Seq<char>>::empty());
        assert(crate::text::lines_from(n, j) =~= seq![x]);
        let ls = lines(n);
        assert(ls =~= pre + seq![x]);
        let k = ls.len() - 1;
        assert(ls[k] == x);
        assert(!crate::text::is_ws('c') && !crate::text::is_ws('t')) by {
            assert(('c' as u32) == 99);
            assert(('t' as u32) == 116);
        }
        crate::roadmap::roundtrip::lemma_trim_fixed(x);
        assert(trim(ls[k]) == x);
    }
}

} // verus!
