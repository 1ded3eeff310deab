//! Commands that undo each other: `UNCHECK` after `CHECK`, and `DELETE`
//! after `ADD`, give the Markdown back.
use vstd::prelude::*;
use crate::roadmap::cmd_handlers::{add_edit, check_edit, delete_edit, uncheck_edit};
use crate::roadmap::cmd_helpers::{
    find_task_line, inserted_lines, insertion_point, lemma_insertion_point, removed_lines, unlines,
};
use crate::text::{contains, join, lemma_find_from, lemma_next_nl, lines, lines_from, next_nl, occurs_at, replace, replace_from, strip_cr};

verus! {

/// The open box.
pub open spec fn open_box() -> Seq<char> {
    seq!['-', ' ', '[', ' ', ']']
}

/// The ticked box.
pub open spec fn ticked_box() -> Seq<char> {
    seq!['-', ' ', '[', 'x', ']']
}

/// A line holds no line feed and does not end in a carriage return.
pub open spec fn plain_line(l: Seq<char>) -> bool {
    &&& forall|k: int| 0 <= k < l.len() ==> #[trigger] l[k] != '\n'
    &&& l.len() > 0 ==> l.last() != '\r'
}

/// Lines that `str::lines` gives back from their join: plain lines, the
/// last of them not empty.
pub open spec fn plain_lines(ls: Seq<Seq<char>>) -> bool {
    &&& forall|k: int| 0 <= k < ls.len() ==> plain_line(#[trigger] ls[k])
    &&& ls.len() > 0 ==> ls.last().len() > 0
}

proof fn lemma_next_nl_shift(p: Seq<char>, t: Seq<char>, j: int)
    requires
        0 <= j,
    ensures
        next_nl(p + t, p.len() + j) == p.len() + next_nl(t, j),
    decreases t.len() - j,
{
    if j < t.len() {
        assert((p + t)[p.len() + j] == t[j]);
        if t[j] != '\n' {
            lemma_next_nl_shift(p, t, j + 1);
        }
    }
}

proof fn lemma_lines_shift(p: Seq<char>, t: Seq<char>, j: int)
    requires
        0 <= j,
    ensures
        lines_from(p + t, p.len() + j) == lines_from(t, j),
    decreases t.len() - j,
{
    let s = p + t;
    if j < t.len() {
        lemma_next_nl_shift(p, t, j);
        lemma_next_nl(t, j);
        let e = next_nl(t, j);
        assert(s.subrange(p.len() + j, p.len() + e) =~= t.subrange(j, e));
        if e < t.len() {
            lemma_lines_shift(p, t, e + 1);
        }
    }
}

proof fn lemma_join_front(ls: Seq<Seq<char>>, sep: Seq<char>)
    requires
        ls.len() >= 2,
    ensures
        join(ls, sep) == ls[0] + sep + join(ls.drop_first(), sep),
    decreases ls.len(),
{
    let d = ls.drop_last();
    if ls.len() == 2 {
        assert(d =~= seq![ls[0]]);
        assert(join(d, sep) == ls[0]);
        assert(ls.drop_first() =~= seq![ls[1]]);
        assert(join(ls.drop_first(), sep) == ls[1]);
        assert(join(ls, sep) == join(d, sep) + sep + ls.last());
    } else {
        lemma_join_front(d, sep);
        let f = ls.drop_first();
        assert(d.drop_first() =~= f.drop_last());
        assert(f.last() == ls.last());
        assert(d[0] == ls[0]);
        let a = ls[0];
        let m = join(f.drop_last(), sep);
        assert(join(d, sep) == a + sep + m);
        assert(join(ls, sep) == join(d, sep) + sep + ls.last());
        assert(f.len() >= 2);
        assert(join(f, sep) == join(f.drop_last(), sep) + sep + f.last());
        assert(a + sep + m + sep + ls.last() =~= a + sep + (m + sep + ls.last()));
    }
}

/// `str::lines` of the lines joined by line feeds gives the lines back.
proof fn lemma_lines_of_join(ls: Seq<Seq<char>>)
    requires
        plain_lines(ls),
    ensures
        lines(unlines(ls)) == ls,
    decreases ls.len(),
{
    reveal_strlit("\n");
    if ls.len() == 0 {
        assert(lines(unlines(ls)) =~= ls);
    } else if ls.len() == 1 {
        let x = ls[0];
        assert(unlines(ls) == x);
        assert(plain_line(ls[0]));
        lemma_next_nl(x, 0);
        if next_nl(x, 0) < x.len() {
            assert(x[next_nl(x, 0)] == '\n');
        }
        assert(x.subrange(0, x.len() as int) =~= x);
        assert(lines(x) =~= ls);
    } else {
        lemma_join_front(ls, "\n"@);
        let x = ls[0];
        let rest = join(ls.drop_first(), "\n"@);
        let p = x + "\n"@;
        let s = p + rest;
        assert(unlines(ls) =~= s);
        assert(plain_line(ls[0]));
        lemma_next_nl(s, 0);
        assert(s[x.len() as int] == '\n');
        if next_nl(s, 0) < x.len() {
            assert(s[next_nl(s, 0)] == x[next_nl(s, 0)]);
        }
        assert(next_nl(s, 0) == x.len());
        assert(s.subrange(0, x.len() as int) =~= x);
        assert(strip_cr(x) == x);
        lemma_lines_shift(p, rest, 0);
        assert(p.len() == x.len() + 1);
        assert forall|k: int| 0 <= k < ls.drop_first().len() implies plain_line(
            #[trigger] ls.drop_first()[k],
        ) by {
            assert(plain_line(ls[k + 1]));
        }
        lemma_lines_of_join(ls.drop_first());
        assert(lines(s) == seq![x] + lines_from(s, (x.len() + 1) as int));
        assert(ls =~= seq![x] + ls.drop_first());
    }
}

/// With a line feed after the last line, `str::lines` still gives the
/// lines back.
proof fn lemma_lines_of_join_nl(ls: Seq<Seq<char>>)
    requires
        plain_lines(ls),
        ls.len() > 0,
    ensures
        lines(unlines(ls) + "\n"@) == ls,
    decreases ls.len(),
{
    reveal_strlit("\n");
    if ls.len() == 1 {
        let x = ls[0];
        let s = x + "\n"@;
        assert(unlines(ls) == x);
        assert(plain_line(ls[0]));
        lemma_next_nl(s, 0);
        assert(s[x.len() as int] == '\n');
        if next_nl(s, 0) < x.len() {
            assert(s[next_nl(s, 0)] == x[next_nl(s, 0)]);
        }
        assert(next_nl(s, 0) == x.len());
        assert(s.subrange(0, x.len() as int) =~= x);
        assert(strip_cr(x) == x);
        assert(lines_from(s, s.len() as int) =~= Seq::<Seq<char>>::empty());
        assert(lines(s) =~= ls);
    } else {
        lemma_join_front(ls, "\n"@);
        let x = ls[0];
        let rest = join(ls.drop_first(), "\n"@) + "\n"@;
        let p = x + "\n"@;
        let s = p + rest;
        assert(unlines(ls) + "\n"@ =~= s);
        assert(plain_line(ls[0]));
        lemma_next_nl(s, 0);
        assert(s[x.len() as int] == '\n');
        if next_nl(s, 0) < x.len() {
            assert(s[next_nl(s, 0)] == x[next_nl(s, 0)]);
        }
        assert(next_nl(s, 0) == x.len());
        assert(s.subrange(0, x.len() as int) =~= x);
        assert(strip_cr(x) == x);
        lemma_lines_shift(p, rest, 0);
        assert(p.len() == x.len() + 1);
        assert forall|k: int| 0 <= k < ls.drop_first().len() implies plain_line(
            #[trigger] ls.drop_first()[k],
        ) by {
            assert(plain_line(ls[k + 1]));
        }
        lemma_lines_of_join_nl(ls.drop_first());
        assert(lines(s) == seq![x] + lines_from(s, (x.len() + 1) as int));
        assert(ls =~= seq![x] + ls.drop_first());
    }
}

proof fn lemma_replace_shift(p: Seq<char>, t: Seq<char>, f: Seq<char>, r: Seq<char>, j: int)
    requires
        0 <= j,
        f.len() > 0,
    ensures
        replace_from(p + t, f, r, p.len() + j) == replace_from(t, f, r, j),
    decreases t.len() - j,
{
    let s = p + t;
    if j < t.len() {
        assert(occurs_at(s, f, p.len() + j) == occurs_at(t, f, j)) by {
            if p.len() + j + f.len() <= s.len() {
                assert(s.subrange(p.len() + j, p.len() + j + f.len()) =~= t.subrange(j, j + f.len()));
            }
        }
        assert(s[p.len() + j] == t[j]);
        if occurs_at(t, f, j) {
            lemma_replace_shift(p, t, f, r, j + f.len());
        } else {
            lemma_replace_shift(p, t, f, r, j + 1);
        }
    }
}

/// One step of ticking: the first character, and the rest.
proof fn lemma_tick_step(s: Seq<char>, j: int)
    requires
        0 <= j < s.len(),
    ensures
        replace_from(s, open_box(), ticked_box(), j).len() > 0,
        occurs_at(s, open_box(), j) ==> replace_from(s, open_box(), ticked_box(), j) == ticked_box()
            + replace_from(s, open_box(), ticked_box(), j + 5),
        !occurs_at(s, open_box(), j) ==> replace_from(s, open_box(), ticked_box(), j) == seq![s[j]]
            + replace_from(s, open_box(), ticked_box(), j + 1),
{
}

/// Where a ticked box would start at `i` in the ticked text, the text
/// after `i` matches it character by character.
proof fn lemma_untick_step(s: Seq<char>, i: int, k: int, w: Seq<char>)
    requires
        0 <= i,
        1 <= k < 5,
        w.len() >= 5,
        w.subrange(0, 5) == ticked_box(),
        w.subrange(k, w.len() as int) == replace_from(s, open_box(), ticked_box(), i + k),
    ensures
        i + k < s.len(),
        s[i + k] == ticked_box()[k],
        w.subrange(k + 1, w.len() as int) == replace_from(s, open_box(), ticked_box(), i + k + 1),
{
    let a = open_box();
    let b = ticked_box();
    let rk = replace_from(s, a, b, i + k);
    assert(w[k] == w.subrange(0, 5)[k]);
    assert(rk[0] == w[k]);
    if i + k >= s.len() {
        assert(rk.len() == 0);
    }
    lemma_tick_step(s, i + k);
    if occurs_at(s, a, i + k) {
        assert(rk[0] == '-');
    }
    assert(rk == seq![s[i + k]] + replace_from(s, a, b, i + k + 1));
    assert(w.subrange(k + 1, w.len() as int) =~= rk.subrange(1, rk.len() as int));
    assert(rk.subrange(1, rk.len() as int) =~= replace_from(s, a, b, i + k + 1));
}

/// Ticking brings in no ticked box that was not an open one.
proof fn lemma_no_new_tick(s: Seq<char>, i: int)
    requires
        0 <= i < s.len(),
        !occurs_at(s, open_box(), i),
        !occurs_at(s, ticked_box(), i),
    ensures
        !occurs_at(seq![s[i]] + replace_from(s, open_box(), ticked_box(), i + 1), ticked_box(), 0),
{
    let a = open_box();
    let b = ticked_box();
    let w = seq![s[i]] + replace_from(s, a, b, i + 1);
    if occurs_at(w, b, 0) {
        assert(w.subrange(0, 5) == b);
        assert(w[1] == b[1] && w[2] == b[2] && w[3] == b[3] && w[4] == b[4]);
        assert(w[0] == '-');
        assert(w.subrange(1, w.len() as int) =~= replace_from(s, a, b, i + 1));
        lemma_untick_step(s, i, 1, w);
        lemma_untick_step(s, i, 2, w);
        lemma_untick_step(s, i, 3, w);
        lemma_untick_step(s, i, 4, w);
        assert(s.subrange(i, i + 5) =~= b);
        assert(occurs_at(s, b, i));
    }
}

/// Clearing the ticked boxes that ticking made gives the text back, when
/// it held no ticked box before.
proof fn lemma_untick_tick(s: Seq<char>, i: int)
    requires
        0 <= i <= s.len(),
        forall|j: int| 0 <= j ==> !occurs_at(s, ticked_box(), j),
    ensures
        replace(replace_from(s, open_box(), ticked_box(), i), ticked_box(), open_box()) == s.subrange(
            i,
            s.len() as int,
        ),
    decreases s.len() - i,
{
    let a = open_box();
    let b = ticked_box();
    if i == s.len() {
        assert(replace_from(s, a, b, i) =~= Seq::<char>::empty());
        assert(s.subrange(i, s.len() as int) =~= Seq::<char>::empty());
    } else if occurs_at(s, a, i) {
        lemma_tick_step(s, i);
        let rest = replace_from(s, a, b, i + 5);
        lemma_untick_tick(s, i + 5);
        assert(occurs_at(b + rest, b, 0)) by {
            assert((b + rest).subrange(0, 5) =~= b);
        }
        lemma_replace_shift(b, rest, b, a, 0);
        assert(replace(b + rest, b, a) == a + replace_from(b + rest, b, a, 5));
        assert(s.subrange(i, i + 5) == a);
        assert(a + s.subrange(i + 5, s.len() as int) =~= s.subrange(i, s.len() as int));
    } else {
        lemma_tick_step(s, i);
        let rest = replace_from(s, a, b, i + 1);
        lemma_untick_tick(s, i + 1);
        lemma_no_new_tick(s, i);
        lemma_replace_shift(seq![s[i]], rest, b, a, 0);
        let w = seq![s[i]] + rest;
        assert(w[0] == s[i]);
        assert(replace(w, b, a) == seq![w[0]] + replace_from(w, b, a, 1));
        assert(seq![s[i]] + s.subrange(i + 1, s.len() as int) =~= s.subrange(i, s.len() as int));
    }
}

/// Ticking keeps a line plain.
proof fn lemma_tick_plain(s: Seq<char>, j: int)
    requires
        0 <= j,
        plain_line(s),
    ensures
        plain_line(replace_from(s, open_box(), ticked_box(), j)),
        j < s.len() ==> replace_from(s, open_box(), ticked_box(), j).len() > 0,
    decreases s.len() - j,
{
    let a = open_box();
    let b = ticked_box();
    if j < s.len() {
        lemma_tick_step(s, j);
        let out = replace_from(s, a, b, j);
        if occurs_at(s, a, j) {
            lemma_tick_plain(s, j + 5);
            let rest = replace_from(s, a, b, j + 5);
            assert forall|k: int| 0 <= k < out.len() implies #[trigger] out[k] != '\n' by {
                if k >= 5 {
                    assert(out[k] == rest[k - 5]);
                }
            }
            if rest.len() > 0 {
                assert(out.last() == rest.last());
            }
        } else {
            lemma_tick_plain(s, j + 1);
            let rest = replace_from(s, a, b, j + 1);
            assert forall|k: int| 0 <= k < out.len() implies #[trigger] out[k] != '\n' by {
                if k >= 1 {
                    assert(out[k] == rest[k - 1]);
                }
            }
            if rest.len() > 0 {
                assert(out.last() == rest.last());
            } else {
                if j + 1 < s.len() {
                    lemma_tick_plain(s, j + 1);
                }
                assert(j == s.len() - 1);
            }
        }
    } else {
        assert(replace_from(s, a, b, j) =~= Seq::<char>::empty());
    }
}

/// Clearing the box of a task whose box was just ticked gives the Markdown
/// back: for Markdown made of plain lines whose last line is not empty,
/// when the task's line held no ticked box and clearing finds the same
/// line.
pub proof fn law_uncheck_undoes_check(ls: Seq<Seq<char>>, path: Seq<char>)
    requires
        plain_lines(ls),
        find_task_line(ls, path) matches Some(i) && !contains(ls[i], "- [x]"@)
            && find_task_line(ls.update(i, replace(ls[i], "- [ ]"@, "- [x]"@)), path) == Some(i),
    ensures
        check_edit(unlines(ls), path) matches Ok(r1) && uncheck_edit(r1, path) == Ok::<
            Seq<char>,
            Seq<char>,
        >(unlines(ls)),
{
    reveal_strlit("- [ ]");
    reveal_strlit("- [x]");
    assert("- [ ]"@ =~= open_box());
    assert("- [x]"@ =~= ticked_box());
    let i = find_task_line(ls, path)->0;
    crate::roadmap::cmd_helpers::lemma_find_task_from(ls, path, 0);
    let l = ls[i];
    lemma_lines_of_join(ls);
    let l2 = replace(l, open_box(), ticked_box());
    let ls2 = ls.update(i, l2);
    assert(plain_line(ls[i]));
    lemma_tick_plain(l, 0);
    assert(plain_lines(ls2)) by {
        assert forall|k: int| 0 <= k < ls2.len() implies plain_line(#[trigger] ls2[k]) by {
            if k != i {
                assert(plain_line(ls[k]));
            }
        }
        if i == ls.len() - 1 {
            assert(l.len() > 0);
        }
    }
    lemma_lines_of_join(ls2);
    lemma_find_from(l, ticked_box(), 0);
    lemma_untick_tick(l, 0);
    assert(l.subrange(0, l.len() as int) =~= l);
    assert(ls2.update(i, replace(l2, ticked_box(), open_box())) =~= ls);
}

/// Deleting the task that was just added gives the Markdown back: for
/// Markdown made of plain lines whose last line is not empty, a task text
/// without a line break, and when the deletion finds the added line.
pub proof fn law_delete_undoes_add(
    ls: Seq<Seq<char>>,
    parent: Seq<char>,
    text: Seq<char>,
    after: Option<Seq<char>>,
    path: Seq<char>,
)
    requires
        plain_lines(ls),
        plain_line(text),
        insertion_point(ls, parent, after) matches Some(k) && find_task_line(
            ls.insert(k, "- [ ] "@ + text),
            path,
        ) == Some(k),
    ensures
        add_edit(unlines(ls), parent, text, after) matches Ok(r1) && delete_edit(r1, path) == Ok::<
            Seq<char>,
            Seq<char>,
        >(unlines(ls)),
{
    reveal_strlit("- [ ] ");
    let k = insertion_point(ls, parent, after)->0;
    lemma_insertion_point(ls, parent, after);
    lemma_lines_of_join(ls);
    let line = "- [ ] "@ + text;
    let ls2 = ls.insert(k, line);
    assert(plain_line(line)) by {
        assert forall|m: int| 0 <= m < line.len() implies #[trigger] line[m] != '\n' by {
            if m >= 6 {
                assert(line[m] == text[m - 6]);
            }
        }
        if text.len() > 0 {
            assert(line.last() == text.last());
        }
    }
    assert(plain_lines(ls2)) by {
        assert forall|m: int| 0 <= m < ls2.len() implies plain_line(#[trigger] ls2[m]) by {
            if m < k {
                assert(ls2[m] == ls[m]);
                assert(plain_line(ls[m]));
            } else if m > k {
                assert(ls2[m] == ls[m - 1]);
                assert(plain_line(ls[m - 1]));
            }
        }
        if k < ls.len() {
            assert(ls2.last() == ls.last());
        }
    }
    lemma_lines_of_join(ls2);
    assert(ls2.remove(k) =~= ls);
}

/// A line without a line feed.
pub open spec fn nl_free(l: Seq<char>) -> bool {
    forall|k: int| 0 <= k < l.len() ==> #[trigger] l[k] != '\n'
}

/// What `str::lines` reads back from lines joined by line feeds: each line
/// but the last loses one trailing carriage return.
spec fn read_back(ls: Seq<Seq<char>>) -> Seq<Seq<char>> {
    Seq::new(ls.len(), |k: int| if k < ls.len() - 1 { strip_cr(ls[k]) } else { ls[k] })
}

/// `str::lines` of lines without line feeds, joined by line feeds and the
/// last of them not empty, gives them back, each but the last without a
/// trailing carriage return.
proof fn lemma_lines_of_join_cr(ls: Seq<Seq<char>>)
    requires
        forall|k: int| 0 <= k < ls.len() ==> nl_free(#[trigger] ls[k]),
        ls.len() > 0 ==> ls.last().len() > 0,
    ensures
        lines(unlines(ls)) == read_back(ls),
    decreases ls.len(),
{
    reveal_strlit("\n");
    if ls.len() == 0 {
        assert(lines(unlines(ls)) =~= read_back(ls));
    } else if ls.len() == 1 {
        let x = ls[0];
        assert(unlines(ls) == x);
        assert(nl_free(ls[0]));
        lemma_next_nl(x, 0);
        if next_nl(x, 0) < x.len() {
            assert(x[next_nl(x, 0)] == '\n');
        }
        assert(x.subrange(0, x.len() as int) =~= x);
        assert(lines(x) =~= read_back(ls));
    } else {
        lemma_join_front(ls, "\n"@);
        let x = ls[0];
        let rest = join(ls.drop_first(), "\n"@);
        let p = x + "\n"@;
        let s = p + rest;
        assert(unlines(ls) =~= s);
        assert(nl_free(ls[0]));
        lemma_next_nl(s, 0);
        assert(s[x.len() as int] == '\n');
        if next_nl(s, 0) < x.len() {
            assert(s[next_nl(s, 0)] == x[next_nl(s, 0)]);
        }
        assert(next_nl(s, 0) == x.len());
        assert(s.subrange(0, x.len() as int) =~= x);
        lemma_lines_shift(p, rest, 0);
        assert(p.len() == x.len() + 1);
        assert forall|k: int| 0 <= k < ls.drop_first().len() implies nl_free(
            #[trigger] ls.drop_first()[k],
        ) by {
            assert(nl_free(ls[k + 1]));
        }
        lemma_lines_of_join_cr(ls.drop_first());
        assert(lines(s) == seq![strip_cr(x)] + lines_from(s, (x.len() + 1) as int));
        assert(read_back(ls) =~= seq![strip_cr(x)] + read_back(ls.drop_first()));
    }
}

/// Removing the line that was just inserted at the same index gives the
/// Markdown back, normalised to its lines joined by line feeds: for plain
/// lines whose last line is not empty, a line without a line feed, and an
/// index within the lines or just past them.
pub proof fn law_remove_undoes_insert(raw: Seq<char>, idx: int, line: Seq<char>)
    requires
        plain_lines(lines(raw)),
        nl_free(line),
        0 <= idx <= lines(raw).len(),
    ensures
        unlines(removed_lines(lines(unlines(inserted_lines(lines(raw), idx, line))), idx)) == unlines(
            lines(raw),
        ),
{
    let ls = lines(raw);
    let ls2 = ls.insert(idx, line);
    if idx == ls.len() && line.len() == 0 {
        // The empty last line is dropped when the text is read back.
        reveal_strlit("\n");
        if ls.len() == 0 {
            assert(ls2 =~= seq![line]);
            assert(unlines(ls2) == line);
            assert(lines(unlines(ls2)) =~= ls);
        } else {
            assert(ls2.drop_last() =~= ls);
            assert(unlines(ls2) == unlines(ls) + "\n"@ + line);
            assert(unlines(ls) + "\n"@ + line =~= unlines(ls) + "\n"@);
            lemma_lines_of_join_nl(ls);
        }
        return;
    }
    assert forall|m: int| 0 <= m < ls2.len() implies nl_free(#[trigger] ls2[m]) by {
        if m < idx {
            assert(ls2[m] == ls[m]);
            assert(plain_line(ls[m]));
        } else if m > idx {
            assert(ls2[m] == ls[m - 1]);
            assert(plain_line(ls[m - 1]));
        }
    }
    if idx < ls.len() {
        assert(ls2.last() == ls.last());
    }
    lemma_lines_of_join_cr(ls2);
    let rb = read_back(ls2);
    assert forall|m: int| 0 <= m < ls.len() implies #[trigger] rb.remove(idx)[m] == ls[m] by {
        if m < idx {
            assert(plain_line(ls[m]));
            assert(ls2[m] == ls[m]);
        } else {
            assert(plain_line(ls[m]));
            assert(ls2[m + 1] == ls[m]);
        }
    }
    assert(rb.remove(idx) =~= ls);
}

} // verus!
