//! Line-level helpers for editing the Markdown of a legacy roadmap.
use vstd::prelude::*;
use crate::pattern::{captures_of, group, group_text, groups_view, regex_captures, regex_compiles};
use crate::roadmap::str_utils::{slugify_chars, slugify_spec};
use crate::roadmap::types::Roadmap;
use crate::text::{
    eq_chars, from_chars, join, join_chars, lines, slice_of, split_lines, starts_with,
    starts_with_str, to_chars, trim, trim_chars, views,
};

verus! {

// ---------------------------------------------------------------------
// Specs
// ---------------------------------------------------------------------

/// The lines of a roadmap's Markdown.
pub open spec fn raw_lines(r: &Roadmap) -> Seq<Seq<char>> {
    lines(r.raw@)
}

/// Lines joined back with `\n`.
pub open spec fn unlines(ls: Seq<Seq<char>>) -> Seq<char> {
    join(ls, "\n"@)
}

/// Everything but the Markdown is left alone.
pub open spec fn same_except_raw(a: &Roadmap, b: &Roadmap) -> bool {
    a.path == b.path && a.title == b.title && a.sections == b.sections
}

/// A checkbox line: `- [ ]` or `- [x]` after leading whitespace.
pub open spec fn is_task_spec(line: Seq<char>) -> bool {
    starts_with(trim(line), "- [ ]"@) || starts_with(trim(line), "- [x]"@)
}

/// The pattern that captures the text of a checkbox line.
pub open spec fn task_text_pattern() -> Seq<char> {
    "- \\[[x ]\\] (.*)"@
}

/// The text of a checkbox line given what the pattern captured in it:
/// group 1 trimmed (empty when it took no part), or the whole line when
/// there was no match.
pub open spec fn task_text_given(line: Seq<char>, caps: Option<Seq<Option<Seq<char>>>>) -> Seq<char> {
    match caps {
        Some(g) => trim(
            match group_text(g, 1) {
                Some(t) => t,
                None => Seq::empty(),
            },
        ),
        None => line,
    }
}

/// The text of a checkbox line (trimmed), or the whole line when the
/// pattern does not match.
pub open spec fn task_text_spec(line: Seq<char>) -> Seq<char> {
    task_text_given(
        line,
        if regex_compiles(task_text_pattern()) {
            regex_captures(task_text_pattern(), line)
        } else {
            None
        },
    )
}

/// `line` is the checkbox of the task with slug `path`.
pub open spec fn matches_path(line: Seq<char>, path: Seq<char>) -> bool {
    is_task_spec(line) && slugify_spec(task_text_spec(line)) == path
}

/// First line at or after `i` that is the task `path`.
pub open spec fn find_task_from(ls: Seq<Seq<char>>, path: Seq<char>, i: int) -> Option<int>
    decreases ls.len() - i,
{
    if i < 0 || i >= ls.len() {
        None
    } else if matches_path(ls[i], path) {
        Some(i)
    } else {
        find_task_from(ls, path, i + 1)
    }
}

/// First line that is the task `path`.
pub open spec fn find_task_line(ls: Seq<Seq<char>>, path: Seq<char>) -> Option<int> {
    find_task_from(ls, path, 0)
}

/// End of the run of `#` that starts at `i`.
pub open spec fn hash_end(l: Seq<char>, i: int) -> int
    decreases l.len() - i,
{
    if 0 <= i < l.len() && l[i] == '#' {
        hash_end(l, i + 1)
    } else {
        i
    }
}

/// `str::trim_start_matches('#')`.
pub open spec fn strip_hashes(l: Seq<char>) -> Seq<char> {
    l.subrange(hash_end(l, 0), l.len() as int)
}

/// A Markdown heading whose slug is `parent`.
pub open spec fn is_heading_of(l: Seq<char>, parent: Seq<char>) -> bool {
    starts_with(l, "#"@) && slugify_spec(trim(strip_hashes(l))) == parent
}

/// First heading at or after `i` whose slug is `parent`.
pub open spec fn find_heading_from(ls: Seq<Seq<char>>, parent: Seq<char>, i: int) -> Option<int>
    decreases ls.len() - i,
{
    if i < 0 || i >= ls.len() {
        None
    } else if is_heading_of(ls[i], parent) {
        Some(i)
    } else {
        find_heading_from(ls, parent, i + 1)
    }
}

/// First line at or after `i` that starts with `#`.
pub open spec fn next_heading_from(ls: Seq<Seq<char>>, i: int) -> Option<int>
    decreases ls.len() - i,
{
    if i < 0 || i >= ls.len() {
        None
    } else if starts_with(ls[i], "#"@) {
        Some(i)
    } else {
        next_heading_from(ls, i + 1)
    }
}

/// The line after the task `target`, searching from `i` to the next heading.
pub open spec fn after_target_from(ls: Seq<Seq<char>>, target: Seq<char>, i: int) -> Option<int>
    decreases ls.len() - i,
{
    if i < 0 || i >= ls.len() || starts_with(ls[i], "#"@) {
        None
    } else if matches_path(ls[i], target) {
        Some(i + 1)
    } else {
        after_target_from(ls, target, i + 1)
    }
}

/// Where a new task of section `parent` goes: after `after` when that task
/// is in the section, else at the end of the section; just after the
/// heading when `after` is given but not found there.
pub open spec fn insertion_point(ls: Seq<Seq<char>>, parent: Seq<char>, after: Option<Seq<char>>) -> Option<int> {
    match find_heading_from(ls, parent, 0) {
        None => None,
        Some(s) => match after {
            Some(t) => match after_target_from(ls, t, s + 1) {
                Some(k) => Some(k),
                None => Some(s + 1),
            },
            None => match next_heading_from(ls, s + 1) {
                Some(i) => Some(i),
                None => Some(ls.len() as int),
            },
        },
    }
}

/// `ls` with line `idx` replaced, when it exists.
pub open spec fn replaced_lines(ls: Seq<Seq<char>>, idx: int, line: Seq<char>) -> Seq<Seq<char>> {
    if 0 <= idx < ls.len() {
        ls.update(idx, line)
    } else {
        ls
    }
}

/// `ls` with `line` inserted before position `idx`, when `idx <= len`.
pub open spec fn inserted_lines(ls: Seq<Seq<char>>, idx: int, line: Seq<char>) -> Seq<Seq<char>> {
    if 0 <= idx <= ls.len() {
        ls.insert(idx, line)
    } else {
        ls
    }
}

/// `ls` without line `idx`, when it exists.
pub open spec fn removed_lines(ls: Seq<Seq<char>>, idx: int) -> Seq<Seq<char>> {
    if 0 <= idx < ls.len() {
        ls.remove(idx)
    } else {
        ls
    }
}

/// Views of a slice of string slices.
pub open spec fn str_views(ls: Seq<&str>) -> Seq<Seq<char>> {
    ls.map_values(|s: &str| s@)
}

// ---------------------------------------------------------------------
// Lemmas
// ---------------------------------------------------------------------

/// `find_task_from` finds the first matching line at or after `i`.
pub proof fn lemma_find_task_from(ls: Seq<Seq<char>>, path: Seq<char>, i: int)
    requires
        0 <= i,
    ensures
        match find_task_from(ls, path, i) {
            Some(k) => i <= k < ls.len() && matches_path(ls[k], path) && forall|j: int|
                i <= j < k ==> !matches_path(#[trigger] ls[j], path),
            None => forall|j: int| i <= j < ls.len() ==> !matches_path(#[trigger] ls[j], path),
        },
    decreases ls.len() - i,
{
    if i < ls.len() && !matches_path(ls[i], path) {
        lemma_find_task_from(ls, path, i + 1);
    }
}

proof fn lemma_find_heading_from(ls: Seq<Seq<char>>, parent: Seq<char>, i: int)
    requires
        0 <= i,
    ensures
        find_heading_from(ls, parent, i) matches Some(k) ==> i <= k < ls.len(),
    decreases ls.len() - i,
{
    if i < ls.len() && !is_heading_of(ls[i], parent) {
        lemma_find_heading_from(ls, parent, i + 1);
    }
}

proof fn lemma_after_target_from(ls: Seq<Seq<char>>, t: Seq<char>, i: int)
    requires
        0 <= i,
    ensures
        after_target_from(ls, t, i) matches Some(k) ==> i < k <= ls.len(),
    decreases ls.len() - i,
{
    if i < ls.len() && !starts_with(ls[i], "#"@) && !matches_path(ls[i], t) {
        lemma_after_target_from(ls, t, i + 1);
    }
}

proof fn lemma_next_heading_from(ls: Seq<Seq<char>>, i: int)
    requires
        0 <= i,
    ensures
        next_heading_from(ls, i) matches Some(k) ==> i <= k < ls.len(),
    decreases ls.len() - i,
{
    if i < ls.len() && !starts_with(ls[i], "#"@) {
        lemma_next_heading_from(ls, i + 1);
    }
}

/// The insertion point lies within the lines, or just past them.
pub proof fn lemma_insertion_point(ls: Seq<Seq<char>>, parent: Seq<char>, after: Option<Seq<char>>)
    ensures
        insertion_point(ls, parent, after) matches Some(k) ==> 0 <= k <= ls.len(),
{
    lemma_find_heading_from(ls, parent, 0);
    if let Some(s) = find_heading_from(ls, parent, 0) {
        match after {
            Some(t) => lemma_after_target_from(ls, t, s + 1),
            None => lemma_next_heading_from(ls, s + 1),
        }
    }
}

// ---------------------------------------------------------------------
// Executable helpers
// ---------------------------------------------------------------------

/// Characters of each line of a slice.
fn lines_of_slice(lines: &[&str]) -> (r: Vec<Vec<char>>)
    ensures
        views(r@) == str_views(lines@),
{
    let mut r: Vec<Vec<char>> = Vec::new();
    let mut i: usize = 0;
    while i < lines.len()
        invariant
            i <= lines.len(),
            r.len() == i,
            forall|k: int| 0 <= k < i ==> #[trigger] r@[k]@ == lines@[k]@,
        decreases lines.len() - i,
    {
        r.push(to_chars(lines[i]));
        i += 1;
    }
    assert(views(r@) =~= str_views(lines@));
    r
}

/// Whether `line` is a checkbox line.
pub fn is_task(line: &str) -> (r: bool)
    ensures
        r == is_task_spec(line@),
{
    let v = to_chars(line);
    is_task_chars(&v)
}

/// `is_task` on characters.
pub fn is_task_chars(v: &Vec<char>) -> (r: bool)
    ensures
        r == is_task_spec(v@),
{
    let t = trim_chars(v);
    starts_with_str(&t, "- [ ]") || starts_with_str(&t, "- [x]")
}

/// The text of a checkbox line.
fn extract_task_text(line: &Vec<char>) -> (r: Vec<char>)
    ensures
        r@ == task_text_spec(line@),
{
    let caps = captures_of("- \\[[x ]\\] (.*)", line);
    task_text_from_captures(line, &caps)
}

/// The text of checkbox line `line`, given the groups that the task-text
/// pattern captured in it (`None` without a match).
pub fn task_text_from_captures(line: &Vec<char>, caps: &Option<Vec<Option<String>>>) -> (r: Vec<char>)
    ensures
        r@ == task_text_given(line@, groups_view(*caps)),
{
    match caps {
        Some(g) => {
            let t = match group(g, 1) {
                Some(t) => t,
                None => Vec::new(),
            };
            trim_chars(&t)
        },
        None => crate::text::copy(line),
    }
}

/// Whether `line` is the checkbox of task `path`.
fn line_matches(line: &Vec<char>, path: &Vec<char>) -> (r: bool)
    ensures
        r == matches_path(line@, path@),
{
    if is_task_chars(line) {
        let text = extract_task_text(line);
        let slug = slugify_chars(&text);
        eq_chars(&slug, path)
    } else {
        false
    }
}

/// First line of `ls` that is the task `path`.
pub fn find_line_in(ls: &Vec<Vec<char>>, path: &Vec<char>) -> (r: Option<usize>)
    ensures
        match r {
            Some(i) => find_task_line(views(ls@), path@) == Some(i as int),
            None => find_task_line(views(ls@), path@) is None,
        },
{
    let mut i: usize = 0;
    while i < ls.len()
        invariant
            i <= ls.len(),
            find_task_line(views(ls@), path@) == find_task_from(views(ls@), path@, i as int),
        decreases ls.len() - i,
    {
        if line_matches(&ls[i], path) {
            return Some(i);
        }
        i += 1;
    }
    None
}

/// Index of the line of `roadmap` that holds the task `path`.
pub fn find_line_idx(roadmap: &Roadmap, path: &str) -> (r: Option<usize>)
    ensures
        match r {
            Some(i) => find_task_line(raw_lines(roadmap), path@) == Some(i as int),
            None => find_task_line(raw_lines(roadmap), path@) is None,
        },
{
    let raw = to_chars(roadmap.raw.as_str());
    let ls = split_lines(&raw);
    let p = to_chars(path);
    find_line_in(&ls, &p)
}

/// Index of the line of `lines` that holds the task `path`.
pub fn find_line_idx_in_lines(lines: &[&str], path: &str) -> (r: Option<usize>)
    ensures
        match r {
            Some(i) => find_task_line(str_views(lines@), path@) == Some(i as int),
            None => find_task_line(str_views(lines@), path@) is None,
        },
{
    let ls = lines_of_slice(lines);
    let p = to_chars(path);
    find_line_in(&ls, &p)
}

/// The lines of the roadmap's Markdown.
pub fn roadmap_lines(roadmap: &Roadmap) -> (r: Vec<Vec<char>>)
    ensures
        views(r@) == raw_lines(roadmap),
{
    let raw = to_chars(roadmap.raw.as_str());
    split_lines(&raw)
}

/// Stores `ls`, joined with `\n`, as the roadmap's Markdown.
fn store_lines(roadmap: &mut Roadmap, ls: &Vec<Vec<char>>)
    ensures
        final(roadmap).raw@ == unlines(views(ls@)),
        same_except_raw(&*final(roadmap), &*old(roadmap)),
{
    let sep = to_chars("\n");
    let joined = join_chars(ls, &sep);
    roadmap.raw = from_chars(&joined);
}

/// Replaces line `idx` of the roadmap (when it exists) with `line`.
pub fn replace_raw(roadmap: &mut Roadmap, idx: usize, line: String)
    ensures
        final(roadmap).raw@ == unlines(replaced_lines(raw_lines(&*old(roadmap)), idx as int, line@)),
        same_except_raw(&*final(roadmap), &*old(roadmap)),
{
    let mut ls = roadmap_lines(roadmap);
    let ghost l0 = views(ls@);
    if idx < ls.len() {
        ls.set(idx, to_chars(line.as_str()));
        assert(views(ls@) =~= l0.update(idx as int, line@));
    }
    store_lines(roadmap, &ls);
}

/// Inserts `line` before line `idx` of the roadmap (when `idx` is at most
/// the number of lines).
pub fn insert_raw(roadmap: &mut Roadmap, idx: usize, line: String)
    ensures
        final(roadmap).raw@ == unlines(inserted_lines(raw_lines(&*old(roadmap)), idx as int, line@)),
        same_except_raw(&*final(roadmap), &*old(roadmap)),
{
    let mut ls = roadmap_lines(roadmap);
    let ghost l0 = views(ls@);
    if idx <= ls.len() {
        ls.insert(idx, to_chars(line.as_str()));
        assert(views(ls@) =~= l0.insert(idx as int, line@));
    }
    store_lines(roadmap, &ls);
}

/// Removes line `idx` of the roadmap (when it exists).
pub fn remove_raw(roadmap: &mut Roadmap, idx: usize)
    ensures
        final(roadmap).raw@ == unlines(removed_lines(raw_lines(&*old(roadmap)), idx as int)),
        same_except_raw(&*final(roadmap), &*old(roadmap)),
{
    let mut ls = roadmap_lines(roadmap);
    let ghost l0 = views(ls@);
    if idx < ls.len() {
        ls.remove(idx);
        assert(views(ls@) =~= l0.remove(idx as int));
    }
    store_lines(roadmap, &ls);
}

/// `str::trim_start_matches('#')`.
fn strip_hashes_chars(l: &Vec<char>) -> (r: Vec<char>)
    ensures
        r@ == strip_hashes(l@),
{
    let mut i: usize = 0;
    while i < l.len() && l[i] == '#'
        invariant
            i <= l.len(),
            hash_end(l@, 0) == hash_end(l@, i as int),
        decreases l.len() - i,
    {
        i += 1;
    }
    slice_of(l, i, l.len())
}

/// Whether `l` is the heading of section `parent`.
fn heading_matches(l: &Vec<char>, parent: &Vec<char>) -> (r: bool)
    ensures
        r == is_heading_of(l@, parent@),
{
    if starts_with_str(l, "#") {
        let s = strip_hashes_chars(l);
        let t = trim_chars(&s);
        let slug = slugify_chars(&t);
        eq_chars(&slug, parent)
    } else {
        false
    }
}

/// `insertion_point` over character lines.
pub fn insertion_point_in(ls: &Vec<Vec<char>>, parent: &Vec<char>, after: Option<&Vec<char>>) -> (r: Option<usize>)
    ensures
        match r {
            Some(i) => insertion_point(views(ls@), parent@, match after {
                Some(a) => Some(a@),
                None => None,
            }) == Some(i as int),
            None => insertion_point(views(ls@), parent@, match after {
                Some(a) => Some(a@),
                None => None,
            }) is None,
        },
{
    let ghost lv = views(ls@);
    let mut s: usize = 0;
    while s < ls.len()
        invariant_except_break
            find_heading_from(lv, parent@, 0) == find_heading_from(lv, parent@, s as int),
        invariant
            s <= ls.len(),
            lv == views(ls@),
        ensures
            s < ls.len() ==> find_heading_from(lv, parent@, 0) == Some(s as int),
            s >= ls.len() ==> find_heading_from(lv, parent@, 0) is None,
        decreases ls.len() - s,
    {
        assert(lv[s as int] == ls@[s as int]@);
        if heading_matches(&ls[s], parent) {
            break;
        }
        s += 1;
    }
    if s >= ls.len() {
        return None;
    }
    assert(find_heading_from(lv, parent@, 0) == Some(s as int));
    match after {
        Some(target) => {
            let mut i = s + 1;
            while i < ls.len()
                invariant
                    s < i <= ls.len(),
                    lv == views(ls@),
                    after == Some(target),
                    find_heading_from(lv, parent@, 0) == Some(s as int),
                    after_target_from(lv, target@, (s + 1) as int) == after_target_from(
                        lv,
                        target@,
                        i as int,
                    ),
                decreases ls.len() - i,
            {
                assert(lv[i as int] == ls@[i as int]@);
                if starts_with_str(&ls[i], "#") {
                    return Some(s + 1);
                }
                if line_matches(&ls[i], target) {
                    return Some(i + 1);
                }
                i += 1;
            }
            Some(s + 1)
        },
        None => {
            let mut i = s + 1;
            while i < ls.len()
                invariant
                    s < i <= ls.len(),
                    lv == views(ls@),
                    after is None,
                    find_heading_from(lv, parent@, 0) == Some(s as int),
                    next_heading_from(lv, (s + 1) as int) == next_heading_from(lv, i as int),
                decreases ls.len() - i,
            {
                assert(lv[i as int] == ls@[i as int]@);
                if starts_with_str(&ls[i], "#") {
                    return Some(i);
                }
                i += 1;
            }
            Some(ls.len())
        },
    }
}

/// Where a new task of section `parent` goes in `lines`.
pub fn scan_insertion_point(lines: &[&str], parent: &str, after: Option<&str>) -> (r: Option<usize>)
    ensures
        match r {
            Some(i) => insertion_point(str_views(lines@), parent@, match after {
                Some(a) => Some(a@),
                None => None,
            }) == Some(i as int),
            None => insertion_point(str_views(lines@), parent@, match after {
                Some(a) => Some(a@),
                None => None,
            }) is None,
        },
{
    let ls = lines_of_slice(lines);
    let p = to_chars(parent);
    match after {
        Some(a) => {
            let av = to_chars(a);
            insertion_point_in(&ls, &p, Some(&av))
        },
        None => insertion_point_in(&ls, &p, None),
    }
}

} // verus!
