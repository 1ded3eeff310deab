//! What each command does to the Markdown of a legacy roadmap.
//!
//! Every edit is stated as a function from the old Markdown to the new one,
//! or to the error message the command fails with; on failure the roadmap is
//! left as it was.
use vstd::prelude::*;
use crate::roadmap::cmd_helpers::{
    find_line_idx, find_task_line, insert_raw, inserted_lines, insertion_point, insertion_point_in,
    lemma_find_task_from, raw_lines, remove_raw, replace_raw, roadmap_lines, same_except_raw,
    unlines,
};
use crate::roadmap::types::{MovePosition, Roadmap};
use crate::text::{
    append_str, find_char, find_char_from, from_chars, leading_ws, leading_ws_chars, lines,
    replace, replace_str, slice_of, to_chars, views,
};

verus! {

// ---------------------------------------------------------------------
// Messages
// ---------------------------------------------------------------------

/// `Task not found: <path>`.
pub open spec fn not_found_msg(path: Seq<char>) -> Seq<char> {
    "Task not found: "@ + path
}

/// `Could not determine insertion point for parent '<parent>'`.
pub open spec fn no_insertion_msg(parent: Seq<char>) -> Seq<char> {
    "Could not determine insertion point for parent '"@ + parent + "'"@
}

/// The error of a task line that holds no `]`.
pub open spec fn malformed_msg() -> Seq<char> {
    "Malformed task line"@
}

/// The error of `MOVE` on a legacy roadmap.
pub open spec fn move_unsupported_msg() -> Seq<char> {
    "MOVE command not supported in legacy mode"@
}

/// The error of `CHAIN` on a legacy roadmap.
pub open spec fn chain_unsupported_msg() -> Seq<char> {
    "CHAIN command not supported in legacy mode"@
}

// ---------------------------------------------------------------------
// Edits
// ---------------------------------------------------------------------

/// The view of an optional string slice.
pub open spec fn opt_str_view(o: Option<&str>) -> Option<Seq<char>> {
    match o {
        Some(s) => Some(s@),
        None => None,
    }
}

/// Rewrites the box of task `path`: every `from` on its line becomes `to`.
pub open spec fn box_edit(raw: Seq<char>, path: Seq<char>, from: Seq<char>, to: Seq<char>) -> Result<
    Seq<char>,
    Seq<char>,
> {
    let ls = lines(raw);
    match find_task_line(ls, path) {
        None => Err(not_found_msg(path)),
        Some(i) => Ok(unlines(ls.update(i, replace(ls[i], from, to)))),
    }
}

/// `CHECK path`: ticks the box of the task.
pub open spec fn check_edit(raw: Seq<char>, path: Seq<char>) -> Result<Seq<char>, Seq<char>> {
    box_edit(raw, path, "- [ ]"@, "- [x]"@)
}

/// `UNCHECK path`: clears the box of the task.
pub open spec fn uncheck_edit(raw: Seq<char>, path: Seq<char>) -> Result<Seq<char>, Seq<char>> {
    box_edit(raw, path, "- [x]"@, "- [ ]"@)
}

/// `DELETE path`: removes the line of the task.
pub open spec fn delete_edit(raw: Seq<char>, path: Seq<char>) -> Result<Seq<char>, Seq<char>> {
    let ls = lines(raw);
    match find_task_line(ls, path) {
        None => Err(not_found_msg(path)),
        Some(i) => Ok(unlines(ls.remove(i))),
    }
}

/// `UPDATE path "text"`: keeps the line up to its first `]` and puts
/// ` text` after it.
pub open spec fn update_edit(raw: Seq<char>, path: Seq<char>, text: Seq<char>) -> Result<
    Seq<char>,
    Seq<char>,
> {
    let ls = lines(raw);
    match find_task_line(ls, path) {
        None => Err(not_found_msg(path)),
        Some(i) => match find_char_from(ls[i], ']', 0) {
            None => Err(malformed_msg()),
            Some(k) => Ok(unlines(ls.update(i, ls[i].subrange(0, k) + "] "@ + text))),
        },
    }
}

/// `NOTE path "note"`: a `>` line under the task, indented as the task
/// plus two spaces.
pub open spec fn note_edit(raw: Seq<char>, path: Seq<char>, note: Seq<char>) -> Result<
    Seq<char>,
    Seq<char>,
> {
    let ls = lines(raw);
    match find_task_line(ls, path) {
        None => Err(not_found_msg(path)),
        Some(i) => Ok(unlines(ls.insert(i + 1, leading_ws(ls[i]) + "  > "@ + note))),
    }
}

/// `ADD parent "text" [AFTER t]`: a new open task at the insertion point.
pub open spec fn add_edit(
    raw: Seq<char>,
    parent: Seq<char>,
    text: Seq<char>,
    after: Option<Seq<char>>,
) -> Result<Seq<char>, Seq<char>> {
    let ls = lines(raw);
    match insertion_point(ls, parent, after) {
        None => Err(no_insertion_msg(parent)),
        Some(k) => Ok(unlines(inserted_lines(ls, k, "- [ ] "@ + text))),
    }
}

/// `SECTION "heading"`: a level-2 heading at the end.
pub open spec fn section_edit(raw: Seq<char>, heading: Seq<char>) -> Seq<char> {
    raw + "\n## "@ + heading + "\n"@
}

/// A level-3 heading at the end.
pub open spec fn subsection_edit(raw: Seq<char>, heading: Seq<char>) -> Seq<char> {
    raw + "\n### "@ + heading + "\n"@
}

/// `new` is `old` after a command whose effect on the Markdown is `edit`:
/// the new text on success, the unchanged roadmap and the message on
/// failure.
pub open spec fn edited(
    old: &Roadmap,
    new: &Roadmap,
    r: Result<(), String>,
    edit: Result<Seq<char>, Seq<char>>,
) -> bool {
    &&& same_except_raw(new, old)
    &&& match edit {
        Ok(raw) => r is Ok && new.raw@ == raw,
        Err(e) => r matches Err(m) && m@ == e && new.raw@ == old.raw@,
    }
}

// ---------------------------------------------------------------------
// Handlers
// ---------------------------------------------------------------------

fn not_found(path: &str) -> (r: String)
    ensures
        r@ == not_found_msg(path@),
{
    let mut out: Vec<char> = Vec::new();
    append_str(&mut out, "Task not found: ");
    append_str(&mut out, path);
    from_chars(&out)
}

fn set_box(roadmap: &mut Roadmap, path: &str, from: &str, to: &str) -> (r: Result<(), String>)
    requires
        from@.len() > 0,
    ensures
        edited(&*old(roadmap), &*final(roadmap), r, box_edit(old(roadmap).raw@, path@, from@, to@)),
{
    match find_line_idx(roadmap, path) {
        None => Err(not_found(path)),
        Some(idx) => {
            let ls = roadmap_lines(roadmap);
            proof {
                lemma_find_task_from(raw_lines(roadmap), path@, 0);
                assert(views(ls@)[idx as int] == ls@[idx as int]@);
            }
            let line = replace_str(&ls[idx], from, to);
            replace_raw(roadmap, idx, from_chars(&line));
            Ok(())
        },
    }
}

/// `CHECK path`.
pub fn handle_check(roadmap: &mut Roadmap, path: &str) -> (r: Result<(), String>)
    ensures
        edited(&*old(roadmap), &*final(roadmap), r, check_edit(old(roadmap).raw@, path@)),
{
    proof {
        reveal_strlit("- [ ]");
    }
    set_box(roadmap, path, "- [ ]", "- [x]")
}

/// `UNCHECK path`.
pub fn handle_uncheck(roadmap: &mut Roadmap, path: &str) -> (r: Result<(), String>)
    ensures
        edited(&*old(roadmap), &*final(roadmap), r, uncheck_edit(old(roadmap).raw@, path@)),
{
    proof {
        reveal_strlit("- [x]");
    }
    set_box(roadmap, path, "- [x]", "- [ ]")
}

/// `DELETE path`.
pub fn handle_delete(roadmap: &mut Roadmap, path: &str) -> (r: Result<(), String>)
    ensures
        edited(&*old(roadmap), &*final(roadmap), r, delete_edit(old(roadmap).raw@, path@)),
{
    match find_line_idx(roadmap, path) {
        None => Err(not_found(path)),
        Some(idx) => {
            proof {
                lemma_find_task_from(raw_lines(roadmap), path@, 0);
            }
            remove_raw(roadmap, idx);
            Ok(())
        },
    }
}

/// `ADD parent "text" [AFTER t]`.
pub fn handle_add(roadmap: &mut Roadmap, parent: &str, text: &str, after: Option<&str>) -> (r:
    Result<(), String>)
    ensures
        edited(
            &*old(roadmap),
            &*final(roadmap),
            r,
            add_edit(old(roadmap).raw@, parent@, text@, opt_str_view(after)),
        ),
{
    let ls = roadmap_lines(roadmap);
    let p = to_chars(parent);
    let found = match after {
        Some(a) => {
            let av = to_chars(a);
            insertion_point_in(&ls, &p, Some(&av))
        },
        None => insertion_point_in(&ls, &p, None),
    };
    match found {
        None => {
            let mut out: Vec<char> = Vec::new();
            append_str(&mut out, "Could not determine insertion point for parent '");
            append_str(&mut out, parent);
            append_str(&mut out, "'");
            Err(from_chars(&out))
        },
        Some(k) => {
            let mut line: Vec<char> = Vec::new();
            append_str(&mut line, "- [ ] ");
            append_str(&mut line, text);
            insert_raw(roadmap, k, from_chars(&line));
            Ok(())
        },
    }
}

/// `UPDATE path "text"`.
pub fn handle_update(roadmap: &mut Roadmap, path: &str, text: &str) -> (r: Result<(), String>)
    ensures
        edited(&*old(roadmap), &*final(roadmap), r, update_edit(old(roadmap).raw@, path@, text@)),
{
    match find_line_idx(roadmap, path) {
        None => Err(not_found(path)),
        Some(idx) => {
            let ls = roadmap_lines(roadmap);
            proof {
                lemma_find_task_from(raw_lines(roadmap), path@, 0);
                assert(views(ls@)[idx as int] == ls@[idx as int]@);
            }
            let line = &ls[idx];
            match find_char(line, ']', 0) {
                None => Err("Malformed task line".to_owned()),
                Some(k) => {
                    proof {
                        crate::text::lemma_find_char_from(line@, ']', 0);
                    }
                    let mut nl = slice_of(line, 0, k);
                    append_str(&mut nl, "] ");
                    append_str(&mut nl, text);
                    replace_raw(roadmap, idx, from_chars(&nl));
                    Ok(())
                },
            }
        },
    }
}

/// `NOTE path "note"`.
pub fn handle_note(roadmap: &mut Roadmap, path: &str, note: &str) -> (r: Result<(), String>)
    ensures
        edited(&*old(roadmap), &*final(roadmap), r, note_edit(old(roadmap).raw@, path@, note@)),
{
    match find_line_idx(roadmap, path) {
        None => Err(not_found(path)),
        Some(idx) => {
            let ls = roadmap_lines(roadmap);
            proof {
                lemma_find_task_from(raw_lines(roadmap), path@, 0);
                assert(views(ls@)[idx as int] == ls@[idx as int]@);
            }
            assert(idx < ls.len());
            let mut nl = leading_ws_chars(&ls[idx]);
            append_str(&mut nl, "  > ");
            append_str(&mut nl, note);
            insert_raw(roadmap, idx + 1, from_chars(&nl));
            Ok(())
        },
    }
}

/// `MOVE`: a legacy roadmap cannot move tasks.
pub fn handle_move(roadmap: &mut Roadmap, path: &str, pos: MovePosition) -> (r: Result<(), String>)
    ensures
        *final(roadmap) == *old(roadmap),
        r matches Err(m) && m@ == move_unsupported_msg(),
{
    Err("MOVE command not supported in legacy mode".to_owned())
}

/// Appends a level-2 heading.
pub fn handle_add_section(roadmap: &mut Roadmap, heading: &str) -> (r: Result<(), String>)
    ensures
        r is Ok,
        final(roadmap).raw@ == section_edit(old(roadmap).raw@, heading@),
        same_except_raw(&*final(roadmap), &*old(roadmap)),
{
    let mut raw = to_chars(roadmap.raw.as_str());
    append_str(&mut raw, "\n## ");
    append_str(&mut raw, heading);
    append_str(&mut raw, "\n");
    roadmap.raw = from_chars(&raw);
    Ok(())
}

/// Appends a level-3 heading; the parent is not consulted.
pub fn handle_add_subsection(roadmap: &mut Roadmap, parent: &str, heading: &str) -> (r: Result<
    (),
    String,
>)
    ensures
        r is Ok,
        final(roadmap).raw@ == subsection_edit(old(roadmap).raw@, heading@),
        same_except_raw(&*final(roadmap), &*old(roadmap)),
{
    let mut raw = to_chars(roadmap.raw.as_str());
    append_str(&mut raw, "\n### ");
    append_str(&mut raw, heading);
    append_str(&mut raw, "\n");
    roadmap.raw = from_chars(&raw);
    Ok(())
}

/// `CHAIN`: a legacy roadmap cannot chain tasks.
pub fn handle_chain(roadmap: &mut Roadmap, parent: &str, items: Vec<String>) -> (r: Result<
    (),
    String,
>)
    ensures
        *final(roadmap) == *old(roadmap),
        r matches Err(m) && m@ == chain_unsupported_msg(),
{
    Err("CHAIN command not supported in legacy mode".to_owned())
}

} // verus!
