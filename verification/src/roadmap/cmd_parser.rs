//! Parser of the roadmap command language (`CHECK path`, `ADD parent "text"`, ...).
use vstd::prelude::*;
use crate::roadmap::str_utils::{
    is_ignorable_chars, is_ignorable_spec, parse_quoted_chars, parse_quoted_spec,
    parse_quoted_with_after_chars, parse_quoted_with_after_spec, quoted_list_spec,
    split_first_word_chars, split_first_word_spec, truncate_chars, truncate_spec,
    parse_quoted_list,
};
use crate::roadmap::types::{
    Command, CommandBatch, CommandView, MovePosition, MovePositionView, string_views,
};
use crate::text::{
    occurs_at,
    append, append_str, decimal, decimal_chars, eq_chars, eq_str, find, find_char,
    find_char_from, find_str, from_chars, is_whitespace, join, lemma_find_char_from,
    lemma_find_from, slice_of, split_lines, split_words, starts_with, starts_with_str, to_chars,
    to_uppercase_chars, trim, trim_chars, uppercase, views, words, lines,
};

verus! {

// ---------------------------------------------------------------------
// Specs
// ---------------------------------------------------------------------

/// A parse outcome: a command, or an error message.
pub type ParseView = Result<CommandView, Seq<char>>;

/// `exec` agrees with the spec outcome `s`.
pub open spec fn outcome_is(r: Result<Command, String>, s: ParseView) -> bool {
    match s {
        Ok(c) => r matches Ok(x) && x@ == c,
        Err(e) => r matches Err(m) && m@ == e,
    }
}

/// The part of the input between `===ROADMAP===` and `===END===`, or all
/// of it when there is no such block.
pub open spec fn roadmap_block(input: Seq<char>) -> Seq<char> {
    match find(input, "===ROADMAP==="@) {
        Some(start) => {
            let after = input.subrange(start + 13, input.len() as int);
            match find(after, "===END==="@) {
                Some(end) => after.subrange(0, end),
                None => after,
            }
        },
        None => input,
    }
}

/// Empty lines, headings and `//` comments carry no command.
pub open spec fn is_skippable_spec(line: Seq<char>) -> bool {
    line.len() == 0 || starts_with(line, "#"@) || starts_with(line, "//"@)
}

/// The keyword (before the first space) and the arguments of a command line.
pub open spec fn split_cmd_spec(line: Seq<char>) -> Option<(Seq<char>, Seq<char>)> {
    match find_char_from(line, ' ', 0) {
        Some(k) => if k == 0 {
            None
        } else {
            Some((line.subrange(0, k), line.subrange(k + 1, line.len() as int)))
        },
        None => if line.len() == 0 {
            None
        } else {
            Some((line, Seq::empty()))
        },
    }
}

/// `CHECK`, `UNCHECK` and `DELETE` take a task path.
pub open spec fn parse_basic_spec(cmd: Seq<char>, args: Seq<char>) -> ParseView {
    let path = trim(args);
    if path.len() == 0 {
        Err("Requires task path"@)
    } else if cmd == "CHECK"@ {
        Ok(CommandView::Check { path })
    } else if cmd == "UNCHECK"@ {
        Ok(CommandView::Uncheck { path })
    } else if cmd == "DELETE"@ {
        Ok(CommandView::Delete { path })
    } else {
        Err("Unknown: "@ + cmd)
    }
}

/// `ADD parent "text" [AFTER target]`.
pub open spec fn parse_add_spec(args: Seq<char>) -> ParseView {
    let (parent, rest) = split_first_word_spec(args);
    if parent.len() == 0 {
        Err("ADD needs parent"@)
    } else {
        match parse_quoted_with_after_spec(rest) {
            Ok((text, after)) => Ok(CommandView::Add { parent, text, after }),
            Err(e) => Err(e),
        }
    }
}

/// `UPDATE path "text"`.
pub open spec fn parse_update_spec(args: Seq<char>) -> ParseView {
    let (path, rest) = split_first_word_spec(args);
    if path.len() == 0 {
        Err("UPDATE needs path"@)
    } else {
        match parse_quoted_spec(rest) {
            Ok(text) => Ok(CommandView::Update { path, text }),
            Err(e) => Err(e),
        }
    }
}

/// `NOTE path "note"`.
pub open spec fn parse_note_spec(args: Seq<char>) -> ParseView {
    let (path, rest) = split_first_word_spec(args);
    if path.len() == 0 {
        Err("NOTE needs path"@)
    } else {
        match parse_quoted_spec(rest) {
            Ok(note) => Ok(CommandView::Note { path, note }),
            Err(e) => Err(e),
        }
    }
}

/// `ADD`, `UPDATE` and `NOTE`.
pub open spec fn parse_content_spec(cmd: Seq<char>, args: Seq<char>) -> ParseView {
    if cmd == "ADD"@ {
        parse_add_spec(args)
    } else if cmd == "UPDATE"@ {
        parse_update_spec(args)
    } else if cmd == "NOTE"@ {
        parse_note_spec(args)
    } else {
        Err("Unknown: "@ + cmd)
    }
}

/// The position keyword of a `MOVE` command, compared upper-cased.
pub open spec fn move_position_spec(keyword: Seq<char>, target: Seq<char>) -> Result<
    MovePositionView,
    Seq<char>,
> {
    move_position_given(uppercase(keyword), target)
}

/// The position of a move, given the upper-case form `u` of its keyword.
pub open spec fn move_position_given(u: Seq<char>, target: Seq<char>) -> Result<
    MovePositionView,
    Seq<char>,
> {
    if u == "AFTER"@ {
        Ok(MovePositionView::After(target))
    } else if u == "BEFORE"@ {
        Ok(MovePositionView::Before(target))
    } else if u == "TO"@ {
        Ok(MovePositionView::EndOfSection(target))
    } else {
        Err("Invalid position (use AFTER, BEFORE, or TO)"@)
    }
}

/// `MOVE path AFTER|BEFORE|TO target`.
pub open spec fn parse_move_spec(args: Seq<char>) -> ParseView {
    let parts = words(args);
    if parts.len() < 3 {
        Err("MOVE: path AFTER|BEFORE|TO target"@)
    } else {
        match move_position_spec(parts[1], parts[2]) {
            Ok(position) => Ok(CommandView::Move { path: parts[0], position }),
            Err(e) => Err(e),
        }
    }
}

/// A heading given quoted, or else taken trimmed as it stands.
pub open spec fn heading_of(s: Seq<char>) -> Seq<char> {
    match parse_quoted_spec(s) {
        Ok(h) => h,
        Err(_) => trim(s),
    }
}

/// `SECTION "heading"`.
pub open spec fn parse_add_section_spec(args: Seq<char>) -> ParseView {
    let heading = heading_of(args);
    if heading.len() == 0 {
        Err("SECTION needs heading"@)
    } else {
        Ok(CommandView::AddSection { heading })
    }
}

/// `SUBSECTION parent "heading"`.
pub open spec fn parse_subsection_spec(args: Seq<char>) -> ParseView {
    let (parent, rest) = split_first_word_spec(args);
    if parent.len() == 0 {
        Err("SUBSECTION needs parent"@)
    } else {
        let heading = heading_of(rest);
        if heading.len() == 0 {
            Err("SUBSECTION needs heading"@)
        } else {
            Ok(CommandView::AddSubsection { parent, heading })
        }
    }
}

/// `REPLACE_SECTION id`.
pub open spec fn parse_replace_section_spec(args: Seq<char>) -> ParseView {
    let id = trim(args);
    if id.len() == 0 {
        Err("REPLACE_SECTION needs ID"@)
    } else {
        Ok(CommandView::ReplaceSection { id, content: Seq::empty() })
    }
}

/// `CHAIN parent "item" "item" ...`.
pub open spec fn parse_chain_spec(args: Seq<char>) -> ParseView {
    let (parent, rest) = split_first_word_spec(args);
    if parent.len() == 0 {
        Err("CHAIN needs parent section"@)
    } else {
        match quoted_list_spec(rest) {
            Err(e) => Err(e),
            Ok(items) => if items.len() == 0 {
                Err("CHAIN needs at least one item"@)
            } else {
                Ok(CommandView::Chain { parent, items })
            },
        }
    }
}

/// The structural commands.
pub open spec fn parse_struct_spec(cmd: Seq<char>, args: Seq<char>) -> ParseView {
    if cmd == "MOVE"@ {
        parse_move_spec(args)
    } else if cmd == "SECTION"@ {
        parse_add_section_spec(args)
    } else if cmd == "SUBSECTION"@ {
        parse_subsection_spec(args)
    } else if cmd == "CHAIN"@ {
        parse_chain_spec(args)
    } else if cmd == "REPLACE_SECTION"@ {
        parse_replace_section_spec(args)
    } else {
        Err("Unknown command: "@ + cmd)
    }
}

/// Dispatch on the keyword.
pub open spec fn parse_by_type_spec(cmd: Seq<char>, args: Seq<char>) -> ParseView {
    if cmd == "CHECK"@ || cmd == "UNCHECK"@ || cmd == "DELETE"@ {
        parse_basic_spec(cmd, args)
    } else if cmd == "ADD"@ || cmd == "UPDATE"@ || cmd == "NOTE"@ {
        parse_content_spec(cmd, args)
    } else {
        parse_struct_spec(cmd, args)
    }
}

/// One command line.
pub open spec fn parse_line_spec(line: Seq<char>) -> ParseView {
    match split_cmd_spec(line) {
        None => Err("Empty command"@),
        Some((cmd, args)) => parse_by_type_spec(cmd, args),
    }
}

/// The message recorded for a line that failed to parse.
pub open spec fn line_error(line: Seq<char>, e: Seq<char>) -> Seq<char> {
    "Line '"@ + truncate_spec(line, 40) + "': "@ + e
}

/// Commands of the given lines, in order.
pub open spec fn batch_commands(ls: Seq<Seq<char>>) -> Seq<CommandView>
    decreases ls.len(),
{
    if ls.len() == 0 {
        Seq::empty()
    } else {
        let prev = batch_commands(ls.drop_last());
        let l = trim(ls.last());
        if is_skippable_spec(l) {
            prev
        } else {
            match parse_line_spec(l) {
                Ok(c) => prev.push(c),
                Err(_) => prev,
            }
        }
    }
}

/// Errors of the given lines, in order; framing lines are not reported.
pub open spec fn batch_errors(ls: Seq<Seq<char>>) -> Seq<Seq<char>>
    decreases ls.len(),
{
    if ls.len() == 0 {
        Seq::empty()
    } else {
        let prev = batch_errors(ls.drop_last());
        let l = trim(ls.last());
        if is_skippable_spec(l) {
            prev
        } else {
            match parse_line_spec(l) {
                Ok(_) => prev,
                Err(e) => if l.len() > 0 && !is_ignorable_spec(l) {
                    prev.push(line_error(l, e))
                } else {
                    prev
                },
            }
        }
    }
}

/// The views of a sequence of commands.
pub open spec fn command_views(cs: Seq<Command>) -> Seq<CommandView> {
    cs.map_values(|c: Command| c@)
}

/// Keyword that a summary counts a command under.
pub open spec fn cmd_name_spec(c: CommandView) -> Seq<char> {
    match c {
        CommandView::Check { .. } => "CHECK"@,
        CommandView::Uncheck { .. } => "UNCHECK"@,
        CommandView::Add { .. } => "ADD"@,
        CommandView::Delete { .. } => "DELETE"@,
        CommandView::Chain { .. } => "CHAIN"@,
        CommandView::AddSection { .. } => "ADD_SECTION"@,
        CommandView::AddSubsection { .. } => "ADD_SUBSECTION"@,
        CommandView::Update { .. } => "UPDATE"@,
        CommandView::Note { .. } => "NOTE"@,
        CommandView::Move { .. } => "MOVE"@,
        CommandView::ReplaceSection { .. } => "SECTION_REPLACE"@,
    }
}

/// Position of `name` in `counts`, searching from `i`.
pub open spec fn name_index_from(counts: Seq<(Seq<char>, nat)>, name: Seq<char>, i: int) -> Option<int>
    decreases counts.len() - i,
{
    if i < 0 || i >= counts.len() {
        None
    } else if counts[i].0 == name {
        Some(i)
    } else {
        name_index_from(counts, name, i + 1)
    }
}

/// `counts` with one more occurrence of `name`.
pub open spec fn bump(counts: Seq<(Seq<char>, nat)>, name: Seq<char>) -> Seq<(Seq<char>, nat)> {
    match name_index_from(counts, name, 0) {
        Some(i) => counts.update(i, (name, counts[i].1 + 1)),
        None => counts.push((name, 1)),
    }
}

/// How often each keyword occurs, in order of first occurrence.
pub open spec fn name_counts(cs: Seq<CommandView>) -> Seq<(Seq<char>, nat)>
    decreases cs.len(),
{
    if cs.len() == 0 {
        Seq::empty()
    } else {
        bump(name_counts(cs.drop_last()), cmd_name_spec(cs.last()))
    }
}

/// `"{count} {name}"` for each entry.
pub open spec fn count_texts(counts: Seq<(Seq<char>, nat)>) -> Seq<Seq<char>> {
    counts.map_values(|e: (Seq<char>, nat)| decimal(e.1) + " "@ + e.0)
}

/// Summary line of a batch.
pub open spec fn summary_spec(cs: Seq<CommandView>) -> Seq<char> {
    if cs.len() == 0 {
        "No commands"@
    } else {
        join(count_texts(name_counts(cs)), ", "@)
    }
}

// ---------------------------------------------------------------------
// Executable parser
// ---------------------------------------------------------------------

/// Error value carrying a literal message.
fn err_str(m: &str) -> (r: Result<Command, String>)
    ensures
        r matches Err(e) && e@ == m@,
{
    Err(from_chars(&to_chars(m)))
}

/// Error value carrying `prefix` followed by `v`.
fn err_with(prefix: &str, v: &Vec<char>) -> (r: Result<Command, String>)
    ensures
        r matches Err(e) && e@ == prefix@ + v@,
{
    let mut m = to_chars(prefix);
    append(&mut m, v);
    Err(from_chars(&m))
}

fn extract_roadmap_block(input: &Vec<char>) -> (r: Vec<char>)
    ensures
        r@ == roadmap_block(input@),
{
    match find_str(input, "===ROADMAP===") {
        Some(start) => {
            proof {
                lemma_find_from(input@, "===ROADMAP==="@, 0);
                reveal_strlit("===ROADMAP===");
                assert("===ROADMAP==="@.len() == 13);
                assert(find(input@, "===ROADMAP==="@) == Some(start as int));
                assert(occurs_at(input@, "===ROADMAP==="@, start as int));
                assert(start + 13 <= input@.len());
            }
            let n = input.len();
            assert(start + 13 <= n);
            let after = slice_of(input, start + 13, n);
            match find_str(&after, "===END===") {
                Some(end) => {
                    proof {
                        lemma_find_from(after@, "===END==="@, 0);
                    }
                    slice_of(&after, 0, end)
                },
                None => after,
            }
        },
        None => crate::text::copy(input),
    }
}

fn is_skippable(line: &Vec<char>) -> (r: bool)
    ensures
        r == is_skippable_spec(line@),
{
    line.len() == 0 || starts_with_str(line, "#") || starts_with_str(line, "//")
}

fn split_cmd(line: &Vec<char>) -> (r: Option<(Vec<char>, Vec<char>)>)
    ensures
        match split_cmd_spec(line@) {
            Some((c, a)) => r matches Some((x, y)) && x@ == c && y@ == a,
            None => r is None,
        },
{
    match find_char(line, ' ', 0) {
        Some(k) => {
            proof {
                lemma_find_char_from(line@, ' ', 0);
            }
            if k == 0 {
                None
            } else {
                Some((slice_of(line, 0, k), slice_of(line, k + 1, line.len())))
            }
        },
        None => {
            if line.len() == 0 {
                None
            } else {
                Some((crate::text::copy(line), Vec::new()))
            }
        },
    }
}

fn parse_basic(cmd: &Vec<char>, args: &Vec<char>) -> (r: Result<Command, String>)
    ensures
        outcome_is(r, parse_basic_spec(cmd@, args@)),
{
    let path = trim_chars(args);
    if path.len() == 0 {
        return err_str("Requires task path");
    }
    if eq_str(cmd, "CHECK") {
        Ok(Command::Check { path: from_chars(&path) })
    } else if eq_str(cmd, "UNCHECK") {
        Ok(Command::Uncheck { path: from_chars(&path) })
    } else if eq_str(cmd, "DELETE") {
        Ok(Command::Delete { path: from_chars(&path) })
    } else {
        err_with("Unknown: ", cmd)
    }
}

fn parse_add(args: &Vec<char>) -> (r: Result<Command, String>)
    ensures
        outcome_is(r, parse_add_spec(args@)),
{
    let (parent, rest) = split_first_word_chars(args);
    if parent.len() == 0 {
        return err_str("ADD needs parent");
    }
    match parse_quoted_with_after_chars(&rest) {
        Ok((text, after)) => {
            let a = match after {
                Some(x) => Some(from_chars(&x)),
                None => None,
            };
            Ok(Command::Add { parent: from_chars(&parent), text: from_chars(&text), after: a })
        },
        Err(e) => Err(e),
    }
}

fn parse_update(args: &Vec<char>) -> (r: Result<Command, String>)
    ensures
        outcome_is(r, parse_update_spec(args@)),
{
    let (path, rest) = split_first_word_chars(args);
    if path.len() == 0 {
        return err_str("UPDATE needs path");
    }
    match parse_quoted_chars(&rest) {
        Ok(text) => Ok(Command::Update { path: from_chars(&path), text: from_chars(&text) }),
        Err(e) => Err(e),
    }
}

fn parse_note(args: &Vec<char>) -> (r: Result<Command, String>)
    ensures
        outcome_is(r, parse_note_spec(args@)),
{
    let (path, rest) = split_first_word_chars(args);
    if path.len() == 0 {
        return err_str("NOTE needs path");
    }
    match parse_quoted_chars(&rest) {
        Ok(note) => Ok(Command::Note { path: from_chars(&path), note: from_chars(&note) }),
        Err(e) => Err(e),
    }
}

fn parse_content(cmd: &Vec<char>, args: &Vec<char>) -> (r: Result<Command, String>)
    ensures
        outcome_is(r, parse_content_spec(cmd@, args@)),
{
    if eq_str(cmd, "ADD") {
        parse_add(args)
    } else if eq_str(cmd, "UPDATE") {
        parse_update(args)
    } else if eq_str(cmd, "NOTE") {
        parse_note(args)
    } else {
        err_with("Unknown: ", cmd)
    }
}

fn parse_move_position(keyword: &Vec<char>, target: &Vec<char>) -> (r: Result<
    MovePosition,
    String,
>)
    ensures
        match move_position_spec(keyword@, target@) {
            Ok(p) => r matches Ok(x) && x@ == p,
            Err(e) => r matches Err(m) && m@ == e,
        },
{
    let u = to_uppercase_chars(keyword);
    move_position_from_upper(&u, target)
}

/// The position of a `MOVE`, given the upper-cased keyword `upper`
/// (`AFTER`, `BEFORE` or `TO`) and the target.
pub fn move_position_from_upper(upper: &Vec<char>, target: &Vec<char>) -> (r: Result<
    MovePosition,
    String,
>)
    ensures
        match move_position_given(upper@, target@) {
            Ok(p) => r matches Ok(x) && x@ == p,
            Err(e) => r matches Err(m) && m@ == e,
        },
{
    let u = upper;
    if eq_str(u, "AFTER") {
        Ok(MovePosition::After(from_chars(target)))
    } else if eq_str(u, "BEFORE") {
        Ok(MovePosition::Before(from_chars(target)))
    } else if eq_str(u, "TO") {
        Ok(MovePosition::EndOfSection(from_chars(target)))
    } else {
        Err(from_chars(&to_chars("Invalid position (use AFTER, BEFORE, or TO)")))
    }
}

fn parse_move(args: &Vec<char>) -> (r: Result<Command, String>)
    ensures
        outcome_is(r, parse_move_spec(args@)),
{
    let parts = split_words(args);
    if parts.len() < 3 {
        return err_str("MOVE: path AFTER|BEFORE|TO target");
    }
    assert(views(parts@)[1] == parts@[1]@);
    match parse_move_position(&parts[1], &parts[2]) {
        Ok(position) => Ok(Command::Move { path: from_chars(&parts[0]), position }),
        Err(e) => Err(e),
    }
}

fn heading_of_chars(s: &Vec<char>) -> (r: Vec<char>)
    ensures
        r@ == heading_of(s@),
{
    match parse_quoted_chars(s) {
        Ok(h) => h,
        Err(_) => trim_chars(s),
    }
}

fn parse_add_section(args: &Vec<char>) -> (r: Result<Command, String>)
    ensures
        outcome_is(r, parse_add_section_spec(args@)),
{
    let heading = heading_of_chars(args);
    if heading.len() == 0 {
        return err_str("SECTION needs heading");
    }
    Ok(Command::AddSection { heading: from_chars(&heading) })
}

fn parse_subsection(args: &Vec<char>) -> (r: Result<Command, String>)
    ensures
        outcome_is(r, parse_subsection_spec(args@)),
{
    let (parent, rest) = split_first_word_chars(args);
    if parent.len() == 0 {
        return err_str("SUBSECTION needs parent");
    }
    let heading = heading_of_chars(&rest);
    if heading.len() == 0 {
        return err_str("SUBSECTION needs heading");
    }
    Ok(Command::AddSubsection { parent: from_chars(&parent), heading: from_chars(&heading) })
}

fn parse_replace_section(args: &Vec<char>) -> (r: Result<Command, String>)
    ensures
        outcome_is(r, parse_replace_section_spec(args@)),
{
    let id = trim_chars(args);
    if id.len() == 0 {
        return err_str("REPLACE_SECTION needs ID");
    }
    Ok(Command::ReplaceSection { id: from_chars(&id), content: String::new() })
}

fn parse_chain(args: &Vec<char>) -> (r: Result<Command, String>)
    ensures
        outcome_is(r, parse_chain_spec(args@)),
{
    let (parent, rest) = split_first_word_chars(args);
    if parent.len() == 0 {
        return err_str("CHAIN needs parent section");
    }
    let rest_s = from_chars(&rest);
    match parse_quoted_list(rest_s.as_str()) {
        Err(e) => Err(e),
        Ok(items) => {
            if items.len() == 0 {
                return err_str("CHAIN needs at least one item");
            }
            Ok(Command::Chain { parent: from_chars(&parent), items })
        },
    }
}

fn parse_struct(cmd: &Vec<char>, args: &Vec<char>) -> (r: Result<Command, String>)
    ensures
        outcome_is(r, parse_struct_spec(cmd@, args@)),
{
    if eq_str(cmd, "MOVE") {
        parse_move(args)
    } else if eq_str(cmd, "SECTION") {
        parse_add_section(args)
    } else if eq_str(cmd, "SUBSECTION") {
        parse_subsection(args)
    } else if eq_str(cmd, "CHAIN") {
        parse_chain(args)
    } else if eq_str(cmd, "REPLACE_SECTION") {
        parse_replace_section(args)
    } else {
        err_with("Unknown command: ", cmd)
    }
}

fn parse_by_type(cmd: &Vec<char>, args: &Vec<char>) -> (r: Result<Command, String>)
    ensures
        outcome_is(r, parse_by_type_spec(cmd@, args@)),
{
    if eq_str(cmd, "CHECK") || eq_str(cmd, "UNCHECK") || eq_str(cmd, "DELETE") {
        parse_basic(cmd, args)
    } else if eq_str(cmd, "ADD") || eq_str(cmd, "UPDATE") || eq_str(cmd, "NOTE") {
        parse_content(cmd, args)
    } else {
        parse_struct(cmd, args)
    }
}

/// Parses one (trimmed) command line.
pub fn parse_command_line(line: &Vec<char>) -> (r: Result<Command, String>)
    ensures
        outcome_is(r, parse_line_spec(line@)),
{
    match split_cmd(line) {
        None => err_str("Empty command"),
        Some((cmd, args)) => parse_by_type(&cmd, &args),
    }
}

/// `name_index_from` finds the first entry with the name.
proof fn lemma_name_index(counts: Seq<(Seq<char>, nat)>, name: Seq<char>, i: int)
    requires
        0 <= i,
    ensures
        match name_index_from(counts, name, i) {
            Some(k) => i <= k < counts.len() && counts[k].0 == name && forall|j: int|
                i <= j < k ==> counts[j].0 != name,
            None => forall|j: int| i <= j < counts.len() ==> counts[j].0 != name,
        },
    decreases counts.len() - i,
{
    if i < counts.len() && counts[i].0 != name {
        lemma_name_index(counts, name, i + 1);
    }
}

/// Position of `name` in `names`.
fn find_name(names: &Vec<Vec<char>>, name: &Vec<char>) -> (r: Option<usize>)
    ensures
        match r {
            Some(j) => j < names.len() && names@[j as int]@ == name@ && forall|k: int|
                0 <= k < j ==> names@[k]@ != name@,
            None => forall|k: int| 0 <= k < names.len() ==> names@[k]@ != name@,
        },
{
    let mut j: usize = 0;
    while j < names.len()
        invariant
            j <= names.len(),
            forall|k: int| 0 <= k < j ==> names@[k]@ != name@,
        decreases names.len() - j,
    {
        if eq_chars(&names[j], name) {
            return Some(j);
        }
        j += 1;
    }
    None
}

fn cmd_name_ext(cmd: &Command) -> (r: Vec<char>)
    ensures
        !(cmd@ is Check || cmd@ is Uncheck || cmd@ is Add || cmd@ is Delete || cmd@ is Chain)
            ==> r@ == cmd_name_spec(cmd@),
{
    match cmd {
        Command::AddSection { .. } => to_chars("ADD_SECTION"),
        Command::AddSubsection { .. } => to_chars("ADD_SUBSECTION"),
        Command::Update { .. } => to_chars("UPDATE"),
        Command::Note { .. } => to_chars("NOTE"),
        Command::Move { .. } => to_chars("MOVE"),
        Command::ReplaceSection { .. } => to_chars("SECTION_REPLACE"),
        _ => to_chars("UNKNOWN"),
    }
}

fn cmd_name(cmd: &Command) -> (r: Vec<char>)
    ensures
        r@ == cmd_name_spec(cmd@),
{
    match cmd {
        Command::Check { .. } => to_chars("CHECK"),
        Command::Uncheck { .. } => to_chars("UNCHECK"),
        Command::Add { .. } => to_chars("ADD"),
        Command::Delete { .. } => to_chars("DELETE"),
        Command::Chain { .. } => to_chars("CHAIN"),
        _ => cmd_name_ext(cmd),
    }
}

impl CommandBatch {
    /// Parses every command line of `input` (of its `===ROADMAP===` block
    /// when it has one); lines that fail are reported in `errors`.
    pub fn parse(input: &str) -> (r: CommandBatch)
        ensures
            command_views(r.commands@) == batch_commands(lines(roadmap_block(input@))),
            string_views(r.errors@) == batch_errors(lines(roadmap_block(input@))),
    {
        let iv = to_chars(input);
        let content = extract_roadmap_block(&iv);
        let ls = split_lines(&content);
        let ghost lsv = views(ls@);
        let mut commands: Vec<Command> = Vec::new();
        let mut errors: Vec<String> = Vec::new();
        let mut i: usize = 0;
        while i < ls.len()
            invariant
                i <= ls.len(),
                lsv == views(ls@),
                command_views(commands@) == batch_commands(lsv.take(i as int)),
                string_views(errors@) == batch_errors(lsv.take(i as int)),
            decreases ls.len() - i,
        {
            proof {
                assert(lsv.take(i + 1).drop_last() =~= lsv.take(i as int));
                assert(lsv.take(i + 1).last() == ls@[i as int]@);
            }
            let line = trim_chars(&ls[i]);
            if !is_skippable(&line) {
                let ghost c0 = commands@;
                let ghost e0 = errors@;
                match parse_command_line(&line) {
                    Ok(cmd) => {
                        commands.push(cmd);
                        assert(command_views(commands@) =~= command_views(c0).push(
                            commands@.last()@,
                        ));
                    },
                    Err(e) => {
                        if line.len() > 0 && !is_ignorable_chars(&line) {
                            let mut msg = to_chars("Line '");
                            let t = truncate_chars(&line, 40);
                            append(&mut msg, &t);
                            append_str(&mut msg, "': ");
                            append_str(&mut msg, e.as_str());
                            errors.push(from_chars(&msg));
                            assert(string_views(errors@) =~= string_views(e0).push(
                                errors@.last()@,
                            ));
                        }
                    },
                }
            }
            i += 1;
        }
        assert(lsv.take(ls.len() as int) =~= lsv);
        CommandBatch { commands, errors }
    }

    /// `"{count} {NAME}"` for each command keyword present, in order of
    /// first occurrence and separated by `, `; `No commands` when empty.
    pub fn summary(&self) -> (r: String)
        ensures
            r@ == summary_spec(command_views(self.commands@)),
    {
        let ghost cs = command_views(self.commands@);
        if self.commands.len() == 0 {
            return from_chars(&to_chars("No commands"));
        }
        let mut names: Vec<Vec<char>> = Vec::new();
        let mut counts: Vec<usize> = Vec::new();
        let mut i: usize = 0;
        while i < self.commands.len()
            invariant
                i <= self.commands.len(),
                cs == command_views(self.commands@),
                names.len() == counts.len(),
                names.len() <= i,
                forall|k: int| 0 <= k < counts.len() ==> counts@[k] <= i,
                name_counts(cs.take(i as int)).len() == names.len(),
                forall|k: int|
                    0 <= k < names.len() ==> (#[trigger] name_counts(cs.take(i as int))[k]).0
                        == names@[k]@ && name_counts(cs.take(i as int))[k].1 == counts@[k] as nat,
            decreases self.commands.len() - i,
        {
            let ghost prev = name_counts(cs.take(i as int));
            let name = cmd_name(&self.commands[i]);
            proof {
                assert(cs.take(i + 1).drop_last() =~= cs.take(i as int));
                assert(cs.take(i + 1).last() == self.commands@[i as int]@);
            }
            let pos = find_name(&names, &name);
            proof {
                lemma_name_index(prev, name@, 0);
            }
            match pos {
                Some(j) => {
                    proof {
                        assert(prev[j as int].0 == name@);
                        assert(name_index_from(prev, name@, 0) == Some(j as int)) by {
                            if name_index_from(prev, name@, 0) != Some(j as int) {
                                let q = name_index_from(prev, name@, 0)->0;
                                assert(names@[q]@ == name@);
                            }
                        }
                    }
                    let c = counts[j];
                    counts.set(j, c + 1);
                },
                None => {
                    proof {
                        assert(name_index_from(prev, name@, 0) is None) by {
                            if name_index_from(prev, name@, 0) is Some {
                                let q = name_index_from(prev, name@, 0)->0;
                                assert(names@[q]@ == name@);
                            }
                        }
                    }
                    names.push(name);
                    counts.push(1);
                },
            }
            i += 1;
        }
        assert(cs.take(self.commands.len() as int) =~= cs);
        let ghost nc = name_counts(cs);
        let mut parts: Vec<Vec<char>> = Vec::new();
        let mut k: usize = 0;
        while k < names.len()
            invariant
                k <= names.len() == counts.len() == nc.len(),
                parts.len() == k,
                forall|m: int|
                    0 <= m < names.len() ==> (#[trigger] nc[m]).0 == names@[m]@ && nc[m].1
                        == counts@[m] as nat,
                forall|m: int| 0 <= m < k ==> #[trigger] parts@[m]@ == count_texts(nc)[m],
            decreases names.len() - k,
        {
            let mut p = decimal_chars(counts[k]);
            p.push(' ');
            append(&mut p, &names[k]);
            proof {
                assert(p@ =~= decimal(nc[k as int].1) + " "@ + nc[k as int].0) by {
                    reveal_strlit(" ");
                }
            }
            parts.push(p);
            k += 1;
        }
        assert(views(parts@) =~= count_texts(nc));
        let sep = to_chars(", ");
        from_chars(&crate::text::join_chars(&parts, &sep))
    }
}

} // verus!
