//! Printing a command and parsing the printed line gives the command back.
use vstd::prelude::*;
use crate::roadmap::cmd_parser::{parse_by_type_spec, parse_line_spec, split_cmd_spec};
use crate::roadmap::str_utils::{
    closing_quote, closing_quote_from, extract_quoted_spec, parse_quoted_spec,
    split_first_word_spec,
};
use crate::roadmap::types::{command_text, quoted, CommandView};
use crate::text::{
    find_char_from, find_ws_from, is_ws, lemma_find_char_from, lemma_find_ws_from, lemma_skip_ws,
    lemma_trail_ws, occurs_at, replace, replace_from, skip_ws_from, trail_ws_from, trim, trim_end,
    trim_start,
};

verus! {

/// A word of the command language: not empty, no whitespace.
pub open spec fn plain_word(p: Seq<char>) -> bool {
    p.len() > 0 && forall|k: int| 0 <= k < p.len() ==> !is_ws(#[trigger] p[k])
}

/// Text that a quoted argument carries as it is: no `"` and no `\`.
pub open spec fn plain_text(t: Seq<char>) -> bool {
    forall|k: int| 0 <= k < t.len() ==> #[trigger] t[k] != '"' && t[k] != '\\'
}

/// A text whose ends are not whitespace is its own trim.
pub proof fn lemma_trim_fixed(s: Seq<char>)
    requires
        s.len() > 0 ==> !is_ws(s[0]) && !is_ws(s.last()),
    ensures
        trim(s) == s,
{
    if s.len() > 0 {
        assert(skip_ws_from(s, 0) == 0);
        assert(s.subrange(0, s.len() as int) =~= s);
        assert(trim_start(s) == s);
        assert(trail_ws_from(s, s.len() as int) == s.len());
        assert(trim_end(s) == s);
    } else {
        assert(skip_ws_from(s, 0) == 0);
        assert(trim_start(s) =~= s);
        assert(trail_ws_from(s, 0) == 0);
        assert(trim_end(s) =~= s);
    }
}

proof fn lemma_closing_quote_plain(t: Seq<char>, i: int)
    requires
        plain_text(t),
        0 <= i <= t.len(),
    ensures
        closing_quote_from(t.push('"'), i, false) == Some(t.len() as int),
    decreases t.len() - i,
{
    let s = t.push('"');
    if i < t.len() {
        assert(s[i] == t[i]);
        lemma_closing_quote_plain(t, i + 1);
    } else {
        assert(s[i] == '"');
    }
}

proof fn lemma_replace_plain(t: Seq<char>, to: Seq<char>, i: int)
    requires
        plain_text(t),
        0 <= i <= t.len(),
        "\\\""@.len() == 2,
        "\\\""@[0] == '\\',
    ensures
        replace_from(t, "\\\""@, to, i) == t.subrange(i, t.len() as int),
    decreases t.len() - i,
{
    if i < t.len() {
        assert(!occurs_at(t, "\\\""@, i)) by {
            if occurs_at(t, "\\\""@, i) {
                assert(t.subrange(i, i + 2)[0] == t[i]);
            }
        }
        lemma_replace_plain(t, to, i + 1);
        assert(t.subrange(i, t.len() as int) =~= seq![t[i]] + t.subrange(i + 1, t.len() as int));
    } else {
        assert(t.subrange(i, t.len() as int) =~= Seq::<char>::empty());
    }
}

/// The quoted form of a plain text parses back to the text.
pub proof fn law_quoted_roundtrip(t: Seq<char>)
    requires
        plain_text(t),
    ensures
        extract_quoted_spec(quoted(t)) == Ok::<(Seq<char>, Seq<char>), Seq<char>>(
            (t, Seq::<char>::empty()),
        ),
        parse_quoted_spec(quoted(t)) == Ok::<Seq<char>, Seq<char>>(t),
{
    reveal_strlit("\\\"");
    let q = quoted(t);
    assert(q[0] == '"');
    assert(q.last() == '"');
    assert(!is_ws('"')) by {
        assert(('"' as u32) == 34);
    }
    lemma_trim_fixed(q);
    let st = q.subrange(1, q.len() as int);
    assert(st =~= t.push('"'));
    lemma_closing_quote_plain(t, 0);
    assert(closing_quote(st) == Some(t.len() as int));
    assert(st.subrange(0, t.len() as int) =~= t);
    lemma_replace_plain(t, "\""@, 0);
    assert(t.subrange(0, t.len() as int) =~= t);
    let rest = st.subrange(t.len() as int + 1, st.len() as int);
    assert(rest =~= Seq::<char>::empty());
    lemma_trim_fixed(rest);
}

/// `line` is `kw + " " + args` for a keyword without spaces.
proof fn lemma_split_keyword(kw: Seq<char>, args: Seq<char>)
    requires
        kw.len() > 0,
        forall|k: int| 0 <= k < kw.len() ==> #[trigger] kw[k] != ' ',
    ensures
        split_cmd_spec(kw + " "@ + args) == Some((kw, args)),
{
    reveal_strlit(" ");
    let line = kw + " "@ + args;
    lemma_find_char_from(line, ' ', 0);
    assert(line[kw.len() as int] == ' ');
    match find_char_from(line, ' ', 0) {
        Some(k) => {
            if k < kw.len() {
                assert(line[k] == kw[k]);
            }
            assert(k == kw.len());
        },
        None => {
            assert(false);
        },
    }
    assert(line.subrange(0, kw.len() as int) =~= kw);
    assert(line.subrange(kw.len() as int + 1, line.len() as int) =~= args);
}

/// A `CHECK`, `UNCHECK` or `DELETE` command with a plain path prints as a
/// line that parses back to the same command.
pub proof fn law_basic_command_roundtrip(c: CommandView)
    requires
        c matches CommandView::Check { path } ==> plain_word(path),
        c matches CommandView::Uncheck { path } ==> plain_word(path),
        c matches CommandView::Delete { path } ==> plain_word(path),
        c is Check || c is Uncheck || c is Delete,
    ensures
        parse_line_spec(command_text(c)) == Ok::<CommandView, Seq<char>>(c),
{
    reveal_strlit("CHECK ");
    reveal_strlit("CHECK");
    reveal_strlit("UNCHECK ");
    reveal_strlit("UNCHECK");
    reveal_strlit("DELETE ");
    reveal_strlit("DELETE");
    reveal_strlit(" ");
    let (kw, path) = match c {
        CommandView::Check { path } => ("CHECK"@, path),
        CommandView::Uncheck { path } => ("UNCHECK"@, path),
        CommandView::Delete { path } => ("DELETE"@, path),
        _ => ("CHECK"@, Seq::empty()),
    };
    assert(command_text(c) =~= kw + " "@ + path);
    lemma_split_keyword(kw, path);
    lemma_trim_fixed(path);
    assert(parse_line_spec(command_text(c)) == parse_by_type_spec(kw, path));
}

/// `p + " " + q` splits at its first whitespace into `p` and `q`.
proof fn lemma_first_word(p: Seq<char>, q: Seq<char>)
    requires
        plain_word(p),
        q.len() > 0 ==> !is_ws(q[0]) && !is_ws(q.last()),
    ensures
        split_first_word_spec(p + " "@ + q) == (p, q),
{
    reveal_strlit(" ");
    let a = p + " "@ + q;
    assert(a[0] == p[0]);
    assert(a.last() == if q.len() > 0 { q.last() } else { ' ' });
    assert(is_ws(' ')) by {
        assert((' ' as u32) == 32);
    }
    if q.len() == 0 {
        // the trim cuts the trailing space
        assert(trim_start(a) =~= a) by {
            assert(skip_ws_from(a, 0) == 0);
        }
        assert(trail_ws_from(a, a.len() as int) == p.len()) by {
            assert(a[a.len() - 1] == ' ');
            assert(trail_ws_from(a, a.len() - 1) == p.len()) by {
                assert(a[a.len() - 2] == p.last());
            }
        }
        assert(trim(a) =~= p);
        lemma_find_ws_from(p, 0);
        assert(find_ws_from(p, 0) is None);
    } else {
        lemma_trim_fixed(a);
        lemma_find_ws_from(a, 0);
        assert(a[p.len() as int] == ' ');
        match find_ws_from(a, 0) {
            Some(k) => {
                if k < p.len() {
                    assert(a[k] == p[k]);
                }
                assert(k == p.len());
            },
            None => {
                assert(false);
            },
        }
        assert(a.subrange(0, p.len() as int) =~= p);
        assert(a.subrange(p.len() as int + 1, a.len() as int) =~= q);
        lemma_trim_fixed(q);
    }
}

/// An `UPDATE` or `NOTE` command with a plain path and a plain text prints
/// as a line that parses back to the same command; so does an `ADD`
/// without an `AFTER` target.
pub proof fn law_content_command_roundtrip(c: CommandView)
    requires
        c matches CommandView::Update { path, text } ==> plain_word(path) && plain_text(text),
        c matches CommandView::Note { path, note } ==> plain_word(path) && plain_text(note),
        c matches CommandView::Add { parent, text, after } ==> plain_word(parent) && plain_text(
            text,
        ) && after is None,
        c is Update || c is Note || c is Add,
    ensures
        parse_line_spec(command_text(c)) == Ok::<CommandView, Seq<char>>(c),
{
    reveal_strlit("UPDATE ");
    reveal_strlit("UPDATE");
    reveal_strlit("NOTE ");
    reveal_strlit("NOTE");
    reveal_strlit("ADD ");
    reveal_strlit("ADD");
    reveal_strlit("CHECK");
    reveal_strlit("UNCHECK");
    reveal_strlit("DELETE");
    reveal_strlit(" ");
    reveal_strlit("AFTER ");
    reveal_strlit("after ");
    let (kw, p, t) = match c {
        CommandView::Update { path, text } => ("UPDATE"@, path, text),
        CommandView::Note { path, note } => ("NOTE"@, path, note),
        CommandView::Add { parent, text, .. } => ("ADD"@, parent, text),
        _ => ("ADD"@, Seq::empty(), Seq::empty()),
    };
    let q = quoted(t);
    assert(command_text(c) =~= kw + " "@ + (p + " "@ + q));
    lemma_split_keyword(kw, p + " "@ + q);
    assert(q[0] == '"' && q.last() == '"');
    assert(!is_ws('"')) by {
        assert(('"' as u32) == 34);
    }
    lemma_first_word(p, q);
    law_quoted_roundtrip(t);
    assert(parse_line_spec(command_text(c)) == parse_by_type_spec(kw, p + " "@ + q));
}

/// A `SECTION` command with a plain, non-empty heading prints as a line
/// that parses back to the same command.
pub proof fn law_section_command_roundtrip(heading: Seq<char>)
    requires
        heading.len() > 0,
        plain_text(heading),
    ensures
        parse_line_spec(command_text(CommandView::AddSection { heading })) == Ok::<
            CommandView,
            Seq<char>,
        >(CommandView::AddSection { heading }),
{
    reveal_strlit("SECTION ");
    reveal_strlit("SECTION");
    reveal_strlit("CHECK");
    reveal_strlit("UNCHECK");
    reveal_strlit("DELETE");
    reveal_strlit("ADD");
    reveal_strlit("UPDATE");
    reveal_strlit("NOTE");
    reveal_strlit("MOVE");
    reveal_strlit(" ");
    let c = CommandView::AddSection { heading };
    let q = quoted(heading);
    assert(command_text(c) =~= "SECTION"@ + " "@ + q);
    lemma_split_keyword("SECTION"@, q);
    law_quoted_roundtrip(heading);
    assert(parse_line_spec(command_text(c)) == parse_by_type_spec("SECTION"@, q));
}

} // verus!
