//! Small string helpers of the roadmap command language.
use vstd::prelude::*;
use crate::text::{
    append, append_str, find, find_char_from, find_ws, find_ws_from, from_chars, is_ascii_alnum,
    ascii_lower, is_ascii_alphanumeric, lemma_find_ws_from, replace, replace_str, slice_of,
    starts_with, starts_with_str, to_ascii_lower, to_chars, to_uppercase_chars, trim, trim_chars,
    uppercase, find_str,
};

verus! {

// ---------------------------------------------------------------------
// Specs
// ---------------------------------------------------------------------

/// `s` trimmed and cut at its first whitespace into a head word and the
/// trimmed rest.
pub open spec fn split_first_word_spec(s: Seq<char>) -> (Seq<char>, Seq<char>) {
    let t = trim(s);
    match find_ws_from(t, 0) {
        Some(k) => (t.subrange(0, k), trim(t.subrange(k + 1, t.len() as int))),
        None => (t, Seq::empty()),
    }
}

/// Index of the first `"` at or after `i` that is not escaped by `\`.
pub open spec fn closing_quote_from(s: Seq<char>, i: int, escaped: bool) -> Option<int>
    decreases s.len() - i,
{
    if i < 0 || i >= s.len() {
        None
    } else if escaped {
        closing_quote_from(s, i + 1, false)
    } else if s[i] == '\\' {
        closing_quote_from(s, i + 1, true)
    } else if s[i] == '"' {
        Some(i)
    } else {
        closing_quote_from(s, i + 1, false)
    }
}

/// Index of the closing quote of `s`, which starts just after an opening quote.
pub open spec fn closing_quote(s: Seq<char>) -> Option<int> {
    closing_quote_from(s, 0, false)
}

/// Whether `s` from `i` on holds an odd number of `"` that no `\`
/// escapes.
pub open spec fn odd_quotes_from(s: Seq<char>, i: int, escaped: bool) -> bool
    decreases s.len() - i,
{
    if i < 0 || i >= s.len() {
        false
    } else if escaped {
        odd_quotes_from(s, i + 1, false)
    } else if s[i] == '\\' {
        odd_quotes_from(s, i + 1, true)
    } else if s[i] == '"' {
        !odd_quotes_from(s, i + 1, false)
    } else {
        odd_quotes_from(s, i + 1, false)
    }
}

/// The unescaped quotes of `s` do not pair up.
pub open spec fn unbalanced_quotes(s: Seq<char>) -> bool {
    odd_quotes_from(s, 0, false)
}

/// Quoted text (with `\"` unescaped) and the trimmed remainder; unquoted
/// input is split before ` AFTER `, or taken whole. An opening quote that
/// is not closed is an error.
pub open spec fn extract_quoted_spec(s: Seq<char>) -> Result<(Seq<char>, Seq<char>), Seq<char>> {
    let t = trim(s);
    if t.len() > 0 && t[0] == '"' {
        let st = t.subrange(1, t.len() as int);
        match closing_quote(st) {
            Some(end) => Ok(
                (
                    replace(st.subrange(0, end), "\\\""@, "\""@),
                    trim(st.subrange(end + 1, st.len() as int)),
                ),
            ),
            None => Err("Unclosed quote"@),
        }
    } else {
        match find(t, " AFTER "@) {
            Some(idx) => Ok((trim(t.subrange(0, idx)), trim(t.subrange(idx, t.len() as int)))),
            None => Ok((t, Seq::empty())),
        }
    }
}

/// `extract_quoted_spec`, where unbalanced quotes are an error also in
/// unquoted input: an odd number of unescaped quotes there is one that is
/// not closed.
pub open spec fn extract_quoted_text_spec(s: Seq<char>) -> Result<(Seq<char>, Seq<char>), Seq<char>> {
    let t = trim(s);
    if !(t.len() > 0 && t[0] == '"') && unbalanced_quotes(t) {
        Err("Unclosed quote"@)
    } else {
        extract_quoted_spec(s)
    }
}

/// The text of a quoted argument.
pub open spec fn parse_quoted_spec(s: Seq<char>) -> Result<Seq<char>, Seq<char>> {
    match extract_quoted_spec(s) {
        Ok((text, _)) => Ok(text),
        Err(e) => Err(e),
    }
}

/// The `AFTER target` clause that may follow a quoted text.
pub open spec fn after_clause(rest: Seq<char>) -> Option<Seq<char>> {
    if starts_with(rest, "AFTER "@) {
        Some(trim(rest.subrange("AFTER "@.len() as int, rest.len() as int)))
    } else if starts_with(rest, "after "@) {
        Some(trim(rest.subrange("after "@.len() as int, rest.len() as int)))
    } else {
        None
    }
}

/// `"text" [AFTER target]`.
pub open spec fn parse_quoted_with_after_spec(s: Seq<char>) -> Result<
    (Seq<char>, Option<Seq<char>>),
    Seq<char>,
> {
    match extract_quoted_spec(s) {
        Ok((text, rest)) => Ok((text, after_clause(rest))),
        Err(e) => Err(e),
    }
}

/// A run of quoted items separated by whitespace; `fuel` bounds the number
/// of items and is at least the length of the input.
pub open spec fn quoted_list_fuel(rest: Seq<char>, fuel: nat) -> Result<
    Seq<Seq<char>>,
    Seq<char>,
>
    decreases fuel,
{
    if rest.len() == 0 || fuel == 0 {
        Ok(Seq::empty())
    } else if rest[0] != '"' {
        Err("Expected a quoted item"@)
    } else {
        match extract_quoted_spec(rest) {
            Err(e) => Err(e),
            Ok((item, r2)) => match quoted_list_fuel(r2, (fuel - 1) as nat) {
                Ok(items) => Ok(seq![item] + items),
                Err(e) => Err(e),
            },
        }
    }
}

/// The quoted items of a `CHAIN` command.
pub open spec fn quoted_list_spec(s: Seq<char>) -> Result<Seq<Seq<char>>, Seq<char>> {
    quoted_list_fuel(trim(s), s.len())
}

/// An upper-cased line that is framing: a separator, a fence, a protocol
/// marker, or the word `ROADMAP` or `END` alone.
pub open spec fn is_ignorable_upper_spec(u: Seq<char>) -> bool {
    ||| starts_with(u, "==="@)
    ||| starts_with(u, "---"@)
    ||| starts_with(u, "```"@)
    ||| starts_with(u, "#__WARDEN_"@)
    ||| u == "ROADMAP"@
    ||| u == "END"@
}

/// Lines that are framing rather than commands: judged on their
/// upper-case form.
pub open spec fn is_ignorable_spec(line: Seq<char>) -> bool {
    is_ignorable_upper_spec(uppercase(line))
}

/// At most `max` characters of `s`, with `...` appended when it was cut.
pub open spec fn truncate_spec(s: Seq<char>, max: nat) -> Seq<char> {
    if s.len() <= max {
        s
    } else {
        s.take(max as int) + "..."@
    }
}

/// Slug of `s` from index `i` on, given the slug `acc` built so far and
/// whether a separator is pending.
pub open spec fn slug_from(s: Seq<char>, i: int, acc: Seq<char>, pending: bool) -> Seq<char>
    decreases s.len() - i,
{
    if i < 0 || i >= s.len() {
        acc
    } else if is_ascii_alnum(s[i]) {
        let acc2 = if pending && acc.len() > 0 {
            acc.push('-')
        } else {
            acc
        };
        slug_from(s, i + 1, acc2.push(ascii_lower(s[i])), false)
    } else {
        slug_from(s, i + 1, acc, true)
    }
}

/// Slug of `s`: its ASCII letters and digits, lower-cased, with every run
/// of other characters between them turned into a single `-`.
pub open spec fn slugify_spec(s: Seq<char>) -> Seq<char> {
    slug_from(s, 0, Seq::empty(), false)
}

/// A lower-case ASCII letter or a digit.
pub open spec fn is_slug_char(c: char) -> bool {
    ('a' <= c <= 'z') || ('0' <= c <= '9')
}

/// A slug: lower-case letters and digits, where each `-` stands between
/// two of them.
pub open spec fn is_slug(w: Seq<char>) -> bool {
    forall|k: int|
        0 <= k < w.len() ==> is_slug_char(#[trigger] w[k]) || (w[k] == '-' && 0 < k < w.len() - 1
            && is_slug_char(w[k - 1]) && is_slug_char(w[k + 1]))
}

proof fn lemma_lower_alnum(c: char)
    requires
        is_ascii_alnum(c),
    ensures
        is_slug_char(ascii_lower(c)),
        is_slug_char(c) ==> ascii_lower(c) == c,
{
}

/// What `slug_from` builds is a slug, when it starts from one.
proof fn lemma_slug_from_is_slug(s: Seq<char>, i: int, acc: Seq<char>, pending: bool)
    requires
        0 <= i,
        is_slug(acc),
    ensures
        is_slug(slug_from(s, i, acc, pending)),
    decreases s.len() - i,
{
    if i < s.len() {
        if is_ascii_alnum(s[i]) {
            lemma_lower_alnum(s[i]);
            let acc2 = if pending && acc.len() > 0 {
                acc.push('-')
            } else {
                acc
            };
            let acc3 = acc2.push(ascii_lower(s[i]));
            assert(acc.len() > 0 ==> is_slug_char(acc.last())) by {
                if acc.len() > 0 {
                    assert(is_slug_char(acc[acc.len() - 1]) || acc[acc.len() - 1] == '-');
                }
            }
            assert forall|k: int| 0 <= k < acc3.len() implies is_slug_char(#[trigger] acc3[k]) || (
            acc3[k] == '-' && 0 < k < acc3.len() - 1 && is_slug_char(acc3[k - 1]) && is_slug_char(
                acc3[k + 1],
            )) by {
                if k < acc.len() {
                    assert(acc3[k] == acc[k]);
                    if !is_slug_char(acc[k]) {
                        assert(acc3[k + 1] == acc[k + 1]);
                        assert(acc3[k - 1] == acc[k - 1]);
                    }
                }
            }
            lemma_slug_from_is_slug(s, i + 1, acc3, false);
        } else {
            lemma_slug_from_is_slug(s, i + 1, acc, true);
        }
    }
}

/// `slug_from` over a slug, from a point where it has kept all of it so
/// far, gives the slug back.
proof fn lemma_slug_fixed(w: Seq<char>, i: int, pending: bool)
    requires
        is_slug(w),
        0 <= i <= w.len(),
        !pending ==> (i == 0 || is_slug_char(w[i - 1])),
        pending ==> i >= 2 && w[i - 1] == '-',
    ensures
        slug_from(w, i, if pending { w.take(i - 1) } else { w.take(i) }, pending) == w,
    decreases w.len() - i,
{
    if i == w.len() {
        if pending {
            assert(is_slug_char(w[i - 1]) || (w[i - 1] == '-' && i - 1 < w.len() - 1));
        }
        assert(w.take(i) =~= w);
    } else if is_slug_char(w[i]) {
        lemma_lower_alnum(w[i]);
        if pending {
            assert(w.take(i - 1).push('-') =~= w.take(i));
        }
        assert(w.take(i).push(w[i]) =~= w.take(i + 1));
        lemma_slug_fixed(w, i + 1, false);
    } else {
        assert(w[i] == '-' && 0 < i < w.len() - 1 && is_slug_char(w[i - 1]));
        if pending {
            assert(is_slug_char(w[i - 1]) || (w[i - 1] == '-' && is_slug_char(w[i - 2])
                && is_slug_char(w[i])));
        }
        lemma_slug_fixed(w, i + 1, true);
    }
}

/// Slugging a slug changes nothing.
pub proof fn law_slugify_idempotent(s: Seq<char>)
    ensures
        slugify_spec(slugify_spec(s)) == slugify_spec(s),
{
    lemma_slug_from_is_slug(s, 0, Seq::empty(), false);
    let w = slugify_spec(s);
    lemma_slug_fixed(w, 0, false);
    assert(w.take(0) =~= Seq::<char>::empty());
}

// ---------------------------------------------------------------------
// Executable helpers
// ---------------------------------------------------------------------

/// `split_first_word` on characters.
pub fn split_first_word_chars(v: &Vec<char>) -> (r: (Vec<char>, Vec<char>))
    ensures
        (r.0@, r.1@) == split_first_word_spec(v@),
{
    let t = trim_chars(v);
    match find_ws(&t, 0) {
        Some(k) => {
            proof {
                lemma_find_ws_from(t@, 0);
            }
            let head = slice_of(&t, 0, k);
            let tail = slice_of(&t, k + 1, t.len());
            (head, trim_chars(&tail))
        },
        None => (t, Vec::new()),
    }
}

/// Splits off the first whitespace-delimited word; both parts are trimmed.
pub fn split_first_word(s: &str) -> (r: (String, String))
    ensures
        (r.0@, r.1@) == split_first_word_spec(s@),
{
    let v = to_chars(s);
    let (h, t) = split_first_word_chars(&v);
    (from_chars(&h), from_chars(&t))
}

/// Position of the closing quote of `s`.
fn find_closing_quote(s: &Vec<char>) -> (r: Option<usize>)
    ensures
        match r {
            Some(i) => closing_quote(s@) == Some(i as int),
            None => closing_quote(s@) is None,
        },
{
    let mut escaped = false;
    let mut i: usize = 0;
    while i < s.len()
        invariant
            i <= s.len(),
            closing_quote(s@) == closing_quote_from(s@, i as int, escaped),
        decreases s.len() - i,
    {
        let c = s[i];
        if escaped {
            escaped = false;
        } else if c == '\\' {
            escaped = true;
        } else if c == '"' {
            return Some(i);
        }
        i += 1;
    }
    None
}

/// Whether the unescaped quotes of `s` do not pair up.
fn has_unbalanced_quotes(s: &Vec<char>) -> (r: bool)
    ensures
        r == unbalanced_quotes(s@),
{
    let mut i: usize = s.len();
    // Walk from the end, keeping the parity from `i` on for both escape
    // states that `i` may be reached in.
    let mut odd_plain = false;
    let mut odd_esc = false;
    while i > 0
        invariant
            i <= s.len(),
            odd_plain == odd_quotes_from(s@, i as int, false),
            odd_esc == odd_quotes_from(s@, i as int, true),
        decreases i,
    {
        let j = i - 1;
        let c = s[j];
        let np = if c == '\\' {
            odd_esc
        } else if c == '"' {
            !odd_plain
        } else {
            odd_plain
        };
        let ne = odd_plain;
        odd_plain = np;
        odd_esc = ne;
        i = j;
    }
    odd_plain
}

/// `closing_quote_from` returns an index in range.
proof fn lemma_closing_quote_range(s: Seq<char>, i: int, escaped: bool)
    requires
        0 <= i,
    ensures
        closing_quote_from(s, i, escaped) matches Some(k) ==> i <= k < s.len() && s[k] == '"',
    decreases s.len() - i,
{
    if 0 <= i < s.len() {
        if escaped {
            lemma_closing_quote_range(s, i + 1, false);
        } else if s[i] == '\\' {
            lemma_closing_quote_range(s, i + 1, true);
        } else if s[i] != '"' {
            lemma_closing_quote_range(s, i + 1, false);
        }
    }
}

/// `extract_quoted_spec` on characters.
pub fn extract_quoted_chars(s: &Vec<char>) -> (r: Result<(Vec<char>, Vec<char>), String>)
    ensures
        match extract_quoted_spec(s@) {
            Ok((a, b)) => r matches Ok((x, y)) && x@ == a && y@ == b,
            Err(e) => r matches Err(m) && m@ == e,
        },
{
    let t = trim_chars(s);
    if t.len() > 0 && t[0] == '"' {
        let st = slice_of(&t, 1, t.len());
        match find_closing_quote(&st) {
            Some(end) => {
                proof {
                    lemma_closing_quote_range(st@, 0, false);
                }
                let body = slice_of(&st, 0, end);
                proof {
                    reveal_strlit("\\\"");
                }
                let content = replace_str(&body, "\\\"", "\"");
                let rest = slice_of(&st, end + 1, st.len());
                Ok((content, trim_chars(&rest)))
            },
            None => Err(from_chars(&to_chars("Unclosed quote"))),
        }
    } else {
        match find_str(&t, " AFTER ") {
            Some(idx) => {
                proof {
                    crate::text::lemma_find_from(t@, " AFTER "@, 0);
                }
                let a = slice_of(&t, 0, idx);
                let b = slice_of(&t, idx, t.len());
                Ok((trim_chars(&a), trim_chars(&b)))
            },
            None => Ok((t, Vec::new())),
        }
    }
}

/// Parses a quoted string or returns the string as is.
///
/// Fails when an opening quote is not closed.
pub fn parse_quoted(s: &str) -> (r: Result<String, String>)
    ensures
        match parse_quoted_spec(s@) {
            Ok(t) => r matches Ok(x) && x@ == t,
            Err(e) => r matches Err(m) && m@ == e,
        },
{
    let v = to_chars(s);
    match extract_quoted_chars(&v) {
        Ok((text, _)) => Ok(from_chars(&text)),
        Err(e) => Err(e),
    }
}

/// `parse_quoted` on characters.
pub fn parse_quoted_chars(v: &Vec<char>) -> (r: Result<Vec<char>, String>)
    ensures
        match parse_quoted_spec(v@) {
            Ok(t) => r matches Ok(x) && x@ == t,
            Err(e) => r matches Err(m) && m@ == e,
        },
{
    match extract_quoted_chars(v) {
        Ok((text, _)) => Ok(text),
        Err(e) => Err(e),
    }
}

/// The `AFTER target` clause of `rest`.
fn after_clause_chars(rest: &Vec<char>) -> (r: Option<Vec<char>>)
    ensures
        match after_clause(rest@) {
            Some(a) => r matches Some(x) && x@ == a,
            None => r is None,
        },
{
    if starts_with_str(rest, "AFTER ") {
        let n = to_chars("AFTER ").len();
        let tail = slice_of(rest, n, rest.len());
        Some(trim_chars(&tail))
    } else if starts_with_str(rest, "after ") {
        let n = to_chars("after ").len();
        let tail = slice_of(rest, n, rest.len());
        Some(trim_chars(&tail))
    } else {
        None
    }
}

/// `parse_quoted_with_after` on characters.
pub fn parse_quoted_with_after_chars(v: &Vec<char>) -> (r: Result<
    (Vec<char>, Option<Vec<char>>),
    String,
>)
    ensures
        match parse_quoted_with_after_spec(v@) {
            Ok((t, a)) => r matches Ok((x, y)) && x@ == t && match a {
                Some(av) => y matches Some(yv) && yv@ == av,
                None => y is None,
            },
            Err(e) => r matches Err(m) && m@ == e,
        },
{
    match extract_quoted_chars(v) {
        Ok((text, rest)) => Ok((text, after_clause_chars(&rest))),
        Err(e) => Err(e),
    }
}

/// Parses `"text" [AFTER target]`.
///
/// Fails when the quoting of the text is invalid.
pub fn parse_quoted_with_after(s: &str) -> (r: Result<(String, Option<String>), String>)
    ensures
        match parse_quoted_with_after_spec(s@) {
            Ok((t, a)) => r matches Ok((x, y)) && x@ == t && match a {
                Some(av) => y matches Some(yv) && yv@ == av,
                None => y is None,
            },
            Err(e) => r matches Err(m) && m@ == e,
        },
{
    let v = to_chars(s);
    match parse_quoted_with_after_chars(&v) {
        Ok((text, after)) => {
            let a = match after {
                Some(x) => Some(from_chars(&x)),
                None => None,
            };
            Ok((from_chars(&text), a))
        },
        Err(e) => Err(e),
    }
}

/// Extracts quoted text and returns the remainder of the string; `\"`
/// inside the quotes stands for `"`.
///
/// Fails when the quotes are unbalanced.
pub fn extract_quoted_text(s: &str) -> (r: Result<(String, String), String>)
    ensures
        match extract_quoted_text_spec(s@) {
            Ok((a, b)) => r matches Ok((x, y)) && x@ == a && y@ == b,
            Err(e) => r matches Err(m) && m@ == e,
        },
{
    let v = to_chars(s);
    let t = trim_chars(&v);
    if !(t.len() > 0 && t[0] == '"') && has_unbalanced_quotes(&t) {
        return Err(from_chars(&to_chars("Unclosed quote")));
    }
    match extract_quoted_chars(&v) {
        Ok((a, b)) => Ok((from_chars(&a), from_chars(&b))),
        Err(e) => Err(e),
    }
}

/// Items of a quoted list, with at most `fuel` items.
fn quoted_list_chars(rest: &Vec<char>, fuel: usize) -> (r: Result<Vec<Vec<char>>, String>)
    ensures
        match quoted_list_fuel(rest@, fuel as nat) {
            Ok(items) => r matches Ok(x) && crate::text::views(x@) == items,
            Err(e) => r matches Err(m) && m@ == e,
        },
    decreases fuel,
{
    if rest.len() == 0 || fuel == 0 {
        return Ok(Vec::new());
    }
    if rest[0] != '"' {
        return Err(from_chars(&to_chars("Expected a quoted item")));
    }
    match extract_quoted_chars(rest) {
        Err(e) => Err(e),
        Ok((item, r2)) => match quoted_list_chars(&r2, fuel - 1) {
            Ok(items) => {
                let mut out: Vec<Vec<char>> = Vec::new();
                out.push(item);
                let ghost first = out@;
                let mut tail = items;
                out.append(&mut tail);
                assert(crate::text::views(out@) =~= seq![crate::text::views(first)[0]]
                    + crate::text::views(items@));
                Ok(out)
            },
            Err(e) => Err(e),
        },
    }
}

/// Parses whitespace-separated quoted items, as the `CHAIN` command lists them.
///
/// Fails when an item is not quoted or its quotes are unbalanced.
pub fn parse_quoted_list(s: &str) -> (r: Result<Vec<String>, String>)
    ensures
        match quoted_list_spec(s@) {
            Ok(items) => r matches Ok(x) && crate::roadmap::types::string_views(x@) == items,
            Err(e) => r matches Err(m) && m@ == e,
        },
{
    let v = to_chars(s);
    let t = trim_chars(&v);
    match quoted_list_chars(&t, v.len()) {
        Ok(items) => {
            let mut out: Vec<String> = Vec::new();
            let mut i: usize = 0;
            while i < items.len()
                invariant
                    i <= items.len(),
                    out.len() == i,
                    forall|k: int| 0 <= k < i ==> #[trigger] out@[k]@ == items@[k]@,
                decreases items.len() - i,
            {
                out.push(from_chars(&items[i]));
                i += 1;
            }
            assert(crate::roadmap::types::string_views(out@) =~= crate::text::views(items@));
            Ok(out)
        },
        Err(e) => Err(e),
    }
}

/// Whether a line is framing (separators, fences, protocol markers) rather
/// than a command.
pub fn is_ignorable(line: &str) -> (r: bool)
    ensures
        r == is_ignorable_spec(line@),
{
    let v = to_chars(line);
    is_ignorable_chars(&v)
}

/// `is_ignorable` on characters.
pub fn is_ignorable_chars(v: &Vec<char>) -> (r: bool)
    ensures
        r == is_ignorable_spec(v@),
{
    let u = to_uppercase_chars(v);
    is_ignorable_upper_chars(&u)
}

/// Whether an already upper-cased line is framing.
pub fn is_ignorable_upper(u: &str) -> (r: bool)
    ensures
        r == is_ignorable_upper_spec(u@),
{
    let v = to_chars(u);
    is_ignorable_upper_chars(&v)
}

/// `is_ignorable_upper` on characters.
pub fn is_ignorable_upper_chars(u: &Vec<char>) -> (r: bool)
    ensures
        r == is_ignorable_upper_spec(u@),
{
    starts_with_str(u, "===") || starts_with_str(u, "---") || starts_with_str(u, "```")
        || starts_with_str(u, "#__WARDEN_") || crate::text::eq_str(u, "ROADMAP")
        || crate::text::eq_str(u, "END")
}

/// `truncate` on characters.
pub fn truncate_chars(v: &Vec<char>, max_chars: usize) -> (r: Vec<char>)
    ensures
        r@ == truncate_spec(v@, max_chars as nat),
{
    if v.len() <= max_chars {
        crate::text::copy(v)
    } else {
        let mut t = slice_of(v, 0, max_chars);
        append_str(&mut t, "...");
        t
    }
}

/// At most `max_chars` characters of `s`, followed by `...` when cut.
pub fn truncate(s: &str, max_chars: usize) -> (r: String)
    ensures
        r@ == truncate_spec(s@, max_chars as nat),
{
    let v = to_chars(s);
    from_chars(&truncate_chars(&v, max_chars))
}

/// `slugify` on characters.
pub fn slugify_chars(v: &Vec<char>) -> (r: Vec<char>)
    ensures
        r@ == slugify_spec(v@),
{
    let mut acc: Vec<char> = Vec::new();
    let mut pending = false;
    let mut i: usize = 0;
    while i < v.len()
        invariant
            i <= v.len(),
            slugify_spec(v@) == slug_from(v@, i as int, acc@, pending),
        decreases v.len() - i,
    {
        let c = v[i];
        if is_ascii_alphanumeric(c) {
            if pending && acc.len() > 0 {
                acc.push('-');
            }
            acc.push(to_ascii_lower(c));
            pending = false;
        } else {
            pending = true;
        }
        i += 1;
    }
    acc
}

/// Identifier of a heading or task text: its ASCII letters and digits,
/// lower-cased, joined by single `-` where other characters stood.
pub fn slugify(s: &str) -> (r: String)
    ensures
        r@ == slugify_spec(s@),
{
    let v = to_chars(s);
    from_chars(&slugify_chars(&v))
}

} // verus!
