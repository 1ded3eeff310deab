//! Reading the manifest block of a reply: the files it will touch and how.
use vstd::prelude::*;
use crate::apply::types::{ManifestEntry, Operation};
use crate::pattern::{regex_compiles, regex_error_text, regex_find_at, replace_first, Pattern};
use crate::text::{
    contains, contains_str, copy, from_chars, lines, replace, replace_str, slice_of, split_lines,
    split_words, to_chars, to_uppercase_chars, trim, trim_chars, uppercase, views, words,
};

verus! {

// ---------------------------------------------------------------------
// Model
// ---------------------------------------------------------------------

/// Opening marker of a manifest block.
pub open spec fn warden_open() -> Seq<char> {
    "#__WARDEN_MANIFEST__#"@
}

/// Closing marker of a manifest block.
pub open spec fn warden_close() -> Seq<char> {
    "#__WARDEN_END__#"@
}

/// Opening tag of a legacy manifest.
pub open spec fn legacy_open() -> Seq<char> {
    "(?i)<delivery>"@
}

/// Closing tag of a legacy manifest.
pub open spec fn legacy_close() -> Seq<char> {
    "(?i)</delivery>"@
}

/// The list marker (`-`, `*` or `1.`) at the start of a manifest line.
pub open spec fn list_marker() -> Seq<char> {
    "^\\s*(?:[-*]|\\d+\\.)\\s+"@
}

/// The span between the markers: after the first opening marker, up to the
/// first closing marker after it.
pub open spec fn warden_span(r: Seq<char>) -> Option<(int, int)> {
    match regex_find_at(warden_open(), r, 0) {
        None => None,
        Some((_, e1)) => match regex_find_at(warden_close(), r, e1) {
            None => None,
            Some((s2, _)) => Some((e1, s2)),
        },
    }
}

/// The span between the first legacy opening tag and the first legacy
/// closing tag after it.
pub open spec fn legacy_span(r: Seq<char>) -> Option<(int, int)> {
    match regex_find_at(legacy_open(), r, 0) {
        None => None,
        Some((_, e1)) => match regex_find_at(legacy_close(), r, e1) {
            None => None,
            Some((s2, _)) => Some((e1, s2)),
        },
    }
}

/// A manifest line split into path text and operation: `[NEW]` or
/// `[DELETE]` anywhere (in any case) sets the operation, and its upper- or
/// lower-case form is taken out.
pub open spec fn operation_of(line: Seq<char>) -> (Seq<char>, Operation) {
    operation_given(line, uppercase(line))
}

/// `operation_of`, given the upper-case form `upper` of the line.
pub open spec fn operation_given(line: Seq<char>, upper: Seq<char>) -> (Seq<char>, Operation) {
    if contains(upper, "[NEW]"@) {
        (replace(replace(line, "[NEW]"@, Seq::empty()), "[new]"@, Seq::empty()), Operation::New)
    } else if contains(upper, "[DELETE]"@) {
        (
            replace(replace(line, "[DELETE]"@, Seq::empty()), "[delete]"@, Seq::empty()),
            Operation::Delete,
        )
    } else {
        (line, Operation::Update)
    }
}

/// The path: the first word, or the whole text when it has none.
pub open spec fn clean_path(raw: Seq<char>) -> Seq<char> {
    if words(raw).len() > 0 {
        words(raw)[0]
    } else {
        raw
    }
}

/// The entry of one manifest line, if it has one.
pub open spec fn line_entry(line: Seq<char>) -> Option<(Seq<char>, Operation)> {
    let t = trim(line);
    if t.len() == 0 {
        None
    } else {
        let clean = replace_first(list_marker(), t, Seq::empty());
        entry_given(clean, uppercase(clean))
    }
}

/// The entry of a manifest line whose list marker is gone (`clean`), given
/// the upper-case form `upper` of that text: none when it is blank or has
/// no path.
pub open spec fn entry_given(clean: Seq<char>, upper: Seq<char>) -> Option<(Seq<char>, Operation)> {
    if trim(clean).len() == 0 {
        None
    } else {
        let (raw, op) = operation_given(clean, upper);
        let p = clean_path(raw);
        if p.len() == 0 {
            None
        } else {
            Some((p, op))
        }
    }
}

/// The entries of the lines `ls`, in order.
pub open spec fn block_entries(ls: Seq<Seq<char>>) -> Seq<(Seq<char>, Operation)>
    decreases ls.len(),
{
    if ls.len() == 0 {
        Seq::empty()
    } else {
        block_entries(ls.drop_last()) + match line_entry(ls.last()) {
            Some(e) => seq![e],
            None => Seq::empty(),
        }
    }
}

/// What `parse_manifest` gives for reply `r`: an error when one of its
/// patterns does not compile; else the entries of the manifest block, or
/// of the legacy block when there is none; `None` without either.
pub open spec fn manifest_spec(r: Seq<char>) -> Result<Option<Seq<(Seq<char>, Operation)>>, Seq<char>> {
    if !regex_compiles(warden_open()) {
        Err(regex_error_text(warden_open()))
    } else if !regex_compiles(warden_close()) {
        Err(regex_error_text(warden_close()))
    } else {
        match warden_span(r) {
            Some((a, b)) => block_result(r.subrange(a, b)),
            None => if !regex_compiles(legacy_open()) {
                Err(regex_error_text(legacy_open()))
            } else if !regex_compiles(legacy_close()) {
                Err(regex_error_text(legacy_close()))
            } else {
                match legacy_span(r) {
                    Some((a, b)) => block_result(r.subrange(a, b)),
                    None => Ok(None),
                }
            },
        }
    }
}

/// The entries of a block, or the error of the list-marker pattern.
pub open spec fn block_result(block: Seq<char>) -> Result<Option<Seq<(Seq<char>, Operation)>>, Seq<char>> {
    if !regex_compiles(list_marker()) {
        Err(regex_error_text(list_marker()))
    } else {
        Ok(Some(block_entries(lines(block))))
    }
}

/// The entries of a manifest, as values.
pub open spec fn entries_view(v: Seq<ManifestEntry>) -> Seq<(Seq<char>, Operation)> {
    v.map_values(|e: ManifestEntry| (e.path@, e.operation))
}

/// `r` is what the model `m` says.
pub open spec fn manifest_result_is(
    r: Result<Option<Vec<ManifestEntry>>, String>,
    m: Result<Option<Seq<(Seq<char>, Operation)>>, Seq<char>>,
) -> bool {
    match m {
        Err(e) => r matches Err(s) && s@ == e,
        Ok(None) => r matches Ok(None),
        Ok(Some(es)) => r matches Ok(Some(v)) && entries_view(v@) == es,
    }
}

// ---------------------------------------------------------------------
// Executable
// ---------------------------------------------------------------------

fn operation_from_upper(line: &Vec<char>, upper: &Vec<char>) -> (r: (Vec<char>, Operation))
    ensures
        (r.0@, r.1) == operation_given(line@, upper@),
{
    proof {
        reveal_strlit("[NEW]");
        reveal_strlit("[new]");
        reveal_strlit("[DELETE]");
        reveal_strlit("[delete]");
        reveal_strlit("");
        assert(""@ =~= Seq::<char>::empty());
    }
    if contains_str(upper, "[NEW]") {
        let a = replace_str(line, "[NEW]", "");
        (replace_str(&a, "[new]", ""), Operation::New)
    } else if contains_str(upper, "[DELETE]") {
        let a = replace_str(line, "[DELETE]", "");
        (replace_str(&a, "[delete]", ""), Operation::Delete)
    } else {
        (copy(line), Operation::Update)
    }
}

fn extract_clean_path(raw: &Vec<char>) -> (r: Vec<char>)
    ensures
        r@ == clean_path(raw@),
{
    let ws = split_words(raw);
    if ws.len() > 0 {
        assert(views(ws@)[0] == ws@[0]@);
        copy(&ws[0])
    } else {
        copy(raw)
    }
}

fn parse_manifest_line(line: &Vec<char>, marker: &Pattern) -> (r: Option<ManifestEntry>)
    requires
        marker.source() == list_marker(),
    ensures
        match line_entry(line@) {
            Some((p, op)) => r matches Some(e) && e.path@ == p && e.operation == op,
            None => r is None,
        },
{
    let trimmed = trim_chars(line);
    if trimmed.len() == 0 {
        return None;
    }
    let ts = from_chars(&trimmed);
    let clean = marker.replace(ts.as_str(), "");
    proof {
        reveal_strlit("");
        assert(""@ =~= Seq::<char>::empty());
    }
    let cv = to_chars(clean.as_str());
    let upper = to_uppercase_chars(&cv);
    entry_of_cleaned(&cv, &upper)
}

/// The entry of a manifest line whose list marker was taken out (`clean`),
/// given the upper-case form `upper` of that text.
pub fn entry_of_cleaned(clean: &Vec<char>, upper: &Vec<char>) -> (r: Option<ManifestEntry>)
    ensures
        match entry_given(clean@, upper@) {
            Some((p, op)) => r matches Some(e) && e.path@ == p && e.operation == op,
            None => r is None,
        },
{
    let ct = trim_chars(clean);
    if ct.len() == 0 {
        return None;
    }
    let (path_raw, op) = operation_from_upper(clean, upper);
    let final_path = extract_clean_path(&path_raw);
    if final_path.len() == 0 {
        None
    } else {
        Some(ManifestEntry { path: from_chars(&final_path), operation: op })
    }
}

fn parse_manifest_lines(block: &Vec<char>) -> (r: Result<Option<Vec<ManifestEntry>>, String>)
    ensures
        manifest_result_is(r, block_result(block@)),
{
    let marker = match Pattern::new("^\\s*(?:[-*]|\\d+\\.)\\s+") {
        Ok(p) => p,
        Err(e) => {
            return Err(e);
        },
    };
    let ls = split_lines(block);
    let ghost lv = views(ls@);
    let mut entries: Vec<ManifestEntry> = Vec::new();
    let mut i: usize = 0;
    while i < ls.len()
        invariant
            i <= ls.len(),
            lv == views(ls@),
            marker.source() == list_marker(),
            entries_view(entries@) == block_entries(lv.take(i as int)),
        decreases ls.len() - i,
    {
        let ghost e0 = entries_view(entries@);
        proof {
            assert(lv.take(i + 1).drop_last() =~= lv.take(i as int));
            assert(lv.take(i + 1).last() == ls@[i as int]@);
        }
        match parse_manifest_line(&ls[i], &marker) {
            Some(e) => {
                entries.push(e);
            },
            None => {},
        }
        assert(entries_view(entries@) =~= block_entries(lv.take(i + 1)));
        i += 1;
    }
    assert(lv.take(ls.len() as int) =~= lv);
    Ok(Some(entries))
}

/// Reads the manifest of a reply: the block between `#__WARDEN_MANIFEST__#`
/// and `#__WARDEN_END__#`, else the legacy `<delivery>` block; `None`
/// without either. Each non-blank line gives an entry: its list marker is
/// dropped, `[NEW]`/`[DELETE]` set the operation, and its first word is
/// the path.
pub fn parse_manifest(response: &str) -> (r: Result<Option<Vec<ManifestEntry>>, String>)
    ensures
        manifest_result_is(r, manifest_spec(response@)),
{
    let open = match Pattern::new("#__WARDEN_MANIFEST__#") {
        Ok(p) => p,
        Err(e) => {
            return Err(e);
        },
    };
    let close = match Pattern::new("#__WARDEN_END__#") {
        Ok(p) => p,
        Err(e) => {
            return Err(e);
        },
    };
    let chars = to_chars(response);
    match open.find_at(response, 0) {
        Some((_, e1)) => match close.find_at(response, e1) {
            Some((s2, _)) => {
                let block = slice_of(&chars, e1, s2);
                return parse_manifest_lines(&block);
            },
            None => {},
        },
        None => {},
    }
    let lopen = match Pattern::new("(?i)<delivery>") {
        Ok(p) => p,
        Err(e) => {
            return Err(e);
        },
    };
    let lclose = match Pattern::new("(?i)</delivery>") {
        Ok(p) => p,
        Err(e) => {
            return Err(e);
        },
    };
    match lopen.find_at(response, 0) {
        Some((_, e1)) => match lclose.find_at(response, e1) {
            Some((s2, _)) => {
                let block = slice_of(&chars, e1, s2);
                parse_manifest_lines(&block)
            },
            None => Ok(None),
        },
        None => Ok(None),
    }
}

} // verus!
