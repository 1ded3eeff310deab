//! Cutting the plan and the file blocks out of a reply.
use vstd::prelude::*;
use crate::apply::types::{distinct_paths, ExtractedFiles, FileContent};
use crate::pattern::{
    group, group_text, groups_view, regex_captures, regex_compiles, regex_error_text, regex_find_at,
    Pattern,
};
use crate::text::{eq_str, from_chars, lines, slice_of, split_lines, to_chars, trim, trim_chars};

verus! {

// ---------------------------------------------------------------------
// Model
// ---------------------------------------------------------------------

/// Opening line of the plan block.
pub open spec fn plan_open() -> Seq<char> {
    "(?m)^#__WARDEN_PLAN__#\\s*$"@
}

/// Closing line of a block.
pub open spec fn block_close() -> Seq<char> {
    "(?m)^#__WARDEN_END__#\\s*$"@
}

/// Header line of a file block; its group 1 is the path.
pub open spec fn file_header() -> Seq<char> {
    "(?m)^#__WARDEN_FILE__#\\s*(.+?)\\s*$"@
}

/// The trimmed text between the first plan line and the next end line.
pub open spec fn plan_spec(r: Seq<char>) -> Option<Seq<char>> {
    if !regex_compiles(plan_open()) || !regex_compiles(block_close()) {
        None
    } else {
        match regex_find_at(plan_open(), r, 0) {
            None => None,
            Some((_, e1)) => match regex_find_at(block_close(), r, e1) {
                None => None,
                Some((s2, _)) => Some(trim(r.subrange(e1, s2))),
            },
        }
    }
}

/// First index at or after `i` that is not `'\n'`.
pub open spec fn skip_nl(s: Seq<char>, i: int) -> int
    decreases s.len() - i,
{
    if 0 <= i < s.len() && s[i] == '\n' {
        skip_nl(s, i + 1)
    } else {
        i
    }
}

/// End of `s.take(j)` once trailing `'\n'`s are removed.
pub open spec fn trail_nl(s: Seq<char>, j: int) -> int
    decreases j,
{
    if 0 < j <= s.len() && s[j - 1] == '\n' {
        trail_nl(s, j - 1)
    } else {
        j
    }
}

/// `str::trim_matches('\n')`.
pub open spec fn strip_newlines(s: Seq<char>) -> Seq<char> {
    let a = skip_nl(s, 0);
    let t = s.subrange(a, s.len() as int);
    t.subrange(0, trail_nl(t, t.len() as int))
}

/// An extracted file: path, content and number of lines.
pub type FileView = (Seq<char>, Seq<char>, nat);

/// Position of the file with path `p`.
pub open spec fn path_index(fs: Seq<FileView>, p: Seq<char>, i: int) -> Option<int>
    decreases fs.len() - i,
{
    if i < 0 || i >= fs.len() {
        None
    } else if fs[i].0 == p {
        Some(i)
    } else {
        path_index(fs, p, i + 1)
    }
}

/// `fs` with `f` stored under its path: in place when the path is there,
/// else at the end.
pub open spec fn put_file(fs: Seq<FileView>, f: FileView) -> Seq<FileView> {
    match path_index(fs, f.0, 0) {
        Some(i) => fs.update(i, f),
        None => fs.push(f),
    }
}

/// The trimmed path that the header found at `h` names.
pub open spec fn header_path(r: Seq<char>, h: (int, int)) -> Seq<char> {
    path_given(regex_captures(file_header(), r.subrange(h.0, r.len() as int)))
}

/// The path of a header, given what the header pattern captured: group 1
/// trimmed, empty when there is none.
pub open spec fn path_given(caps: Option<Seq<Option<Seq<char>>>>) -> Seq<char> {
    trim(
        match caps {
            Some(g) => match group_text(g, 1) {
                Some(t) => t,
                None => Seq::empty(),
            },
            None => Seq::empty(),
        },
    )
}

/// Headers that name no file to write.
pub open spec fn skipped_path(p: Seq<char>) -> bool {
    p == "MANIFEST"@ || p == "PLAN"@ || p.len() == 0
}

/// One block, from its header at `h`: where the scan goes on, and the file
/// it gives, if any. A block without an end line gives nothing and the
/// scan goes on after its header.
pub open spec fn block_step(r: Seq<char>, h: (int, int)) -> (int, Option<FileView>) {
    block_given(
        r,
        h.1,
        regex_captures(file_header(), r.subrange(h.0, r.len() as int)),
        regex_find_at(block_close(), r, h.1),
    )
}

/// One block whose header ends at `he`, given what the header pattern
/// captured there and where the end line was found after it (`None`
/// without one): where the scan goes on, and the file it gives, if any.
pub open spec fn block_given(
    r: Seq<char>,
    he: int,
    caps: Option<Seq<Option<Seq<char>>>>,
    end: Option<(int, int)>,
) -> (int, Option<FileView>) {
    let p = path_given(caps);
    match end {
        None => (he, None),
        Some((fs, fe)) => if skipped_path(p) {
            (fe, None)
        } else {
            let c = strip_newlines(r.subrange(he, fs));
            (fe, Some((p, c, lines(c).len())))
        },
    }
}

/// A span in characters, as integers.
pub open spec fn span_view(m: Option<(usize, usize)>) -> Option<(int, int)> {
    match m {
        Some((a, b)) => Some((a as int, b as int)),
        None => None,
    }
}

/// The files of the blocks whose headers lie at or after `pos`, added to
/// `fs`. A step that does not move the scan forward ends it.
pub open spec fn scan_files(r: Seq<char>, pos: int, fs: Seq<FileView>) -> Seq<FileView>
    decreases r.len() - pos,
{
    if pos < 0 || pos > r.len() {
        fs
    } else {
        match regex_find_at(file_header(), r, pos) {
            None => fs,
            Some(h) => {
                let (next, f) = block_step(r, h);
                let fs2 = match f {
                    Some(x) => put_file(fs, x),
                    None => fs,
                };
                if next <= pos || next > r.len() {
                    fs2
                } else {
                    scan_files(r, next, fs2)
                }
            },
        }
    }
}

/// What `extract_files` gives: an error when a pattern does not compile,
/// else the files of all blocks.
pub open spec fn files_spec(r: Seq<char>) -> Result<Seq<FileView>, Seq<char>> {
    if !regex_compiles(file_header()) {
        Err(regex_error_text(file_header()))
    } else if !regex_compiles(block_close()) {
        Err(regex_error_text(block_close()))
    } else {
        Ok(scan_files(r, 0, Seq::empty()))
    }
}

/// The extracted files, as values.
pub open spec fn file_views(v: Seq<(String, FileContent)>) -> Seq<FileView> {
    v.map_values(|p: (String, FileContent)| (p.0@, p.1.content@, p.1.line_count as nat))
}

// ---------------------------------------------------------------------
// Executable
// ---------------------------------------------------------------------

/// The plan block of a reply, trimmed; `None` without one.
pub fn extract_plan(response: &str) -> (r: Option<String>)
    ensures
        match plan_spec(response@) {
            Some(p) => r matches Some(s) && s@ == p,
            None => r is None,
        },
{
    let open = match Pattern::new("(?m)^#__WARDEN_PLAN__#\\s*$") {
        Ok(p) => p,
        Err(_) => {
            return None;
        },
    };
    let close = match Pattern::new("(?m)^#__WARDEN_END__#\\s*$") {
        Ok(p) => p,
        Err(_) => {
            return None;
        },
    };
    let (_, e1) = match open.find_at(response, 0) {
        Some(m) => m,
        None => {
            return None;
        },
    };
    let (s2, _) = match close.find_at(response, e1) {
        Some(m) => m,
        None => {
            return None;
        },
    };
    let chars = to_chars(response);
    let block = slice_of(&chars, e1, s2);
    let t = trim_chars(&block);
    Some(from_chars(&t))
}

/// `str::trim_matches('\n')`.
fn clean_block_content(raw: &Vec<char>) -> (r: Vec<char>)
    ensures
        r@ == strip_newlines(raw@),
{
    let mut a: usize = 0;
    while a < raw.len() && raw[a] == '\n'
        invariant
            a <= raw.len(),
            skip_nl(raw@, 0) == skip_nl(raw@, a as int),
        decreases raw.len() - a,
    {
        a += 1;
    }
    let t = slice_of(raw, a, raw.len());
    let mut b: usize = t.len();
    while b > 0 && t[b - 1] == '\n'
        invariant
            b <= t.len(),
            trail_nl(t@, t.len() as int) == trail_nl(t@, b as int),
        decreases b,
    {
        b -= 1;
    }
    slice_of(&t, 0, b)
}

/// One file block of reply `chars` whose header ends at `header_end`, given
/// the groups that the header pattern captured from the header on and the
/// span of the end line found after the header (`None` without one): where
/// the scan goes on, and the file that the block gives, if any.
pub fn file_block(
    chars: &Vec<char>,
    header_end: usize,
    caps: &Option<Vec<Option<String>>>,
    end: Option<(usize, usize)>,
) -> (r: (usize, Option<(String, FileContent)>))
    requires
        header_end <= chars.len(),
        end matches Some((s, e)) ==> header_end <= s <= e <= chars.len(),
    ensures
        r.0 == block_given(chars@, header_end as int, groups_view(*caps), span_view(end)).0,
        match block_given(chars@, header_end as int, groups_view(*caps), span_view(end)).1 {
            Some(f) => r.1 matches Some(x) && (x.0@, x.1.content@, x.1.line_count as nat) == f,
            None => r.1 is None,
        },
{
    let path_raw = match caps {
        Some(g) => match group(g, 1) {
            Some(t) => t,
            None => Vec::new(),
        },
        None => Vec::new(),
    };
    let path = trim_chars(&path_raw);
    match end {
        None => (header_end, None),
        Some((fs, fe)) => {
            if eq_str(&path, "MANIFEST") || eq_str(&path, "PLAN") || path.len() == 0 {
                (fe, None)
            } else {
                let raw = slice_of(chars, header_end, fs);
                let clean = clean_block_content(&raw);
                let cs = split_lines(&clean);
                let count = cs.len();
                (fe, Some((from_chars(&path), FileContent { content: from_chars(&clean), line_count: count })))
            }
        },
    }
}

/// Stores `content` under `path`: in place when the path is there.
fn put(files: &mut ExtractedFiles, path: String, content: FileContent)
    ensures
        file_views(final(files)@) == put_file(
            file_views(old(files)@),
            (path@, content.content@, content.line_count as nat),
        ),
{
    let ghost fv = file_views(files@);
    let ghost f = (path@, content.content@, content.line_count as nat);
    let mut i: usize = 0;
    while i < files.len()
        invariant
            i <= files.len(),
            fv == file_views(files@),
            fv == file_views(old(files)@),
            f == (path@, content.content@, content.line_count as nat),
            path_index(fv, path@, 0) == path_index(fv, path@, i as int),
        decreases files.len() - i,
    {
        assert(fv[i as int].0 == files@[i as int].0@);
        if files[i].0 == path {
            assert(path_index(fv, path@, i as int) == Some(i as int));
            let ghost before = files@;
            files.set(i, (path, content));
            assert(file_views(files@) =~= fv.update(i as int, f));
            return ;
        }
        i += 1;
    }
    files.push((path, content));
    assert(file_views(files@) =~= fv.push(f));
}

/// `put_file` keeps the paths distinct.
proof fn lemma_put_file_distinct(fs: Seq<FileView>, f: FileView)
    requires
        forall|i: int, j: int| 0 <= i < j < fs.len() ==> #[trigger] fs[i].0 != #[trigger] fs[j].0,
    ensures
        forall|i: int, j: int|
            0 <= i < j < put_file(fs, f).len() ==> #[trigger] put_file(fs, f)[i].0
                != #[trigger] put_file(fs, f)[j].0,
{
    lemma_path_index(fs, f.0, 0);
}

proof fn lemma_path_index(fs: Seq<FileView>, p: Seq<char>, i: int)
    requires
        0 <= i,
    ensures
        match path_index(fs, p, i) {
            Some(k) => i <= k < fs.len() && fs[k].0 == p,
            None => forall|j: int| i <= j < fs.len() ==> #[trigger] fs[j].0 != p,
        },
    decreases fs.len() - i,
{
    if i < fs.len() && fs[i].0 != p {
        lemma_path_index(fs, p, i + 1);
    }
}

/// The file blocks of a reply, by path: each `#__WARDEN_FILE__# path`
/// line up to the next `#__WARDEN_END__#` line gives the path's content,
/// with leading and trailing newlines cut; `MANIFEST`, `PLAN` and empty
/// paths are skipped. A later block for a path replaces an earlier one.
pub fn extract_files(response: &str) -> (r: Result<ExtractedFiles, String>)
    ensures
        match files_spec(response@) {
            Err(e) => r matches Err(m) && m@ == e,
            Ok(fs) => r matches Ok(v) && file_views(v@) == fs,
        },
        r matches Ok(v) ==> forall|i: int, j: int|
            0 <= i < j < v@.len() ==> #[trigger] file_views(v@)[i].0
                != #[trigger] file_views(v@)[j].0,
{
    let header = match Pattern::new("(?m)^#__WARDEN_FILE__#\\s*(.+?)\\s*$") {
        Ok(p) => p,
        Err(e) => {
            return Err(e);
        },
    };
    let footer = match Pattern::new("(?m)^#__WARDEN_END__#\\s*$") {
        Ok(p) => p,
        Err(e) => {
            return Err(e);
        },
    };
    let chars = to_chars(response);
    let ghost rv = response@;
    let mut files: ExtractedFiles = Vec::new();
    let mut pos: usize = 0;
    assert(file_views(files@) =~= Seq::<FileView>::empty());
    loop
        invariant
            pos <= chars.len(),
            chars@ == rv,
            rv == response@,
            header.source() == file_header(),
            footer.source() == block_close(),
            regex_compiles(file_header()),
            regex_compiles(block_close()),
            scan_files(rv, 0, Seq::empty()) == scan_files(rv, pos as int, file_views(files@)),
            forall|i: int, j: int|
                0 <= i < j < files@.len() ==> #[trigger] file_views(files@)[i].0
                    != #[trigger] file_views(files@)[j].0,
        decreases chars.len() - pos,
    {
        let (hs, he) = match header.find_at(response, pos) {
            Some(m) => m,
            None => {
                return Ok(files);
            },
        };
        let ghost fv0 = file_views(files@);
        let suffix = slice_of(&chars, hs, chars.len());
        let sstr = from_chars(&suffix);
        let caps = header.captures(sstr.as_str());
        assert(sstr@ == rv.subrange(hs as int, rv.len() as int));
        let end = footer.find_at(response, he);
        let (next, block) = file_block(&chars, he, &caps, end);
        match block {
            Some((path, content)) => {
                proof {
                    lemma_put_file_distinct(
                        fv0,
                        (path@, content.content@, content.line_count as nat),
                    );
                }
                put(&mut files, path, content);
            },
            None => {},
        }
        if next <= pos {
            return Ok(files);
        }
        pos = next;
    }
}

} // verus!
