//! Packing files into one text for a model: the delimiter format and the
//! XML format, with or without focus.
use vstd::prelude::*;
use crate::text::{
    append, append_str, find, from_chars, replace, replace_str, split_char, split_on, starts_with,
    to_chars, views,
};

verus! {

/// The output format of a pack.
#[derive(Debug, Clone, Copy, PartialEq, Eq, Structural)]
pub enum OutputFormat {
    Text,
    Xml,
}

impl Default for OutputFormat {
    fn default() -> (r: OutputFormat)
        ensures
            r == OutputFormat::Text,
    {
        OutputFormat::Text
    }
}

/// Options of the pack command; paths are text.
#[derive(Debug, Clone)]
pub struct PackOptions {
    pub stdout: bool,
    pub copy: bool,
    pub verbose: bool,
    pub prompt: bool,
    pub format: OutputFormat,
    pub skeleton: bool,
    pub git_only: bool,
    pub no_git: bool,
    pub code_only: bool,
    pub target: Option<String>,
    pub focus: Vec<String>,
    pub depth: usize,
}

/// The files in focus (packed in full) and around it (packed as
/// signatures).
#[derive(Debug, Clone)]
pub struct FocusContext {
    pub foveal: Vec<String>,
    pub peripheral: Vec<String>,
}

/// A file to pack: its path, its full text and its skeleton, each read by
/// the caller (`Err` holds the message of a failed read).
#[derive(Debug)]
pub struct PackedFile {
    pub path: String,
    pub full: Result<String, String>,
    pub skeleton: Result<String, String>,
}

// ---------------------------------------------------------------------
// Paths
// ---------------------------------------------------------------------

/// The components of a `/`-separated path as `Path::components` gives
/// them: `/` for a root, `.` for a leading current-directory mark, then
/// the pieces that are neither empty nor `.`.
pub open spec fn components(p: Seq<char>) -> Seq<Seq<char>> {
    let ps = split_char(p, '/');
    let head: Seq<Seq<char>> = if starts_with(p, "/"@) {
        seq!["/"@]
    } else if ps.len() > 0 && ps[0] == "."@ {
        seq!["."@]
    } else {
        Seq::empty()
    };
    head + normal_pieces(ps)
}

/// The pieces that are neither empty nor `.`, in order.
pub open spec fn normal_pieces(ps: Seq<Seq<char>>) -> Seq<Seq<char>>
    decreases ps.len(),
{
    if ps.len() == 0 {
        Seq::empty()
    } else {
        normal_pieces(ps.drop_last()) + if ps.last().len() > 0 && ps.last() != "."@ {
            seq![ps.last()]
        } else {
            Seq::empty()
        }
    }
}

/// `Path::ends_with`: the components of `child` end the components of
/// `p`.
pub open spec fn path_ends_with(p: Seq<char>, child: Seq<char>) -> bool {
    let a = components(p);
    let b = components(child);
    b.len() <= a.len() && a.subrange(a.len() - b.len(), a.len() as int) == b
}

fn normal_pieces_of(ps: &Vec<Vec<char>>) -> (r: Vec<Vec<char>>)
    ensures
        views(r@) == normal_pieces(views(ps@)),
{
    let ghost pv = views(ps@);
    let mut out: Vec<Vec<char>> = Vec::new();
    let mut i: usize = 0;
    while i < ps.len()
        invariant
            i <= ps.len(),
            pv == views(ps@),
            views(out@) == normal_pieces(pv.take(i as int)),
        decreases ps.len() - i,
    {
        let ghost o0 = views(out@);
        proof {
            assert(pv.take(i + 1).drop_last() =~= pv.take(i as int));
            assert(pv.take(i + 1).last() == ps@[i as int]@);
        }
        let x = &ps[i];
        if x.len() > 0 && !crate::text::eq_str(x, ".") {
            out.push(crate::text::copy(x));
            assert(views(out@) =~= o0.push(x@));
        }
        assert(views(out@) =~= normal_pieces(pv.take(i + 1)));
        i += 1;
    }
    assert(pv.take(ps.len() as int) =~= pv);
    out
}

fn components_of(p: &str) -> (r: Vec<Vec<char>>)
    ensures
        views(r@) == components(p@),
{
    let v = to_chars(p);
    let ps = split_on(&v, '/');
    let mut out: Vec<Vec<char>> = Vec::new();
    if crate::text::starts_with_str(&v, "/") {
        out.push(to_chars("/"));
    } else if ps.len() > 0 && crate::text::eq_str(&ps[0], ".") {
        out.push(to_chars("."));
    }
    let ghost head = views(out@);
    proof {
        assert(views(ps@).len() > 0 ==> views(ps@)[0] == ps@[0]@);
    }
    let mut rest = normal_pieces_of(&ps);
    out.append(&mut rest);
    assert(views(out@) =~= components(p@));
    out
}

/// Whether path `p` ends with the components of `child`.
pub fn ends_with_path(p: &str, child: &str) -> (r: bool)
    ensures
        r == path_ends_with(p@, child@),
{
    let a = components_of(p);
    let b = components_of(child);
    let ghost av = views(a@);
    let ghost bv = views(b@);
    if b.len() > a.len() {
        return false;
    }
    let off = a.len() - b.len();
    let mut k: usize = 0;
    while k < b.len()
        invariant
            k <= b.len() <= a.len(),
            off == a.len() - b.len(),
            av == views(a@),
            bv == views(b@),
            av == components(p@),
            bv == components(child@),
            forall|j: int|
                0 <= j < k ==> #[trigger] av.subrange(off as int, av.len() as int)[j] == bv[j],
        decreases b.len() - k,
    {
        assert(av[off + k] == a@[off + k]@);
        assert(bv[k as int] == b@[k as int]@);
        assert(av.subrange(off as int, av.len() as int)[k as int] == av[off + k]);
        if !crate::text::eq_chars(&a[off + k], &b[k]) {
            assert(av.subrange(off as int, av.len() as int)[k as int] != bv[k as int]);
            return false;
        }
        k += 1;
    }
    assert(av.subrange(off as int, av.len() as int) =~= bv);
    true
}

/// A file packed as a skeleton: always with `--skeleton`; with a target,
/// every file but the target.
pub open spec fn skeletonized(path: Seq<char>, skeleton: bool, target: Option<Seq<char>>) -> bool {
    if skeleton {
        true
    } else {
        match target {
            Some(t) => !path_ends_with(path, t),
            None => false,
        }
    }
}

/// Whether a file is packed as a skeleton under these options.
pub fn should_skeletonize(path: &str, opts: &PackOptions) -> (r: bool)
    ensures
        r == skeletonized(path@, opts.skeleton, crate::roadmap::types::opt_view(opts.target)),
{
    if opts.skeleton {
        return true;
    }
    match &opts.target {
        Some(t) => !ends_with_path(path, t.as_str()),
        None => false,
    }
}

// ---------------------------------------------------------------------
// Formats
// ---------------------------------------------------------------------

/// A read result as values.
pub open spec fn read_view(r: Result<String, String>) -> Result<Seq<char>, Seq<char>> {
    match r {
        Ok(c) => Ok(c@),
        Err(e) => Err(e@),
    }
}

/// A path with backslashes read as slashes.
pub open spec fn slashed(p: Seq<char>) -> Seq<char> {
    replace(p, "\\"@, "/"@)
}

/// The body of a block: the text, or a comment with the read error.
pub open spec fn block_body(t: Result<Seq<char>, Seq<char>>) -> Seq<char> {
    match t {
        Ok(c) => c,
        Err(e) => "// <ERROR READING FILE: "@ + e + ">\n"@,
    }
}

/// One file in the delimiter format, tagged `[SKELETON]` when asked.
pub open spec fn warden_block(path: Seq<char>, t: Result<Seq<char>, Seq<char>>, tag: bool) -> Seq<char> {
    "#__WARDEN_FILE__# "@ + slashed(path) + (if tag {
        " [SKELETON]"@
    } else {
        Seq::empty()
    }) + "\n"@ + block_body(t) + "\n#__WARDEN_END__#\n\n"@
}

/// The text a file is packed with under the options.
pub open spec fn chosen_text(f: PackedFile, skeleton: bool, target: Option<Seq<char>>) -> Result<
    Seq<char>,
    Seq<char>,
> {
    if skeletonized(f.path@, skeleton, target) {
        read_view(f.skeleton)
    } else {
        read_view(f.full)
    }
}

/// The delimiter-format pack of `files`.
pub open spec fn warden_pack(files: Seq<PackedFile>, skeleton: bool, target: Option<Seq<char>>) -> Seq<
    char,
>
    decreases files.len(),
{
    if files.len() == 0 {
        Seq::empty()
    } else {
        let f = files.last();
        warden_pack(files.drop_last(), skeleton, target) + warden_block(
            f.path@,
            chosen_text(f, skeleton, target),
            false,
        )
    }
}

pub(crate) fn push_all(out: &mut String, v: &Vec<char>)
    ensures
        final(out)@ == old(out)@ + v@,
{
    let ghost o0 = out@;
    let mut i: usize = 0;
    while i < v.len()
        invariant
            i <= v.len(),
            out@ == o0 + v@.take(i as int),
        decreases v.len() - i,
    {
        out.push(v[i]);
        proof {
            assert(v@.take(i + 1) =~= v@.take(i as int).push(v@[i as int]));
        }
        i += 1;
    }
    assert(v@.take(v.len() as int) =~= v@);
}

pub(crate) fn slash_path(p: &str) -> (r: Vec<char>)
    ensures
        r@ == slashed(p@),
{
    proof {
        reveal_strlit("\\");
    }
    let v = to_chars(p);
    replace_str(&v, "\\", "/")
}

fn block_body_chars(out: &mut Vec<char>, t: &Result<String, String>)
    ensures
        final(out)@ == old(out)@ + block_body(read_view(*t)),
{
    match t {
        Ok(c) => append_str(out, c.as_str()),
        Err(e) => {
            append_str(out, "// <ERROR READING FILE: ");
            append_str(out, e.as_str());
            append_str(out, ">\n");
        },
    }
}

fn write_warden_file(out: &mut Vec<char>, path: &str, t: &Result<String, String>, tag: bool)
    ensures
        final(out)@ == old(out)@ + warden_block(path@, read_view(*t), tag),
{
    let ghost o0 = out@;
    append_str(out, "#__WARDEN_FILE__# ");
    let p = slash_path(path);
    append(out, &p);
    if tag {
        append_str(out, " [SKELETON]");
    }
    append_str(out, "\n");
    block_body_chars(out, t);
    append_str(out, "\n#__WARDEN_END__#\n\n");
    assert(out@ =~= o0 + warden_block(path@, read_view(*t), tag));
}

/// The first read error among the texts the plain pack uses, in file
/// order; `None` when every file was read.
pub open spec fn pack_error(files: Seq<PackedFile>, skeleton: bool, target: Option<Seq<char>>) -> Option<
    Seq<char>,
>
    decreases files.len(),
{
    if files.len() == 0 {
        None
    } else {
        match pack_error(files.drop_last(), skeleton, target) {
            Some(e) => Some(e),
            None => match chosen_text(files.last(), skeleton, target) {
                Err(e) => Some(e),
                Ok(_) => None,
            },
        }
    }
}

/// The first read error among the files in the list `sel`, from their
/// skeleton or their full text.
pub open spec fn focus_error(files: Seq<PackedFile>, sel: Seq<String>, skeleton: bool) -> Option<
    Seq<char>,
>
    decreases files.len(),
{
    if files.len() == 0 {
        None
    } else {
        match focus_error(files.drop_last(), sel, skeleton) {
            Some(e) => Some(e),
            None => if listed(sel, files.last().path@) {
                match if skeleton {
                    read_view(files.last().skeleton)
                } else {
                    read_view(files.last().full)
                } {
                    Err(e) => Some(e),
                    Ok(_) => None,
                }
            } else {
                None
            },
        }
    }
}

/// The first read error of a focused pack: the plain pack's without a
/// focus; else the focused files' full texts, then the skeletons of the
/// files around the focus.
pub open spec fn focus_pack_error(
    files: Seq<PackedFile>,
    skeleton: bool,
    target: Option<Seq<char>>,
    foveal: Seq<String>,
    peripheral: Seq<String>,
) -> Option<Seq<char>> {
    if foveal.len() == 0 && peripheral.len() == 0 {
        pack_error(files, skeleton, target)
    } else {
        match focus_error(files, foveal, false) {
            Some(e) => Some(e),
            None => focus_error(files, peripheral, true),
        }
    }
}

/// The view of an optional error.
pub open spec fn opt_err_view(o: Option<String>) -> Option<Seq<char>> {
    match o {
        Some(e) => Some(e@),
        None => None,
    }
}

fn first_pack_error(files: &[PackedFile], opts: &PackOptions) -> (r: Option<String>)
    ensures
        opt_err_view(r) == pack_error(
            files@,
            opts.skeleton,
            crate::roadmap::types::opt_view(opts.target),
        ),
{
    let ghost target = crate::roadmap::types::opt_view(opts.target);
    let mut i: usize = 0;
    while i < files.len()
        invariant
            i <= files.len(),
            target == crate::roadmap::types::opt_view(opts.target),
            pack_error(files@.take(i as int), opts.skeleton, target) is None,
        decreases files.len() - i,
    {
        let f = &files[i];
        proof {
            assert(files@.take(i + 1).drop_last() =~= files@.take(i as int));
            assert(files@.take(i + 1).last() == *f);
        }
        let t = if should_skeletonize(f.path.as_str(), opts) {
            &f.skeleton
        } else {
            &f.full
        };
        match t {
            Err(e) => {
                proof {
                    lemma_pack_error_prefix(files@, opts.skeleton, target, i + 1);
                }
                return Some(e.clone());
            },
            Ok(_) => {},
        }
        i += 1;
    }
    assert(files@.take(files.len() as int) =~= files@);
    None
}

/// An error in a prefix is the error of the whole.
proof fn lemma_pack_error_prefix(
    files: Seq<PackedFile>,
    skeleton: bool,
    target: Option<Seq<char>>,
    n: int,
)
    requires
        0 <= n <= files.len(),
        pack_error(files.take(n), skeleton, target) is Some,
    ensures
        pack_error(files, skeleton, target) == pack_error(files.take(n), skeleton, target),
    decreases files.len() - n,
{
    if n < files.len() {
        assert(files.take(n + 1).drop_last() =~= files.take(n));
        lemma_pack_error_prefix(files, skeleton, target, n + 1);
    } else {
        assert(files.take(n) =~= files);
    }
}

/// An error in a prefix is the error of the whole.
proof fn lemma_focus_error_prefix(files: Seq<PackedFile>, sel: Seq<String>, skeleton: bool, n: int)
    requires
        0 <= n <= files.len(),
        focus_error(files.take(n), sel, skeleton) is Some,
    ensures
        focus_error(files, sel, skeleton) == focus_error(files.take(n), sel, skeleton),
    decreases files.len() - n,
{
    if n < files.len() {
        assert(files.take(n + 1).drop_last() =~= files.take(n));
        lemma_focus_error_prefix(files, sel, skeleton, n + 1);
    } else {
        assert(files.take(n) =~= files);
    }
}

fn first_focus_error(files: &[PackedFile], sel: &Vec<String>, skeleton: bool) -> (r: Option<String>)
    ensures
        opt_err_view(r) == focus_error(files@, sel@, skeleton),
{
    let mut i: usize = 0;
    while i < files.len()
        invariant
            i <= files.len(),
            focus_error(files@.take(i as int), sel@, skeleton) is None,
        decreases files.len() - i,
    {
        let f = &files[i];
        proof {
            assert(files@.take(i + 1).drop_last() =~= files@.take(i as int));
            assert(files@.take(i + 1).last() == *f);
        }
        if is_listed(sel, &f.path) {
            let t = if skeleton {
                &f.skeleton
            } else {
                &f.full
            };
            match t {
                Err(e) => {
                    proof {
                        lemma_focus_error_prefix(files@, sel@, skeleton, i + 1);
                    }
                    return Some(e.clone());
                },
                Ok(_) => {},
            }
        }
        i += 1;
    }
    assert(files@.take(files.len() as int) =~= files@);
    None
}

fn first_focused_error(files: &[PackedFile], opts: &PackOptions, focus: &FocusContext) -> (r: Option<
    String,
>)
    ensures
        opt_err_view(r) == focus_pack_error(
            files@,
            opts.skeleton,
            crate::roadmap::types::opt_view(opts.target),
            focus.foveal@,
            focus.peripheral@,
        ),
{
    if focus.foveal.len() == 0 && focus.peripheral.len() == 0 {
        return first_pack_error(files, opts);
    }
    match first_focus_error(files, &focus.foveal, false) {
        Some(e) => Some(e),
        None => first_focus_error(files, &focus.peripheral, true),
    }
}

/// Packs `files` in the delimiter format: each file between a
/// `#__WARDEN_FILE__#` header and a `#__WARDEN_END__#` line, as its
/// skeleton where the options ask for one. Fails with the first read
/// error among the texts it would use, writing nothing.
pub fn pack_warden(files: &[PackedFile], out: &mut String, opts: &PackOptions) -> (r: Result<
    (),
    String,
>)
    ensures
        match pack_error(files@, opts.skeleton, crate::roadmap::types::opt_view(opts.target)) {
            Some(e) => r matches Err(m) && m@ == e && final(out)@ == old(out)@,
            None => r is Ok && final(out)@ == old(out)@ + warden_pack(
                files@,
                opts.skeleton,
                crate::roadmap::types::opt_view(opts.target),
            ),
        },
{
    if let Some(e) = first_pack_error(files, opts) {
        return Err(e);
    }
    let ghost target = crate::roadmap::types::opt_view(opts.target);
    let mut acc: Vec<char> = Vec::new();
    let mut i: usize = 0;
    while i < files.len()
        invariant
            i <= files.len(),
            target == crate::roadmap::types::opt_view(opts.target),
            acc@ == warden_pack(files@.take(i as int), opts.skeleton, target),
        decreases files.len() - i,
    {
        let f = &files[i];
        proof {
            assert(files@.take(i + 1).drop_last() =~= files@.take(i as int));
            assert(files@.take(i + 1).last() == *f);
        }
        if should_skeletonize(f.path.as_str(), opts) {
            write_warden_file(&mut acc, f.path.as_str(), &f.skeleton, false);
        } else {
            write_warden_file(&mut acc, f.path.as_str(), &f.full, false);
        }
        i += 1;
    }
    assert(files@.take(files.len() as int) =~= files@);
    push_all(out, &acc);
    Ok(())
}

/// The paths of a focus list contain `p`.
pub open spec fn listed(ps: Seq<String>, p: Seq<char>) -> bool {
    exists|i: int| 0 <= i < ps.len() && #[trigger] ps[i]@ == p
}

/// The blocks of the files in the list `sel`, from their full text or
/// their tagged skeleton.
pub open spec fn focus_blocks(files: Seq<PackedFile>, sel: Seq<String>, skeleton: bool) -> Seq<char>
    decreases files.len(),
{
    if files.len() == 0 {
        Seq::empty()
    } else {
        let f = files.last();
        focus_blocks(files.drop_last(), sel, skeleton) + if listed(sel, f.path@) {
            if skeleton {
                warden_block(f.path@, read_view(f.skeleton), true)
            } else {
                warden_block(f.path@, read_view(f.full), false)
            }
        } else {
            Seq::empty()
        }
    }
}

/// Some file is in the list `sel`.
pub open spec fn any_listed(files: Seq<PackedFile>, sel: Seq<String>) -> bool {
    exists|i: int| 0 <= i < files.len() && listed(sel, #[trigger] files[i].path@)
}

/// A section of a focused pack: its heading and blocks, or nothing when
/// no file is in the list.
pub open spec fn focus_section(
    files: Seq<PackedFile>,
    sel: Seq<String>,
    skeleton: bool,
    heading: Seq<char>,
) -> Seq<char> {
    if any_listed(files, sel) {
        heading + focus_blocks(files, sel, skeleton)
    } else {
        Seq::empty()
    }
}

/// The focused pack in the delimiter format.
pub open spec fn warden_focus_pack(
    files: Seq<PackedFile>,
    skeleton: bool,
    target: Option<Seq<char>>,
    foveal: Seq<String>,
    peripheral: Seq<String>,
) -> Seq<char> {
    if foveal.len() == 0 && peripheral.len() == 0 {
        warden_pack(files, skeleton, target)
    } else {
        focus_section(files, foveal, false, "# ═══ FOVEAL (full content) ═══\n\n"@) + focus_section(
            files,
            peripheral,
            true,
            "# ═══ PERIPHERAL (signatures only) ═══\n\n"@,
        )
    }
}

fn is_listed(sel: &Vec<String>, p: &String) -> (r: bool)
    ensures
        r == listed(sel@, p@),
{
    let mut i: usize = 0;
    while i < sel.len()
        invariant
            i <= sel.len(),
            forall|k: int| 0 <= k < i ==> #[trigger] sel@[k]@ != p@,
        decreases sel.len() - i,
    {
        if sel[i] == *p {
            return true;
        }
        i += 1;
    }
    false
}

fn write_focus_section(
    out: &mut Vec<char>,
    files: &[PackedFile],
    sel: &Vec<String>,
    skeleton: bool,
    heading: &str,
)
    ensures
        final(out)@ == old(out)@ + focus_section(files@, sel@, skeleton, heading@),
{
    let ghost o0 = out@;
    let mut any = false;
    let mut j: usize = 0;
    while j < files.len()
        invariant
            j <= files.len(),
            any == exists|k: int| 0 <= k < j && listed(sel@, #[trigger] files@[k].path@),
        decreases files.len() - j,
    {
        if is_listed(sel, &files[j].path) {
            any = true;
        }
        j += 1;
    }
    if !any {
        return ;
    }
    append_str(out, heading);
    let ghost head = out@;
    let mut i: usize = 0;
    while i < files.len()
        invariant
            i <= files.len(),
            out@ == head + focus_blocks(files@.take(i as int), sel@, skeleton),
        decreases files.len() - i,
    {
        let f = &files[i];
        proof {
            assert(files@.take(i + 1).drop_last() =~= files@.take(i as int));
            assert(files@.take(i + 1).last() == *f);
        }
        let ghost before = out@;
        if is_listed(sel, &f.path) {
            if skeleton {
                write_warden_file(out, f.path.as_str(), &f.skeleton, true);
            } else {
                write_warden_file(out, f.path.as_str(), &f.full, false);
            }
        }
        assert(out@ =~= head + focus_blocks(files@.take(i + 1), sel@, skeleton));
        i += 1;
    }
    assert(files@.take(files.len() as int) =~= files@);
}

/// Packs `files` in the delimiter format with focus: without a focus the
/// plain pack; else the focused files in full, then the files around the
/// focus as tagged skeletons, each part under its heading when it has
/// files. Fails with the first read error among the texts it would use,
/// writing nothing.
pub fn pack_warden_focus(
    files: &[PackedFile],
    out: &mut String,
    opts: &PackOptions,
    focus: &FocusContext,
) -> (r: Result<(), String>)
    ensures
        match focus_pack_error(
            files@,
            opts.skeleton,
            crate::roadmap::types::opt_view(opts.target),
            focus.foveal@,
            focus.peripheral@,
        ) {
            Some(e) => r matches Err(m) && m@ == e && final(out)@ == old(out)@,
            None => r is Ok && final(out)@ == old(out)@ + warden_focus_pack(
                files@,
                opts.skeleton,
                crate::roadmap::types::opt_view(opts.target),
                focus.foveal@,
                focus.peripheral@,
            ),
        },
{
    if let Some(e) = first_focused_error(files, opts, focus) {
        return Err(e);
    }
    if focus.foveal.len() == 0 && focus.peripheral.len() == 0 {
        return pack_warden(files, out, opts);
    }
    let mut acc: Vec<char> = Vec::new();
    write_focus_section(&mut acc, files, &focus.foveal, false, "# ═══ FOVEAL (full content) ═══\n\n");
    write_focus_section(
        &mut acc,
        files,
        &focus.peripheral,
        true,
        "# ═══ PERIPHERAL (signatures only) ═══\n\n",
    );
    push_all(out, &acc);
    Ok(())
}

/// One file in the XML format; `]]>` in the text is split so that the
/// CDATA section stays closed only at its end.
pub open spec fn xml_doc(path: Seq<char>, t: Result<Seq<char>, Seq<char>>, attr: Option<Seq<char>>) -> Seq<
    char,
> {
    "  <document path=\""@ + slashed(path) + "\""@ + (match attr {
        Some(f) => " focus=\""@ + f + "\""@,
        None => Seq::empty(),
    }) + "><![CDATA[\n"@ + (match t {
        Ok(c) => replace(c, "]]>"@, "]]]]><![CDATA[>"@),
        Err(e) => "<!-- ERROR: "@ + e + " -->\n"@,
    }) + "]]></document>\n"@
}

/// The XML documents of `files`.
pub open spec fn xml_docs(files: Seq<PackedFile>, skeleton: bool, target: Option<Seq<char>>) -> Seq<
    char,
>
    decreases files.len(),
{
    if files.len() == 0 {
        Seq::empty()
    } else {
        let f = files.last();
        xml_docs(files.drop_last(), skeleton, target) + xml_doc(
            f.path@,
            chosen_text(f, skeleton, target),
            None,
        )
    }
}

fn write_xml_doc(out: &mut Vec<char>, path: &str, t: &Result<String, String>, attr: Option<&str>)
    ensures
        final(out)@ == old(out)@ + xml_doc(
            path@,
            read_view(*t),
            match attr {
                Some(a) => Some(a@),
                None => None,
            },
        ),
{
    let ghost o0 = out@;
    append_str(out, "  <document path=\"");
    let p = slash_path(path);
    append(out, &p);
    append_str(out, "\"");
    match attr {
        Some(f) => {
            append_str(out, " focus=\"");
            append_str(out, f);
            append_str(out, "\"");
        },
        None => {},
    }
    append_str(out, "><![CDATA[\n");
    match t {
        Ok(c) => {
            proof {
                reveal_strlit("]]>");
            }
            let cv = to_chars(c.as_str());
            let escaped = replace_str(&cv, "]]>", "]]]]><![CDATA[>");
            append(out, &escaped);
        },
        Err(e) => {
            append_str(out, "<!-- ERROR: ");
            append_str(out, e.as_str());
            append_str(out, " -->\n");
        },
    }
    append_str(out, "]]></document>\n");
    assert(out@ =~= o0 + xml_doc(
        path@,
        read_view(*t),
        match attr {
            Some(a) => Some(a@),
            None => None,
        },
    ));
}

/// Packs `files` as XML documents, as skeletons where the options ask for
/// them. Fails with the first read error among the texts it would use,
/// writing nothing.
pub fn pack_xml(files: &[PackedFile], out: &mut String, opts: &PackOptions) -> (r: Result<
    (),
    String,
>)
    ensures
        match pack_error(files@, opts.skeleton, crate::roadmap::types::opt_view(opts.target)) {
            Some(e) => r matches Err(m) && m@ == e && final(out)@ == old(out)@,
            None => r is Ok && final(out)@ == old(out)@ + "<documents>\n"@ + xml_docs(
                files@,
                opts.skeleton,
                crate::roadmap::types::opt_view(opts.target),
            ) + "</documents>\n"@,
        },
{
    if let Some(e) = first_pack_error(files, opts) {
        return Err(e);
    }
    let ghost target = crate::roadmap::types::opt_view(opts.target);
    let mut acc: Vec<char> = Vec::new();
    append_str(&mut acc, "<documents>\n");
    let ghost head = acc@;
    let mut i: usize = 0;
    while i < files.len()
        invariant
            i <= files.len(),
            target == crate::roadmap::types::opt_view(opts.target),
            acc@ == head + xml_docs(files@.take(i as int), opts.skeleton, target),
        decreases files.len() - i,
    {
        let f = &files[i];
        proof {
            assert(files@.take(i + 1).drop_last() =~= files@.take(i as int));
            assert(files@.take(i + 1).last() == *f);
        }
        if should_skeletonize(f.path.as_str(), opts) {
            write_xml_doc(&mut acc, f.path.as_str(), &f.skeleton, None);
        } else {
            write_xml_doc(&mut acc, f.path.as_str(), &f.full, None);
        }
        assert(acc@ =~= head + xml_docs(files@.take(i + 1), opts.skeleton, target));
        i += 1;
    }
    assert(files@.take(files.len() as int) =~= files@);
    append_str(&mut acc, "</documents>\n");
    push_all(out, &acc);
    Ok(())
}

/// The XML documents of the files in the list `sel`, full or as
/// skeletons, with the focus attribute `attr`.
pub open spec fn xml_focus_docs(files: Seq<PackedFile>, sel: Seq<String>, skeleton: bool, attr: Seq<
    char,
>) -> Seq<char>
    decreases files.len(),
{
    if files.len() == 0 {
        Seq::empty()
    } else {
        let f = files.last();
        xml_focus_docs(files.drop_last(), sel, skeleton, attr) + if listed(sel, f.path@) {
            xml_doc(
                f.path@,
                if skeleton {
                    read_view(f.skeleton)
                } else {
                    read_view(f.full)
                },
                Some(attr),
            )
        } else {
            Seq::empty()
        }
    }
}

fn write_xml_focus(
    out: &mut Vec<char>,
    files: &[PackedFile],
    sel: &Vec<String>,
    skeleton: bool,
    attr: &str,
)
    ensures
        final(out)@ == old(out)@ + xml_focus_docs(files@, sel@, skeleton, attr@),
{
    let ghost head = out@;
    let mut i: usize = 0;
    while i < files.len()
        invariant
            i <= files.len(),
            out@ == head + xml_focus_docs(files@.take(i as int), sel@, skeleton, attr@),
        decreases files.len() - i,
    {
        let f = &files[i];
        proof {
            assert(files@.take(i + 1).drop_last() =~= files@.take(i as int));
            assert(files@.take(i + 1).last() == *f);
        }
        if is_listed(sel, &f.path) {
            if skeleton {
                write_xml_doc(out, f.path.as_str(), &f.skeleton, Some(attr));
            } else {
                write_xml_doc(out, f.path.as_str(), &f.full, Some(attr));
            }
        }
        assert(out@ =~= head + xml_focus_docs(files@.take(i + 1), sel@, skeleton, attr@));
        i += 1;
    }
    assert(files@.take(files.len() as int) =~= files@);
}

/// Packs `files` as XML with focus: without a focus the plain XML pack;
/// else the focused files in full (`focus="foveal"`), then the files
/// around the focus as skeletons (`focus="peripheral"`). Fails with the
/// first read error among the texts it would use, writing nothing.
pub fn pack_xml_focus(
    files: &[PackedFile],
    out: &mut String,
    opts: &PackOptions,
    focus: &FocusContext,
) -> (r: Result<(), String>)
    ensures
        focus_pack_error(
            files@,
            opts.skeleton,
            crate::roadmap::types::opt_view(opts.target),
            focus.foveal@,
            focus.peripheral@,
        ) matches Some(e) ==> r matches Err(m) && m@ == e && final(out)@ == old(out)@,
        focus_pack_error(
            files@,
            opts.skeleton,
            crate::roadmap::types::opt_view(opts.target),
            focus.foveal@,
            focus.peripheral@,
        ) is None ==> r is Ok,
        focus_pack_error(
            files@,
            opts.skeleton,
            crate::roadmap::types::opt_view(opts.target),
            focus.foveal@,
            focus.peripheral@,
        ) is None && focus.foveal@.len() == 0 && focus.peripheral@.len() == 0 ==> final(out)@ == old(out)@
            + "<documents>\n"@ + xml_docs(
            files@,
            opts.skeleton,
            crate::roadmap::types::opt_view(opts.target),
        ) + "</documents>\n"@,
        focus_pack_error(
            files@,
            opts.skeleton,
            crate::roadmap::types::opt_view(opts.target),
            focus.foveal@,
            focus.peripheral@,
        ) is None && !(focus.foveal@.len() == 0 && focus.peripheral@.len() == 0) ==> final(out)@
            == old(out)@ + "<documents>\n"@ + xml_focus_docs(files@, focus.foveal@, false, "foveal"@)
            + xml_focus_docs(files@, focus.peripheral@, true, "peripheral"@)
            + "</documents>\n"@,
{
    if let Some(e) = first_focused_error(files, opts, focus) {
        return Err(e);
    }
    if focus.foveal.len() == 0 && focus.peripheral.len() == 0 {
        return pack_xml(files, out, opts);
    }
    let mut acc: Vec<char> = Vec::new();
    append_str(&mut acc, "<documents>\n");
    write_xml_focus(&mut acc, files, &focus.foveal, false, "foveal");
    write_xml_focus(&mut acc, files, &focus.peripheral, true, "peripheral");
    append_str(&mut acc, "</documents>\n");
    push_all(out, &acc);
    Ok(())
}

} // verus!
