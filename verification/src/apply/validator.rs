//! Safety checks on a parsed reply: where files may be written and what
//! their content may look like.
use vstd::prelude::*;
use crate::apply::types::{
    files_view, manifest_paths, strings_view, ApplyOutcome, ExtractedFiles, FileContent, Manifest,
    ManifestEntry,
};
use crate::text::{
    append, append_str, contains, contains_str, decimal, decimal_chars, eq_ignore_ascii_case,
    eq_ignore_case, eq_str, from_chars, lines, split_char, split_lines, split_on, starts_with,
    starts_with_str, to_chars, trim, trim_chars, views,
};

verus! {

// ---------------------------------------------------------------------
// Model
// ---------------------------------------------------------------------

/// Files that a reply may never overwrite (compared ignoring ASCII case).
pub open spec fn is_protected_spec(p: Seq<char>) -> bool {
    ||| eq_ignore_ascii_case("ROADMAP.md"@, p)
    ||| eq_ignore_ascii_case(".slopchopignore"@, p)
    ||| eq_ignore_ascii_case("slopchop.toml"@, p)
    ||| eq_ignore_ascii_case("Cargo.lock"@, p)
    ||| eq_ignore_ascii_case("package-lock.json"@, p)
    ||| eq_ignore_ascii_case("yarn.lock"@, p)
}

/// Path components that a reply may never touch.
pub open spec fn is_blocked(c: Seq<char>) -> bool {
    ||| c == ".git"@
    ||| c == ".env"@
    ||| c == ".ssh"@
    ||| c == ".aws"@
    ||| c == ".gnupg"@
    ||| c == "id_rsa"@
    ||| c == "credentials"@
    ||| c == ".slopchop_apply_backup"@
}

/// A hidden component, other than the few dot-files a reply may write.
pub open spec fn is_hidden(c: Seq<char>) -> bool {
    starts_with(c, "."@) && c != ".gitignore"@ && c != ".slopchopignore"@ && c != ".github"@
}

/// The pieces of a path that are neither empty, `.` nor `..`: its normal
/// components.
pub open spec fn is_normal(c: Seq<char>) -> bool {
    c.len() > 0 && c != "."@ && c != ".."@
}

/// The error for the first normal component that is blocked or hidden.
pub open spec fn component_error(cs: Seq<Seq<char>>) -> Option<Seq<char>>
    decreases cs.len(),
{
    if cs.len() == 0 {
        None
    } else {
        let c = cs[0];
        if is_normal(c) && is_blocked(c) {
            Some("Access to sensitive directory blocked: "@ + c)
        } else if is_normal(c) && is_hidden(c) {
            Some("Hidden files blocked: "@ + c)
        } else {
            component_error(cs.drop_first())
        }
    }
}

/// Why a (Unix) path is refused, if it is: it is absolute, it climbs with
/// `..`, or one of its components is blocked or hidden.
pub open spec fn path_error(p: Seq<char>) -> Option<Seq<char>> {
    if starts_with(p, "/"@) {
        Some("Absolute paths not allowed: "@ + p)
    } else if split_char(p, '/').contains(".."@) {
        Some("Path traversal not allowed: "@ + p)
    } else {
        component_error(split_char(p, '/'))
    }
}

/// A trimmed line that marks code the model left out.
pub open spec fn is_truncation(t: Seq<char>) -> bool {
    &&& (contains(t, "// ..."@) || contains(t, "/* ... */"@) || contains(t, "# ..."@) || contains(
        t,
        "// rest of"@,
    ) || contains(t, "// remaining"@) || contains(t, "# rest of"@) || contains(t, "# remaining"@)
        || contains(t, "<!-- ... -->"@))
    &&& !contains(t, "slopchop:ignore"@)
}

/// The number (from 1) of the first truncation line at or after line `i`.
pub open spec fn truncation_from(ls: Seq<Seq<char>>, i: int) -> Option<int>
    decreases ls.len() - i,
{
    if i < 0 || i >= ls.len() {
        None
    } else if is_truncation(trim(ls[i])) {
        Some(i + 1)
    } else {
        truncation_from(ls, i + 1)
    }
}

/// Why the content of file `p` is refused, if it is: it is blank, holds a
/// Markdown fence, or has a truncation line.
pub open spec fn content_error(p: Seq<char>, content: Seq<char>) -> Option<Seq<char>> {
    if trim(content).len() == 0 {
        Some("File is empty: "@ + p)
    } else if contains(content, "```"@) || contains(content, "~~~"@) {
        Some("Markdown fences detected in "@ + p + ". Content must be raw code."@)
    } else {
        match truncation_from(lines(content), 0) {
            Some(n) => Some(
                "Truncation detected in "@ + p + " at line "@ + decimal(n as nat)
                    + ": AI gave up."@,
            ),
            None => None,
        }
    }
}

/// An optional error as a list of zero or one.
pub open spec fn opt_list(o: Option<Seq<char>>) -> Seq<Seq<char>> {
    match o {
        Some(e) => seq![e],
        None => Seq::empty(),
    }
}

/// The errors of the manifest entries with paths `ps`, in order.
pub open spec fn entry_errors(ps: Seq<Seq<char>>) -> Seq<Seq<char>>
    decreases ps.len(),
{
    if ps.len() == 0 {
        Seq::empty()
    } else {
        let p = ps.last();
        entry_errors(ps.drop_last()) + opt_list(path_error(p)) + if is_protected_spec(p) {
            seq!["Cannot overwrite protected file: "@ + p]
        } else {
            Seq::empty()
        }
    }
}

/// The errors of the extracted files `fs`, given the manifest paths `ps`.
pub open spec fn file_errors(ps: Seq<Seq<char>>, fs: Seq<(Seq<char>, Seq<char>)>) -> Seq<Seq<char>>
    decreases fs.len(),
{
    if fs.len() == 0 {
        Seq::empty()
    } else {
        let (p, c) = fs.last();
        file_errors(ps, fs.drop_last()) + (if ps.contains(p) {
            Seq::empty()
        } else {
            seq!["File extracted but not in manifest: "@ + p]
        }) + opt_list(content_error(p, c))
    }
}

/// All validation errors of a reply.
pub open spec fn validation_errors(ps: Seq<Seq<char>>, fs: Seq<(Seq<char>, Seq<char>)>) -> Seq<
    Seq<char>,
> {
    entry_errors(ps) + file_errors(ps, fs)
}

/// `o` is the outcome of a validation that found `errs`.
pub open spec fn validation_outcome(o: ApplyOutcome, errs: Seq<Seq<char>>) -> bool {
    if errs.len() == 0 {
        o matches ApplyOutcome::Success { written, deleted, roadmap_results, backed_up } && written@.len()
            == 0 && deleted@.len() == 0 && roadmap_results@.len() == 0 && !backed_up
    } else {
        o matches ApplyOutcome::ValidationFailure { errors, missing, ai_message } && strings_view(
            errors@,
        ) == errs && missing@.len() == 0 && ai_message@.len() == 0
    }
}

// ---------------------------------------------------------------------
// Executable
// ---------------------------------------------------------------------

fn message(prefix: &str, v: &Vec<char>) -> (r: String)
    ensures
        r@ == prefix@ + v@,
{
    let mut out: Vec<char> = Vec::new();
    append_str(&mut out, prefix);
    append(&mut out, v);
    from_chars(&out)
}

fn is_blocked_chars(c: &Vec<char>) -> (r: bool)
    ensures
        r == is_blocked(c@),
{
    eq_str(c, ".git") || eq_str(c, ".env") || eq_str(c, ".ssh") || eq_str(c, ".aws") || eq_str(
        c,
        ".gnupg",
    ) || eq_str(c, "id_rsa") || eq_str(c, "credentials") || eq_str(c, ".slopchop_apply_backup")
}

fn is_hidden_chars(c: &Vec<char>) -> (r: bool)
    ensures
        r == is_hidden(c@),
{
    starts_with_str(c, ".") && !eq_str(c, ".gitignore") && !eq_str(c, ".slopchopignore") && !eq_str(
        c,
        ".github",
    )
}

fn is_normal_chars(c: &Vec<char>) -> (r: bool)
    ensures
        r == is_normal(c@),
{
    c.len() > 0 && !eq_str(c, ".") && !eq_str(c, "..")
}

/// Checks where a file may be written.
fn validate_path(path: &str) -> (r: Result<(), String>)
    ensures
        match path_error(path@) {
            Some(e) => r matches Err(m) && m@ == e,
            None => r is Ok,
        },
{
    let p = to_chars(path);
    if starts_with_str(&p, "/") {
        return Err(message("Absolute paths not allowed: ", &p));
    }
    let parts = split_on(&p, '/');
    let ghost pv = views(parts@);
    let mut k: usize = 0;
    while k < parts.len()
        invariant
            k <= parts.len(),
            pv == views(parts@),
            pv == split_char(path@, '/'),
            p@ == path@,
            !starts_with(path@, "/"@),
            forall|j: int| 0 <= j < k ==> #[trigger] pv[j] != ".."@,
        decreases parts.len() - k,
    {
        assert(pv[k as int] == parts@[k as int]@);
        if eq_str(&parts[k], "..") {
            assert(pv.contains(".."@));
            return Err(message("Path traversal not allowed: ", &p));
        }
        k += 1;
    }
    assert(!pv.contains(".."@));
    assert(pv.subrange(0, pv.len() as int) =~= pv);
    let mut i: usize = 0;
    while i < parts.len()
        invariant
            i <= parts.len(),
            pv == views(parts@),
            pv == split_char(path@, '/'),
            !starts_with(path@, "/"@),
            !pv.contains(".."@),
            component_error(pv) == component_error(pv.subrange(i as int, pv.len() as int)),
        decreases parts.len() - i,
    {
        let c = &parts[i];
        let ghost rest = pv.subrange(i as int, pv.len() as int);
        assert(rest[0] == c@);
        assert(rest.drop_first() =~= pv.subrange(i + 1, pv.len() as int));
        if is_normal_chars(c) && is_blocked_chars(c) {
            return Err(message("Access to sensitive directory blocked: ", c));
        }
        if is_normal_chars(c) && is_hidden_chars(c) {
            return Err(message("Hidden files blocked: ", c));
        }
        i += 1;
    }
    Ok(())
}

/// Whether `path` names a protected file.
fn is_protected(path: &str) -> (r: bool)
    ensures
        r == is_protected_spec(path@),
{
    let p = to_chars(path);
    eq_ignore_case(&to_chars("ROADMAP.md"), &p) || eq_ignore_case(&to_chars(".slopchopignore"), &p)
        || eq_ignore_case(&to_chars("slopchop.toml"), &p) || eq_ignore_case(
        &to_chars("Cargo.lock"),
        &p,
    ) || eq_ignore_case(&to_chars("package-lock.json"), &p) || eq_ignore_case(
        &to_chars("yarn.lock"),
        &p,
    )
}

fn is_truncation_chars(t: &Vec<char>) -> (r: bool)
    ensures
        r == is_truncation(t@),
{
    (contains_str(t, "// ...") || contains_str(t, "/* ... */") || contains_str(t, "# ...")
        || contains_str(t, "// rest of") || contains_str(t, "// remaining") || contains_str(
        t,
        "# rest of",
    ) || contains_str(t, "# remaining") || contains_str(t, "<!-- ... -->")) && !contains_str(
        t,
        "slopchop:ignore",
    )
}

/// The number of the first line that marks left-out code.
fn detect_truncation(content: &str) -> (r: Option<usize>)
    ensures
        match r {
            Some(n) => truncation_from(lines(content@), 0) == Some(n as int),
            None => truncation_from(lines(content@), 0) is None,
        },
{
    let c = to_chars(content);
    let ls = split_lines(&c);
    let ghost lv = views(ls@);
    let mut i: usize = 0;
    while i < ls.len()
        invariant
            i <= ls.len(),
            lv == views(ls@),
            lv == lines(content@),
            truncation_from(lv, 0) == truncation_from(lv, i as int),
        decreases ls.len() - i,
    {
        assert(lv[i as int] == ls@[i as int]@);
        let t = trim_chars(&ls[i]);
        if is_truncation_chars(&t) {
            return Some(i + 1);
        }
        i += 1;
    }
    None
}

/// Checks the content of one file block.
fn validate_content(path: &str, content: &str) -> (r: Result<(), String>)
    ensures
        match content_error(path@, content@) {
            Some(e) => r matches Err(m) && m@ == e,
            None => r is Ok,
        },
{
    let c = to_chars(content);
    let t = trim_chars(&c);
    if t.len() == 0 {
        let mut out: Vec<char> = Vec::new();
        append_str(&mut out, "File is empty: ");
        append_str(&mut out, path);
        return Err(from_chars(&out));
    }
    if contains_str(&c, "```") || contains_str(&c, "~~~") {
        let mut out: Vec<char> = Vec::new();
        append_str(&mut out, "Markdown fences detected in ");
        append_str(&mut out, path);
        append_str(&mut out, ". Content must be raw code.");
        return Err(from_chars(&out));
    }
    match detect_truncation(content) {
        Some(n) => {
            let mut out: Vec<char> = Vec::new();
            append_str(&mut out, "Truncation detected in ");
            append_str(&mut out, path);
            append_str(&mut out, " at line ");
            let d = decimal_chars(n);
            append(&mut out, &d);
            append_str(&mut out, ": AI gave up.");
            Err(from_chars(&out))
        },
        None => Ok(()),
    }
}

fn in_manifest(manifest: &Manifest, path: &String) -> (r: bool)
    ensures
        r == manifest_paths(manifest@).contains(path@),
{
    let ghost ps = manifest_paths(manifest@);
    let mut i: usize = 0;
    while i < manifest.len()
        invariant
            i <= manifest.len(),
            ps == manifest_paths(manifest@),
            forall|j: int| 0 <= j < i ==> #[trigger] ps[j] != path@,
        decreases manifest.len() - i,
    {
        assert(ps[i as int] == manifest@[i as int].path@);
        if manifest[i].path == *path {
            assert(ps.contains(path@));
            return true;
        }
        i += 1;
    }
    assert(!ps.contains(path@));
    false
}

/// Checks every manifest path and every extracted file; `Success` with
/// nothing written when all pass, else `ValidationFailure` with the errors
/// in order (manifest entries first, then files).
pub fn validate(manifest: &Manifest, extracted: &ExtractedFiles) -> (r: ApplyOutcome)
    ensures
        validation_outcome(
            r,
            validation_errors(manifest_paths(manifest@), files_view(extracted@)),
        ),
{
    let ghost ps = manifest_paths(manifest@);
    let ghost fs = files_view(extracted@);
    let mut errors: Vec<String> = Vec::new();
    let mut i: usize = 0;
    while i < manifest.len()
        invariant
            i <= manifest.len(),
            ps == manifest_paths(manifest@),
            strings_view(errors@) == entry_errors(ps.take(i as int)),
        decreases manifest.len() - i,
    {
        let entry = &manifest[i];
        let ghost e0 = strings_view(errors@);
        proof {
            assert(ps.take(i + 1).drop_last() =~= ps.take(i as int));
            assert(ps.take(i + 1).last() == entry.path@);
        }
        match validate_path(entry.path.as_str()) {
            Err(e) => errors.push(e),
            Ok(()) => {},
        }
        let ghost e1 = strings_view(errors@);
        assert(e1 =~= e0 + opt_list(path_error(entry.path@)));
        if is_protected(entry.path.as_str()) {
            let v = to_chars(entry.path.as_str());
            errors.push(message("Cannot overwrite protected file: ", &v));
        }
        assert(strings_view(errors@) =~= entry_errors(ps.take(i + 1)));
        i += 1;
    }
    assert(ps.take(manifest.len() as int) =~= ps);
    let ghost head = strings_view(errors@);
    let mut j: usize = 0;
    while j < extracted.len()
        invariant
            j <= extracted.len(),
            ps == manifest_paths(manifest@),
            fs == files_view(extracted@),
            head == entry_errors(ps),
            strings_view(errors@) == head + file_errors(ps, fs.take(j as int)),
        decreases extracted.len() - j,
    {
        let (path, content) = &extracted[j];
        let ghost e0 = strings_view(errors@);
        proof {
            assert(fs.take(j + 1).drop_last() =~= fs.take(j as int));
            assert(fs.take(j + 1).last() == (path@, content.content@));
        }
        if !in_manifest(manifest, path) {
            let v = to_chars(path.as_str());
            errors.push(message("File extracted but not in manifest: ", &v));
        }
        let ghost e1 = strings_view(errors@);
        assert(e1 =~= e0 + (if ps.contains(path@) {
            Seq::empty()
        } else {
            seq!["File extracted but not in manifest: "@ + path@]
        }));
        match validate_content(path.as_str(), content.content.as_str()) {
            Err(e) => errors.push(e),
            Ok(()) => {},
        }
        assert(strings_view(errors@) =~= e1 + opt_list(content_error(path@, content.content@)));
        assert(strings_view(errors@) =~= head + file_errors(ps, fs.take(j + 1)));
        j += 1;
    }
    assert(fs.take(extracted.len() as int) =~= fs);
    if errors.len() == 0 {
        ApplyOutcome::Success {
            written: Vec::new(),
            deleted: Vec::new(),
            roadmap_results: Vec::new(),
            backed_up: false,
        }
    } else {
        ApplyOutcome::ValidationFailure { errors, missing: Vec::new(), ai_message: String::new() }
    }
}

} // verus!
