//! The commit message for applied files.
use vstd::prelude::*;
use crate::apply::types::strings_view;
use crate::text::{append, append_str, decimal, decimal_chars, from_chars, join, to_chars, trim, trim_str};

verus! {

/// The commit message: the trimmed plan when there is one; else
/// `warden: update <file>` for one file and
/// `warden: update <n> files (<list>)` for several.
pub open spec fn commit_message_spec(files: Seq<Seq<char>>, plan: Option<Seq<char>>) -> Seq<char> {
    match plan {
        Some(p) => trim(p),
        None => if files.len() == 1 {
            "warden: update "@ + join(files, ", "@)
        } else {
            "warden: update "@ + decimal(files.len()) + " files ("@ + join(files, ", "@) + ")"@
        },
    }
}

/// Joins the strings with `sep`.
fn join_strings(files: &[String], sep: &str) -> (r: Vec<char>)
    ensures
        r@ == join(strings_view(files@), sep@),
{
    let mut parts: Vec<Vec<char>> = Vec::new();
    let mut i: usize = 0;
    while i < files.len()
        invariant
            i <= files.len(),
            crate::text::views(parts@) == strings_view(files@).take(i as int),
        decreases files.len() - i,
    {
        let ghost p0 = crate::text::views(parts@);
        parts.push(to_chars(files[i].as_str()));
        proof {
            assert(crate::text::views(parts@) =~= p0.push(files@[i as int]@));
            assert(crate::text::views(parts@) =~= strings_view(files@).take(i + 1));
        }
        i += 1;
    }
    assert(strings_view(files@).take(files.len() as int) =~= strings_view(files@));
    let s = to_chars(sep);
    crate::text::join_chars(&parts, &s)
}

/// The commit message for `files`, or the plan when there is one.
pub fn construct_message(files: &[String], plan: Option<&str>) -> (r: String)
    ensures
        r@ == commit_message_spec(
            strings_view(files@),
            match plan {
                Some(p) => Some(p@),
                None => None,
            },
        ),
{
    match plan {
        Some(p) => {
            let t = trim_str(p);
            return from_chars(&t);
        },
        None => {},
    }
    let list = join_strings(files, ", ");
    let mut out: Vec<char> = Vec::new();
    append_str(&mut out, "warden: update ");
    if files.len() == 1 {
        append(&mut out, &list);
    } else {
        let n = decimal_chars(files.len());
        append(&mut out, &n);
        append_str(&mut out, " files (");
        append(&mut out, &list);
        append_str(&mut out, ")");
    }
    from_chars(&out)
}

} // verus!
