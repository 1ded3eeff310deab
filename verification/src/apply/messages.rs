//! The texts handed back to the model when a reply is refused.
use vstd::prelude::*;
use crate::apply::types::strings_view;
use crate::text::{append, append_str, contains, contains_str, from_chars, to_chars, trim, trim_str};

verus! {

/// Each item on a line of its own, after `- `.
pub open spec fn bullets(items: Seq<Seq<char>>) -> Seq<char>
    decreases items.len(),
{
    if items.len() == 0 {
        Seq::empty()
    } else {
        bullets(items.drop_last()) + "- "@ + items.last() + "\n"@
    }
}

/// An error that calls for the hint about the ignore marker.
pub open spec fn wants_hint(e: Seq<char>) -> bool {
    contains(e, "truncation marker"@) || contains(e, "Banned"@)
}

/// The message that tells the model why its reply was refused.
pub open spec fn rejection_text(missing: Seq<Seq<char>>, errors: Seq<Seq<char>>) -> Seq<char> {
    "The previous output was rejected by the Warden Protocol.\n\n"@ + (if missing.len() > 0 {
        "MISSING FILES (Declared in MANIFEST but no #__WARDEN_FILE__# block found):\n"@ + bullets(
            missing,
        ) + "\n"@
    } else {
        Seq::empty()
    }) + (if errors.len() > 0 {
        "VALIDATION ERRORS:\n"@ + bullets(errors) + "\n"@ + if exists|i: int|
            0 <= i < errors.len() && wants_hint(#[trigger] errors[i]) {
            "TIP: If you are actively 'dogfooding' or intentionally using banned patterns, use '// warden:ignore' to bypass.\n\n"@
        } else {
            Seq::empty()
        }
    } else {
        Seq::empty()
    }) + "Please provide the missing or corrected files using #__WARDEN_FILE__# path ... #__WARDEN_END__#"@
}

/// Appends the items as bullets; tells whether one of them wants the hint.
fn push_bullets(out: &mut Vec<char>, items: &[String]) -> (hint: bool)
    ensures
        final(out)@ == old(out)@ + bullets(strings_view(items@)),
        hint == exists|i: int| 0 <= i < items@.len() && wants_hint(#[trigger] strings_view(items@)[i]),
{
    let ghost o0 = out@;
    let ghost iv = strings_view(items@);
    let mut hint = false;
    let mut i: usize = 0;
    while i < items.len()
        invariant
            i <= items.len(),
            iv == strings_view(items@),
            out@ == o0 + bullets(iv.take(i as int)),
            hint == exists|k: int| 0 <= k < i && wants_hint(#[trigger] iv[k]),
        decreases items.len() - i,
    {
        let e = &items[i];
        assert(iv[i as int] == e@);
        append_str(out, "- ");
        append_str(out, e.as_str());
        append_str(out, "\n");
        let v = to_chars(e.as_str());
        let w = contains_str(&v, "truncation marker") || contains_str(&v, "Banned");
        if w {
            hint = true;
        }
        proof {
            assert(iv.take(i + 1).drop_last() =~= iv.take(i as int));
            assert(out@ =~= o0 + bullets(iv.take(i + 1)));
        }
        i += 1;
    }
    assert(iv.take(items.len() as int) =~= iv);
    hint
}

/// The message that tells the model which files were missing and which
/// errors were found, and asks for corrected files.
pub fn format_ai_rejection(missing: &[String], errors: &[String]) -> (r: String)
    ensures
        r@ == rejection_text(strings_view(missing@), strings_view(errors@)),
{
    let mut msg: Vec<char> = Vec::new();
    append_str(&mut msg, "The previous output was rejected by the Warden Protocol.\n\n");
    let ghost a = msg@;
    if missing.len() > 0 {
        append_str(
            &mut msg,
            "MISSING FILES (Declared in MANIFEST but no #__WARDEN_FILE__# block found):\n",
        );
        push_bullets(&mut msg, missing);
        append_str(&mut msg, "\n");
    }
    let ghost b = msg@;
    if errors.len() > 0 {
        append_str(&mut msg, "VALIDATION ERRORS:\n");
        let hint = push_bullets(&mut msg, errors);
        append_str(&mut msg, "\n");
        if hint {
            append_str(
                &mut msg,
                "TIP: If you are actively 'dogfooding' or intentionally using banned patterns, use '// warden:ignore' to bypass.\n\n",
            );
        }
    }
    append_str(
        &mut msg,
        "Please provide the missing or corrected files using #__WARDEN_FILE__# path ... #__WARDEN_END__#",
    );
    assert(msg@ =~= rejection_text(strings_view(missing@), strings_view(errors@)));
    from_chars(&msg)
}

/// The message for checks that failed after the files were written.
pub open spec fn verification_failure_text(output: Seq<char>) -> Seq<char> {
    "The changes were applied, but post-application verification failed.\n\nFAILURE LOG:\n"@
        + trim(output) + "\n\nPlease fix the implementation so that checks pass."@
}

/// The message for checks that failed after the files were written, with
/// their trimmed log.
pub fn format_verification_failure(output: &str) -> (r: String)
    ensures
        r@ == verification_failure_text(output@),
{
    let mut msg: Vec<char> = Vec::new();
    append_str(
        &mut msg,
        "The changes were applied, but post-application verification failed.\n\nFAILURE LOG:\n",
    );
    let t = trim_str(output);
    append(&mut msg, &t);
    append_str(&mut msg, "\n\nPlease fix the implementation so that checks pass.");
    from_chars(&msg)
}

} // verus!
