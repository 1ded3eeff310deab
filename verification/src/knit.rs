//! The formats of the `knit` packer: each file in a `<file>` element, or
//! all of them in an XML document list with the text in CDATA sections.
use vstd::prelude::*;
use crate::pack::{push_all, read_view, slash_path, slashed, PackedFile};
use crate::text::{append, append_str, replace, replace_str, to_chars};

verus! {

/// One file of the text format.
pub open spec fn text_block(path: Seq<char>, t: Result<Seq<char>, Seq<char>>) -> Seq<char> {
    "<file path=\""@ + slashed(path) + "\">\n"@ + match t {
        Ok(c) => c,
        Err(e) => "<ERROR READING FILE: "@ + e + ">\n"@,
    } + "</file>\n\n"@
}

/// The text format of `files`.
pub open spec fn text_pack(files: Seq<PackedFile>) -> Seq<char>
    decreases files.len(),
{
    if files.len() == 0 {
        Seq::empty()
    } else {
        text_pack(files.drop_last()) + text_block(files.last().path@, read_view(files.last().full))
    }
}

/// Text inside a CDATA section: every `]]>` split across two sections.
pub open spec fn cdata_escaped(c: Seq<char>) -> Seq<char> {
    replace(c, "]]>"@, "]]]]><![CDATA[>"@)
}

/// One file of the XML format.
pub open spec fn xml_block(path: Seq<char>, t: Result<Seq<char>, Seq<char>>) -> Seq<char> {
    "  <document path=\""@ + slashed(path) + "\"><![CDATA[\n"@ + match t {
        Ok(c) => cdata_escaped(c),
        Err(e) => "ERROR READING FILE: "@ + e + "\n"@,
    } + "]]></document>\n"@
}

/// The documents of the XML format.
pub open spec fn xml_blocks(files: Seq<PackedFile>) -> Seq<char>
    decreases files.len(),
{
    if files.len() == 0 {
        Seq::empty()
    } else {
        xml_blocks(files.drop_last()) + xml_block(files.last().path@, read_view(files.last().full))
    }
}

/// Appends the text format of `files`.
pub fn pack_text(files: &[PackedFile], out: &mut String)
    ensures
        final(out)@ == old(out)@ + text_pack(files@),
{
    let ghost o0 = out@;
    let mut i: usize = 0;
    while i < files.len()
        invariant
            i <= files.len(),
            out@ == o0 + text_pack(files@.take(i as int)),
        decreases files.len() - i,
    {
        proof {
            assert(files@.take(i + 1).drop_last() =~= files@.take(i as int));
            assert(files@.take(i + 1).last() == files@[i as int]);
        }
        let f = &files[i];
        let mut b: Vec<char> = Vec::new();
        append_str(&mut b, "<file path=\"");
        append(&mut b, &slash_path(f.path.as_str()));
        append_str(&mut b, "\">\n");
        match &f.full {
            Ok(c) => append_str(&mut b, c.as_str()),
            Err(e) => {
                append_str(&mut b, "<ERROR READING FILE: ");
                append_str(&mut b, e.as_str());
                append_str(&mut b, ">\n");
            },
        }
        append_str(&mut b, "</file>\n\n");
        assert(b@ =~= text_block(f.path@, read_view(f.full)));
        push_all(out, &b);
        assert(out@ =~= o0 + text_pack(files@.take(i + 1)));
        i += 1;
    }
    assert(files@.take(files.len() as int) =~= files@);
}

/// Appends the XML format of `files`.
pub fn pack_xml(files: &[PackedFile], out: &mut String)
    ensures
        final(out)@ == old(out)@ + "<documents>\n"@ + xml_blocks(files@) + "</documents>\n"@,
{
    let ghost o0 = out@;
    push_all(out, &to_chars("<documents>\n"));
    let ghost o1 = out@;
    let mut i: usize = 0;
    while i < files.len()
        invariant
            i <= files.len(),
            out@ == o1 + xml_blocks(files@.take(i as int)),
        decreases files.len() - i,
    {
        proof {
            assert(files@.take(i + 1).drop_last() =~= files@.take(i as int));
            assert(files@.take(i + 1).last() == files@[i as int]);
        }
        let f = &files[i];
        let mut b: Vec<char> = Vec::new();
        append_str(&mut b, "  <document path=\"");
        append(&mut b, &slash_path(f.path.as_str()));
        append_str(&mut b, "\"><![CDATA[\n");
        match &f.full {
            Ok(c) => {
                proof {
                    reveal_strlit("]]>");
                }
                let esc = replace_str(&to_chars(c.as_str()), "]]>", "]]]]><![CDATA[>");
                append(&mut b, &esc);
            },
            Err(e) => {
                append_str(&mut b, "ERROR READING FILE: ");
                append_str(&mut b, e.as_str());
                append_str(&mut b, "\n");
            },
        }
        append_str(&mut b, "]]></document>\n");
        assert(b@ =~= xml_block(f.path@, read_view(f.full)));
        push_all(out, &b);
        assert(out@ =~= o1 + xml_blocks(files@.take(i + 1)));
        i += 1;
    }
    assert(files@.take(files.len() as int) =~= files@);
    push_all(out, &to_chars("</documents>\n"));
}

} // verus!
