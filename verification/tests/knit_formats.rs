use warden::knit::{pack_text, pack_xml};
use warden::pack::PackedFile;

fn file(path: &str, full: Result<&str, &str>) -> PackedFile {
    PackedFile {
        path: path.to_string(),
        full: full.map(str::to_string).map_err(str::to_string),
        skeleton: Err("unused".to_string()),
    }
}

#[test]
fn text_format_wraps_each_file() {
    let mut out = String::new();
    pack_text(&[file("src\\a.rs", Ok("fn a() {}\n")), file("b.rs", Err("denied"))], &mut out);
    assert_eq!(
        out,
        "<file path=\"src/a.rs\">\nfn a() {}\n</file>\n\n<file path=\"b.rs\">\n<ERROR READING FILE: denied>\n</file>\n\n"
    );
}

#[test]
fn xml_format_splits_cdata_terminators() {
    let mut out = String::new();
    pack_xml(&[file("x.md", Ok("a]]>b"))], &mut out);
    assert_eq!(
        out,
        "<documents>\n  <document path=\"x.md\"><![CDATA[\na]]]]><![CDATA[>b]]></document>\n</documents>\n"
    );
    let mut empty = String::new();
    pack_xml(&[], &mut empty);
    assert_eq!(empty, "<documents>\n</documents>\n");
}
