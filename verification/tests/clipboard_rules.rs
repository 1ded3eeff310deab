use warden::clipboard::{copies_as_file, copy_message, should_delete, temp_file_name, TEMP_PREFIX};

#[test]
fn temp_files_are_named_by_timestamp() {
    assert_eq!(temp_file_name(1_700_000_000_123_456_789), "warden_clipboard_1700000000123456789.txt");
    assert_eq!(temp_file_name(0), "warden_clipboard_0.txt");
    assert!(temp_file_name(42).starts_with(TEMP_PREFIX));
}

#[test]
fn only_old_clipboard_files_are_deleted() {
    let limit = 15 * 60 * 1_000_000_000u128;
    assert!(should_delete("warden_clipboard_1.txt", limit + 1, limit));
    assert!(!should_delete("warden_clipboard_1.txt", limit, limit));
    assert!(!should_delete("other_file.txt", limit * 2, limit));
}

#[test]
fn large_text_is_copied_as_a_file() {
    assert!(!copies_as_file(1499));
    assert!(copies_as_file(1500));
    assert_eq!(copy_message(10, None), "Text copied to clipboard");
    assert_eq!(
        copy_message(2000, Some("warden_clipboard_5.txt")),
        "Large content (2000 tokens). Copied as file attachment: warden_clipboard_5.txt"
    );
    assert_eq!(copy_message(2000, None), "Large content (2000 tokens). Copied as file attachment: temp_file");
}
