//! Decisions of the clipboard helpers: when text goes to the clipboard as
//! a file, what the temporary files are called, and which are old enough
//! to remove.
use vstd::prelude::*;
use crate::text::{append, append_str, decimal, digit, from_chars, starts_with, starts_with_str, to_chars};

verus! {

/// The name every temporary clipboard file starts with.
pub const TEMP_PREFIX: &'static str = "warden_clipboard_";

/// Text of this many tokens or more is copied as a file.
pub const FILE_COPY_TOKENS: usize = 1500;

/// Decimal rendering of a `u128`.
fn decimal_u128(n: u128) -> (r: Vec<char>)
    ensures
        r@ == decimal(n as nat),
    decreases n,
{
    let d = n % 10;
    let c = if d == 0 { '0' } else if d == 1 { '1' } else if d == 2 { '2' } else if d == 3 {
        '3'
    } else if d == 4 { '4' } else if d == 5 { '5' } else if d == 6 { '6' } else if d == 7 {
        '7'
    } else if d == 8 { '8' } else { '9' };
    assert(c == digit((n % 10) as nat));
    if n < 10 {
        let mut r = Vec::new();
        r.push(c);
        r
    } else {
        let mut r = decimal_u128(n / 10);
        r.push(c);
        r
    }
}

/// The name of the temporary file written at `timestamp` nanoseconds
/// after the epoch.
pub open spec fn temp_name(timestamp: nat) -> Seq<char> {
    TEMP_PREFIX@ + decimal(timestamp) + ".txt"@
}

/// The name of the temporary file written at `timestamp` nanoseconds after
/// the epoch.
pub fn temp_file_name(timestamp: u128) -> (r: String)
    ensures
        r@ == temp_name(timestamp as nat),
{
    let mut out: Vec<char> = Vec::new();
    append_str(&mut out, TEMP_PREFIX);
    append(&mut out, &decimal_u128(timestamp));
    append_str(&mut out, ".txt");
    from_chars(&out)
}

/// Whether a file in the temporary directory is removed: its name starts
/// with the prefix and it is older than the limit.
pub fn should_delete(name: &str, age_nanos: u128, limit_nanos: u128) -> (r: bool)
    ensures
        r == (starts_with(name@, TEMP_PREFIX@) && age_nanos > limit_nanos),
{
    let v = to_chars(name);
    starts_with_str(&v, TEMP_PREFIX) && age_nanos > limit_nanos
}

/// Whether text of `tokens` tokens is copied as a file.
pub fn copies_as_file(tokens: usize) -> (r: bool)
    ensures
        r == (tokens >= FILE_COPY_TOKENS),
{
    tokens >= FILE_COPY_TOKENS
}

/// What a copy reports: the text copy, or the file copy with its size and
/// the file's name (`temp_file` where the path has none).
pub open spec fn copy_report(tokens: nat, file_name: Option<Seq<char>>) -> Seq<char> {
    if tokens < FILE_COPY_TOKENS {
        "Text copied to clipboard"@
    } else {
        "Large content ("@ + decimal(tokens) + " tokens). Copied as file attachment: "@ + match file_name {
            Some(n) => n,
            None => "temp_file"@,
        }
    }
}

/// What a copy of text with `tokens` tokens reports.
pub fn copy_message(tokens: usize, file_name: Option<&str>) -> (r: String)
    ensures
        r@ == copy_report(
            tokens as nat,
            match file_name {
                Some(n) => Some(n@),
                None => None,
            },
        ),
{
    let mut out: Vec<char> = Vec::new();
    if tokens < FILE_COPY_TOKENS {
        append_str(&mut out, "Text copied to clipboard");
    } else {
        append_str(&mut out, "Large content (");
        append(&mut out, &crate::text::decimal_chars(tokens));
        append_str(&mut out, " tokens). Copied as file attachment: ");
        match file_name {
            Some(n) => append_str(&mut out, n),
            None => append_str(&mut out, "temp_file"),
        }
    }
    from_chars(&out)
}

} // verus!
