//! How far a transfer has come, in figures and in words.

use vstd::prelude::*;
use vstd::string::StringExecFns;
use crate::text::{decimal, decimal_text, push_char};

verus! {

/// What is shown in the size column for a directory.
pub const DIRECTORY_SIZE_TEXT: &'static str = "<DIR>";

/// The share of `total_bytes` that `partial_bytes` is, in whole percent,
/// rounded down. Nothing of anything, and anything of nothing, is 0 percent.
pub open spec fn progress_percentage(partial_bytes: u64, total_bytes: u64) -> u64 {
    if partial_bytes == 0 || total_bytes == 0 {
        0
    } else if partial_bytes * 100 / (total_bytes as int) > u64::MAX {
        u64::MAX
    } else {
        (partial_bytes * 100 / (total_bytes as int)) as u64
    }
}

/// The share of `total_bytes` that `partial_bytes` is, in whole percent.
pub fn calculate_progress_percentage(partial_bytes: u64, total_bytes: u64) -> (r: u64)
    ensures
        r == progress_percentage(partial_bytes, total_bytes),
{
    if partial_bytes != 0 && total_bytes != 0 {
        let percent: u128 = (partial_bytes as u128) * 100 / (total_bytes as u128);
        if percent > u64::MAX as u128 {
            u64::MAX
        } else {
            percent as u64
        }
    } else {
        0
    }
}

/// A number of seconds as hours, minutes below 60 and seconds below 60.
pub fn elapsed_parts(seconds: u64) -> (r: (u64, u64, u64))
    ensures
        r.0 == seconds / 3600,
        r.1 == (seconds / 60) % 60,
        r.2 == seconds % 60,
        r.0 * 3600 + r.1 * 60 + r.2 == seconds,
{
    (seconds / 60 / 60, (seconds / 60) % 60, seconds % 60)
}

/// The time a transfer has taken, in words: `1h:2m:3s`.
pub open spec fn elapsed_text(seconds: u64) -> Seq<char> {
    decimal_text((seconds / 3600) as nat) + "h:"@ + decimal_text(((seconds / 60) % 60) as nat)
        + "m:"@ + decimal_text((seconds % 60) as nat) + "s"@
}

/// The time a transfer has taken, in words.
pub fn elapsed_label(seconds: u64) -> (r: String)
    ensures
        r@ == elapsed_text(seconds),
{
    let (hours, minutes, rest) = elapsed_parts(seconds);
    let mut text = decimal(hours);
    text.append("h:");
    text.append(decimal(minutes).as_str());
    text.append("m:");
    text.append(decimal(rest).as_str());
    text.append("s");
    text
}

/// What `humansize` writes for a number of bytes with its decimal options:
/// the number scaled by thousands, with up to two decimal places, a space
/// and the unit, such as `1 MB`.
pub uninterp spec fn decimal_size_text(size: u64) -> Seq<char>;

/// Writes a number of bytes for a reader.
///
/// This shows a `humansize::SizeFormatter` with the options
/// `humansize::DECIMAL`. What it writes depends on the number alone.
#[verifier::external_body]
fn format_size(size: u64) -> (r: String)
    ensures
        r@ == decimal_size_text(size),
{
    format!("{}", humansize::SizeFormatter::new(size, humansize::DECIMAL))
}

/// What the size column shows: the size as written for a reader, or the
/// mark of a directory where there is no size.
pub fn size_cell_of(size_text: Option<String>) -> (r: String)
    ensures
        r@ == match size_text {
            Some(text) => text@,
            None => DIRECTORY_SIZE_TEXT@,
        },
{
    match size_text {
        Some(text) => text,
        None => DIRECTORY_SIZE_TEXT.to_owned(),
    }
}

/// What the size column shows for an entry of the given size.
pub fn size_cell(size: Option<u64>) -> (r: String)
    ensures
        r@ == match size {
            Some(size) => decimal_size_text(size),
            None => DIRECTORY_SIZE_TEXT@,
        },
{
    match size {
        Some(size) => size_cell_of(Some(format_size(size))),
        None => size_cell_of(None),
    }
}

/// Two sizes, as written for a reader, with a slash between them.
pub fn sizes_label_of(done: &str, total: &str) -> (r: String)
    ensures
        r@ == done@ + seq!['/'] + total@,
{
    let mut text = done.to_owned();
    push_char(&mut text, '/');
    text.append(total);
    text
}

/// How much of how much is done, written for a reader: `1 kB/1 MB`.
pub fn sizes_label(done: u64, total: u64) -> (r: String)
    ensures
        r@ == decimal_size_text(done) + seq!['/'] + decimal_size_text(total),
{
    sizes_label_of(format_size(done).as_str(), format_size(total).as_str())
}

} // verus!
