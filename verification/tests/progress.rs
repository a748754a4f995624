use twc::progress::{
    calculate_progress_percentage, elapsed_label, elapsed_parts, size_cell, size_cell_of,
    sizes_label, sizes_label_of,
};
use twc::text::decimal;

#[test]
fn test_calculate_progress_percentage() {
    let copied_bytes = 1024;
    let total_bytes = 4086;
    let percentage = calculate_progress_percentage(copied_bytes, total_bytes);
    assert_eq!(percentage, 25);
}

#[test]
fn test_calculate_progress_percentage_with_zero_should_not_panic() {
    let copied_bytes = 0;
    let total_bytes = 0;
    let percentage = calculate_progress_percentage(copied_bytes, total_bytes);
    assert_eq!(percentage, 0);
}

#[test]
fn percentage_is_rounded_down_and_never_wraps() {
    assert_eq!(calculate_progress_percentage(1, 3), 33);
    assert_eq!(calculate_progress_percentage(2, 3), 66);
    assert_eq!(calculate_progress_percentage(3, 3), 100);
    assert_eq!(calculate_progress_percentage(29, 100), 29);
    assert_eq!(calculate_progress_percentage(5, 0), 0);
    assert_eq!(calculate_progress_percentage(0, 5), 0);
    assert_eq!(calculate_progress_percentage(u64::MAX, u64::MAX), 100);
    assert_eq!(calculate_progress_percentage(u64::MAX, 1), u64::MAX);
    assert_eq!(calculate_progress_percentage(10, 5), 200);
}

#[test]
fn elapsed_time_in_parts_and_words() {
    assert_eq!(elapsed_parts(0), (0, 0, 0));
    assert_eq!(elapsed_parts(59), (0, 0, 59));
    assert_eq!(elapsed_parts(3723), (1, 2, 3));
    assert_eq!(elapsed_label(3723), "1h:2m:3s");
    assert_eq!(elapsed_label(0), "0h:0m:0s");
    assert_eq!(elapsed_label(86_400 + 59), "24h:0m:59s");
}

#[test]
fn numbers_in_decimal() {
    assert_eq!(decimal(0), "0");
    assert_eq!(decimal(7), "7");
    assert_eq!(decimal(10), "10");
    assert_eq!(decimal(1905), "1905");
    assert_eq!(decimal(u64::MAX), "18446744073709551615");
}

#[test]
fn sizes_are_written_for_a_reader() {
    assert_eq!(size_cell(Some(1_000_000)), "1 MB");
    assert_eq!(size_cell(Some(816)), "816 B");
    assert_eq!(size_cell(Some(8467)), "8.47 kB");
    assert_eq!(size_cell(Some(0)), "0 B");
    assert_eq!(size_cell(None), "<DIR>");
    assert_eq!(size_cell_of(Some(String::from("12 kB"))), "12 kB");
    assert_eq!(size_cell_of(None), "<DIR>");
}

#[test]
fn done_and_total_share_a_label() {
    assert_eq!(sizes_label(1_000, 1_000_000), "1 kB/1 MB");
    assert_eq!(sizes_label(0, 0), "0 B/0 B");
    assert_eq!(sizes_label_of("a", "b"), "a/b");
    assert_eq!(sizes_label_of("", ""), "/");
}
