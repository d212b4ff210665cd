use felix::functions::{
    convert_to_permissions, display_count, duration_to_string, format_time, format_txt,
    is_editable, make_tree, seconds_text, to_proper_size,
};
use felix::errors::FxError;
use std::time::Duration;

#[test]
fn test_format_time() {
    let time1 = Some("1970-01-01 00:00:00".to_string());
    let time2 = None;
    assert_eq!(format_time(&time1), "1970-01-01 00:00".to_string());
    assert_eq!(format_time(&time2), "".to_string());
}

#[test]
fn test_display_count() {
    assert_eq!(display_count(1, 4), "2/4".to_string());
}

#[test]
fn test_proper_size() {
    assert_eq!(to_proper_size(50), "50B".to_string());
    assert_eq!(to_proper_size(2000), "2KB".to_string());
    assert_eq!(to_proper_size(3000000), "3MB".to_string());
    assert_eq!(to_proper_size(6000000000), "6GB".to_string());
}

#[test]
fn test_duration_to_string() {
    assert_eq!(
        duration_to_string(Duration::from_millis(5432)),
        "5.43s".to_string()
    );
}

#[test]
fn test_make_tree() {
    let v = vec![
        "data".to_string(),
        "01.txt".to_string(),
        "2.txt".to_string(),
        "a.txt".to_string(),
        "b.txt".to_string(),
    ];
    let tree = make_tree(v).unwrap();
    let formatted = format_txt(&tree, 50, false);
    assert_eq!(
        tree,
        ("├ data\n├ 01.txt\n├ 2.txt\n├ a.txt\n└ b.txt").to_string()
    );
    assert_eq!(tree.lines().count(), formatted.len());
}

#[test]
fn test_is_editable() {
    let s1 = "Hello, world!";
    let s2 = "image.jpg";
    let s3 = "a̐éö̲\r\n";
    let s4 = "日本の首都は東京です";
    assert!(is_editable(s1));
    assert!(is_editable(s2));
    assert!(!is_editable(s3));
    assert!(!is_editable(s4));
}

#[test]
fn test_convert_to_permissions() {
    let file = 33188;
    let dir = 16877;
    assert_eq!(&convert_to_permissions(file), "644");
    assert_eq!(&convert_to_permissions(dir), "755");
}

#[test]
fn size_boundaries() {
    assert_eq!(to_proper_size(0), "0B");
    assert_eq!(to_proper_size(999), "999B");
    assert_eq!(to_proper_size(1000), "1KB");
    assert_eq!(to_proper_size(999_999), "999KB");
    assert_eq!(to_proper_size(u64::MAX), "18446744073GB");
}

#[test]
fn count_of_large_numbers() {
    assert_eq!(display_count(0, 0), "1/0");
    assert_eq!(display_count(99, 1234), "100/1234");
}

#[test]
fn permissions_of_small_modes() {
    assert_eq!(convert_to_permissions(0), "0");
    assert_eq!(convert_to_permissions(7), "7");
    assert_eq!(convert_to_permissions(0o40700), "700");
}

#[test]
fn seconds_without_fraction() {
    assert_eq!(seconds_text(5, 0), "5s");
    assert_eq!(seconds_text(0, 500_000_000), "0.5s");
    assert_eq!(seconds_text(12345, 0), "1234s");
    assert_eq!(seconds_text(1, 1_000), "1.00s");
    assert_eq!(duration_to_string(Duration::from_millis(120)), "0.12s");
}

#[test]
fn wrap_at_column_and_newlines() {
    let lines = format_txt("abcdef\ngh", 4, false);
    assert_eq!(lines, vec!["abcd".to_string(), "ef".to_string(), "gh".to_string()]);
    let help = format_txt("ab\n", 10, true);
    assert_eq!(help, vec!["ab".to_string(), "Press Enter to go back.".to_string()]);
    assert!(format_txt("", 3, false).is_empty());
}

#[test]
fn tree_of_nothing_and_one() {
    assert_eq!(make_tree(vec![]).unwrap(), "");
    assert_eq!(make_tree(vec!["x".to_string()]).unwrap(), "└ x");
}

#[test]
fn error_messages() {
    assert_eq!(FxError::GetItem.message(), "Error: Cannot get item info");
    assert_eq!(FxError::Io("disk".to_string()).message(), "disk");
    assert_eq!(
        FxError::PutItem("/tmp/a b".to_string()).message(),
        "Error: Cannot copy -> \"/tmp/a b\""
    );
    assert_eq!(
        FxError::RemoveItem("x\"y".to_string()).message(),
        "Error: Cannot remove -> \"x\\\"y\""
    );
}

#[test]
fn time_cut_at_minutes() {
    let t = Some("2024-02-29 13:45:59".to_string());
    assert_eq!(format_time(&t), "2024-02-29 13:45");
}
