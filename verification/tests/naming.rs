use image_rename_tool::namegen::{
    clamp_number, current_date_stamp, effective_prefix, folder_summary_name, is_date_stamp,
    is_supported_extension, max_possible_number, max_prefix_len, new_file_name, truncate_chars,
};
use image_rename_tool::numbers::{decimal_chars, decimal_width, number_text_chars};

fn chars(s: &str) -> Vec<char> {
    s.chars().collect()
}

fn text(v: &[char]) -> String {
    v.iter().collect()
}

#[test]
fn decimal_plain_values() {
    assert_eq!(text(&decimal_chars(0)), "0");
    assert_eq!(text(&decimal_chars(7)), "7");
    assert_eq!(text(&decimal_chars(42)), "42");
    assert_eq!(text(&decimal_chars(100)), "100");
    assert_eq!(text(&decimal_chars(99999)), "99999");
    assert_eq!(text(&decimal_chars(1234567890)), "1234567890");
}

#[test]
fn number_text_pads_under_100_only() {
    assert_eq!(text(&number_text_chars(0)), "000");
    assert_eq!(text(&number_text_chars(5)), "005");
    assert_eq!(text(&number_text_chars(42)), "042");
    assert_eq!(text(&number_text_chars(99)), "099");
    assert_eq!(text(&number_text_chars(100)), "100");
    assert_eq!(text(&number_text_chars(1000)), "1000");
    assert_eq!(text(&number_text_chars(99999)), "99999");
}

#[test]
fn decimal_width_bands() {
    assert_eq!(decimal_width(9), 1);
    assert_eq!(decimal_width(10), 2);
    assert_eq!(decimal_width(99999), 5);
}

#[test]
fn clamp_caps_at_maximum() {
    assert_eq!(clamp_number(0), 0);
    assert_eq!(clamp_number(99999), 99999);
    assert_eq!(clamp_number(100000), 99999);
    assert_eq!(clamp_number(u32::MAX), 99999);
}

#[test]
fn max_possible_number_caps() {
    assert_eq!(max_possible_number(5, 3), 7);
    assert_eq!(max_possible_number(1, 1), 1);
    assert_eq!(max_possible_number(99998, 10), 99999);
}

#[test]
fn prefix_budget_shrinks_with_wider_numbers() {
    // budget 15 minus date 6 minus number width
    assert_eq!(max_prefix_len(1), 8);
    assert_eq!(max_prefix_len(3), 6);
    assert_eq!(max_prefix_len(5), 4);
    assert_eq!(max_prefix_len(10), 0);
}

#[test]
fn truncate_keeps_short_prefixes() {
    assert_eq!(text(&truncate_chars(&chars("img"), 8)), "img");
    assert_eq!(text(&truncate_chars(&chars("vacation2024"), 8)), "vacation");
    assert_eq!(text(&truncate_chars(&chars("abc"), 0)), "");
}

#[test]
fn effective_prefix_uses_widest_number_of_batch() {
    // batch reaches 7: one digit, prefix may keep 8 characters
    assert_eq!(text(&effective_prefix(&chars("vacation"), 5, 3)), "vacation");
    // batch reaches 104: three digits, prefix may keep 6 characters
    assert_eq!(text(&effective_prefix(&chars("vacation"), 100, 5)), "vacati");
    // clamped start: the widest number is 99999, five digits, budget 4
    assert_eq!(text(&effective_prefix(&chars("vacation"), 200000, 3)), "vaca");
}

#[test]
fn new_file_name_exact_value() {
    let n = new_file_name(&chars("img"), &chars("250102"), 5, &chars(".jpg"));
    assert_eq!(text(&n), "img250102005.jpg");
}

#[test]
fn new_file_name_keeps_extension_case() {
    let n = new_file_name(&chars("a"), &chars("250102"), 123, &chars(".JPG"));
    assert_eq!(text(&n), "a250102123.JPG");
}

#[test]
fn new_file_name_is_deterministic() {
    let a = new_file_name(&chars("pic"), &chars("240630"), 77, &chars(".png"));
    let b = new_file_name(&chars("pic"), &chars("240630"), 77, &chars(".png"));
    assert_eq!(text(&a), text(&b));
}

#[test]
fn folder_summary_exact_value() {
    let n = folder_summary_name(&chars("trip"), &chars("250102"), 1, 2, 2);
    assert_eq!(text(&n), "trip250102 1-2 2\u{5f20}");
}

#[test]
fn date_stamp_shape() {
    assert!(is_date_stamp(&chars("250102")));
    assert!(!is_date_stamp(&chars("25010")));
    assert!(!is_date_stamp(&chars("2501023")));
    assert!(!is_date_stamp(&chars("25010a")));
    assert!(!is_date_stamp(&chars("")));
}

#[test]
fn current_date_stamp_is_six_digits() {
    let d = current_date_stamp().expect("clock yielded no six-digit stamp");
    assert_eq!(d.len(), 6);
    assert!(d.iter().all(|c| c.is_ascii_digit()));
}

#[test]
fn supported_extensions_ignore_ascii_case() {
    assert!(is_supported_extension(&chars(".jpg")));
    assert!(is_supported_extension(&chars(".JPG")));
    assert!(is_supported_extension(&chars(".jPeG")));
    assert!(is_supported_extension(&chars(".png")));
    assert!(!is_supported_extension(&chars(".gif")));
    assert!(!is_supported_extension(&chars(".txt")));
    assert!(!is_supported_extension(&chars("jpg")));
    assert!(!is_supported_extension(&chars("")));
}
