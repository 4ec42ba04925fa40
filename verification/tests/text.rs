use linkbox::prompt::{answer, mask, MaskingHighlighter};
use linkbox::request::{make_discovery_url, make_link_url, make_links_url, make_signin_url};
use linkbox::status::{is_not_found, is_success};
use linkbox::text::{push_decimal, push_digits, without_trailing_slash};

fn decimal(i: i32) -> String {
    let mut out = String::new();
    push_decimal(&mut out, i);
    out
}

fn digits(n: u32) -> String {
    let mut out = String::new();
    push_digits(&mut out, n);
    out
}

#[test]
fn digits_of_small_and_large_numbers() {
    assert_eq!(digits(0), "0");
    assert_eq!(digits(7), "7");
    assert_eq!(digits(10), "10");
    assert_eq!(digits(99), "99");
    assert_eq!(digits(100), "100");
    assert_eq!(digits(1234567890), "1234567890");
    assert_eq!(digits(u32::MAX), "4294967295");
}

#[test]
fn digits_agree_with_std() {
    let mut n: u32 = 1;
    for _ in 0..40 {
        assert_eq!(digits(n), n.to_string());
        n = n.wrapping_mul(2654435761).wrapping_add(12345);
    }
}

#[test]
fn decimal_of_signed_numbers() {
    assert_eq!(decimal(0), "0");
    assert_eq!(decimal(42), "42");
    assert_eq!(decimal(-1), "-1");
    assert_eq!(decimal(-120), "-120");
    assert_eq!(decimal(i32::MAX), "2147483647");
    assert_eq!(decimal(i32::MIN), "-2147483648");
}

#[test]
fn push_decimal_appends() {
    let mut out = "id=".to_string();
    push_decimal(&mut out, -5);
    push_digits(&mut out, 60);
    assert_eq!(out, "id=-560");
}

#[test]
fn trailing_slash_removal() {
    assert_eq!(without_trailing_slash("a/".to_string()), "a");
    assert_eq!(without_trailing_slash("a".to_string()), "a");
    assert_eq!(without_trailing_slash("a//".to_string()), "a/");
    assert_eq!(without_trailing_slash("/".to_string()), "");
    assert_eq!(without_trailing_slash(String::new()), "");
    assert_eq!(without_trailing_slash("/a".to_string()), "/a");
    assert_eq!(without_trailing_slash("日本語/".to_string()), "日本語");
    assert_eq!(without_trailing_slash("日本語".to_string()), "日本語");
}

#[test]
fn endpoint_addresses() {
    assert_eq!(make_discovery_url("http://h"), "http://h/api/v1/_lb-discover");
    assert_eq!(make_signin_url("http://h"), "http://h/api/v1/signin");
    assert_eq!(make_links_url("http://h"), "http://h/api/v1/links");
    assert_eq!(make_link_url("http://h", 5), "http://h/api/v1/links/5");
    assert_eq!(make_link_url("", -12), "/api/v1/links/-12");
}

#[test]
fn success_is_the_2xx_class() {
    assert!(is_success(200));
    assert!(is_success(201));
    assert!(is_success(204));
    assert!(is_success(299));
    assert!(!is_success(199));
    assert!(!is_success(300));
    assert!(!is_success(404));
    assert!(!is_success(500));
    assert!(!is_success(100));
    assert!(!is_success(999));
}

#[test]
fn codes_outside_the_protocol_are_not_success() {
    assert!(!is_success(0));
    assert!(!is_success(20));
    assert!(!is_success(99));
    assert!(!is_success(1000));
    assert!(!is_success(2000));
    assert!(!is_success(u16::MAX));
}

#[test]
fn success_agrees_with_the_range_on_every_code() {
    let mut code: u16 = 0;
    loop {
        assert_eq!(is_success(code), (200..300).contains(&code));
        if code == u16::MAX {
            break;
        }
        code += 1;
    }
}

#[test]
fn not_found_is_404_only() {
    assert!(is_not_found(404));
    assert!(!is_not_found(200));
    assert!(!is_not_found(403));
    assert!(!is_not_found(405));
    assert!(!is_not_found(0));
    assert!(!is_not_found(410));
}

#[test]
fn answers() {
    assert_eq!(answer("Y"), Some(true));
    assert_eq!(answer("n"), Some(false));
    assert_eq!(answer("y"), None);
    assert_eq!(answer("N"), None);
    assert_eq!(answer(""), None);
    assert_eq!(answer("Yn"), None);
    assert_eq!(answer("Y "), None);
    assert_eq!(answer("yes"), None);
    assert_eq!(answer("é"), None);
}

#[test]
fn mask_is_a_row_of_asterisks() {
    assert_eq!(mask(0), "");
    assert_eq!(mask(1), "*");
    assert_eq!(mask(6), "******");
    assert_eq!(mask(300).len(), 300);
}

#[test]
fn highlight_shows_the_line_when_not_masking() {
    let plain = MaskingHighlighter { masking: false };
    assert_eq!(plain.highlight("hunter2"), "hunter2");
    assert_eq!(plain.highlight(""), "");
    assert!(!plain.highlight_char());
}

#[test]
fn highlight_masks_one_asterisk_per_column() {
    let masked = MaskingHighlighter { masking: true };
    assert_eq!(masked.highlight("hunter2"), "*******");
    assert_eq!(masked.highlight(""), "");
    assert_eq!(masked.highlight("a"), "*");
    assert!(masked.highlight_char());
}

#[test]
fn highlight_counts_columns_not_bytes() {
    let masked = MaskingHighlighter { masking: true };
    assert_eq!(masked.highlight("é"), "*");
    assert_eq!(masked.highlight("日本"), "****");
    assert_eq!(masked.highlight("pässword"), "********");
}

#[test]
fn user_agent_names_client_version_and_source() {
    assert_eq!(
        linkbox::request::user_agent("linkbox-cli", "0.1.0"),
        "linkbox-cli/0.1.0 (https://github.com/ashisbored/linkbox-cli)"
    );
}
