use wshowkeys::text::{parse_u32, push_decimal, slice_contains, str_contains, str_eq, str_starts_with};
use wshowkeys::wayland_utils::EmptyAppData;

#[test]
fn parse_plain_numbers() {
    assert_eq!(parse_u32("0"), Some(0));
    assert_eq!(parse_u32("1000"), Some(1000));
    assert_eq!(parse_u32("007"), Some(7));
    assert_eq!(parse_u32("4294967295"), Some(u32::MAX));
}

#[test]
fn parse_accepts_leading_plus() {
    assert_eq!(parse_u32("+42"), Some(42));
}

#[test]
fn parse_rejects_what_std_rejects() {
    for s in ["", "+", "-1", " 1", "1 ", "12a", "4294967296", "99999999999", "++1", "0x10"] {
        assert_eq!(parse_u32(s), None, "{}", s);
        assert!(s.parse::<u32>().is_err(), "{}", s);
    }
}

#[test]
fn parse_agrees_with_std() {
    for s in ["0", "1", "+9", "65534", "4294967295", "000000000000000001"] {
        assert_eq!(parse_u32(s), s.parse::<u32>().ok(), "{}", s);
    }
}

#[test]
fn substring_search() {
    assert!(slice_contains(b"abcdef", b"cde"));
    assert!(slice_contains(b"abc", b""));
    assert!(slice_contains(b"", b""));
    assert!(!slice_contains(b"ab", b"abc"));
    assert!(!slice_contains(b"aab", b"abb"));
    assert!(str_contains("/dev/input/event0", "input"));
    assert!(!str_contains("/dev/inp", "input"));
}

#[test]
fn prefix_and_equality() {
    assert!(str_starts_with("/dev/input/x", "/dev"));
    assert!(!str_starts_with("/de", "/dev"));
    assert!(str_eq("wl_seat", "wl_seat"));
    assert!(!str_eq("wl_seat", "wl_seat2"));
    assert!(!str_eq("wl_seat", "wl_shm_"));
}

#[test]
fn decimal_text() {
    let mut s = String::from("n=");
    push_decimal(&mut s, 0);
    assert_eq!(s, "n=0");
    for n in [7u32, 10, 42, 1000, 65535, u32::MAX] {
        let mut t = String::new();
        push_decimal(&mut t, n);
        assert_eq!(t, n.to_string());
        assert_eq!(parse_u32(&t), Some(n));
    }
}

#[test]
fn global_lines() {
    assert_eq!(EmptyAppData::describe_global(1, "wl_compositor", 4), "[1] wl_compositor (v4)");
    assert_eq!(EmptyAppData::describe_global(23, "zwlr_layer_shell_v1", 10), "[23] zwlr_layer_shell_v1 (v10)");
}
