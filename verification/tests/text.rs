use pipebased::{PathBuilder, format_u64, str_equal};

#[test]
fn format_zero() {
    assert_eq!(format_u64(0), "0");
}

#[test]
fn format_single_digit() {
    assert_eq!(format_u64(7), "7");
}

#[test]
fn format_round_number() {
    assert_eq!(format_u64(10), "10");
    assert_eq!(format_u64(100), "100");
}

#[test]
fn format_many_digits() {
    assert_eq!(format_u64(42), "42");
    assert_eq!(format_u64(1234567890), "1234567890");
}

#[test]
fn format_largest() {
    assert_eq!(format_u64(u64::MAX), "18446744073709551615");
}

#[test]
fn str_equal_compares_content() {
    assert!(str_equal("abc", "abc"));
    assert!(!str_equal("abc", "abd"));
    assert!(!str_equal("abc", "ab"));
    assert!(str_equal("", ""));
}

#[test]
fn path_builder_joins_segments() {
    let p = PathBuilder::default().push("opt").push("pipebased").push("app").build();
    assert_eq!(p, "opt/pipebased/app");
}

#[test]
fn path_builder_absolute_segment_replaces() {
    let p = PathBuilder::clone_from("/var/lib").push("/etc/units").build();
    assert_eq!(p, "/etc/units");
}

#[test]
fn path_builder_keeps_single_separator() {
    let p = PathBuilder::clone_from("/roots/").push("dev").build();
    assert_eq!(p, "/roots/dev");
}

#[test]
fn path_builder_empty_segment_is_noop() {
    let p = PathBuilder::clone_from("/roots").push("").build();
    assert_eq!(p, "/roots");
}

#[test]
fn path_builder_clone_from_round_trip() {
    let p = PathBuilder::clone_from("/a/b/c").build();
    assert_eq!(p, "/a/b/c");
}
