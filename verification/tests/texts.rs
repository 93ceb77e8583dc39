use enumify::text::{enclose, push_spaced};

#[test]
fn spaced_separates_by_one_space() {
    let mut out = String::from("pub");
    push_spaced(&mut out, "enum");
    assert_eq!(out, "pub enum");
}

#[test]
fn spaced_skips_empty_pieces() {
    let mut out = String::new();
    push_spaced(&mut out, "");
    assert_eq!(out, "");
    push_spaced(&mut out, "enum");
    assert_eq!(out, "enum");
    push_spaced(&mut out, "");
    assert_eq!(out, "enum");
    push_spaced(&mut out, "Term");
    assert_eq!(out, "enum Term");
}

#[test]
fn enclose_adds_no_space() {
    assert_eq!(enclose("(", "value : T", ")"), "(value : T)");
    assert_eq!(enclose("# [", "test", "]"), "# [test]");
    assert_eq!(enclose("(", "", ")"), "()");
}
