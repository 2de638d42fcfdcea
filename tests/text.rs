use chefctl::text::{join_with_spaces, push_digits, push_int, push_pad2, split_on_spaces};

fn strings(v: &[&str]) -> Vec<String> {
    v.iter().map(|s| s.to_string()).collect()
}

#[test]
fn split_cuts_at_every_space() {
    assert_eq!(split_on_spaces("a bb c"), strings(&["a", "bb", "c"]));
}

#[test]
fn split_keeps_empty_pieces() {
    assert_eq!(split_on_spaces(""), strings(&[""]));
    assert_eq!(split_on_spaces(" a  b "), strings(&["", "a", "", "b", ""]));
}

#[test]
fn join_puts_one_space_between() {
    assert_eq!(join_with_spaces(&strings(&["x", "-l auto", "y"])), "x -l auto y");
    assert_eq!(join_with_spaces(&Vec::new()), "");
}

#[test]
fn split_then_join_gives_the_text_back() {
    let s = "/usr/bin/tool  --flag value ";
    assert_eq!(join_with_spaces(&split_on_spaces(s)), s);
}

#[test]
fn decimal_rendering() {
    let mut out = String::from("n=");
    push_digits(&mut out, 0);
    assert_eq!(out, "n=0");
    let mut out = String::new();
    push_digits(&mut out, u64::MAX);
    assert_eq!(out, "18446744073709551615");
    let mut out = String::new();
    push_int(&mut out, i64::MIN);
    assert_eq!(out, "-9223372036854775808");
    let mut out = String::new();
    push_pad2(&mut out, 7);
    push_pad2(&mut out, 42);
    push_pad2(&mut out, 123);
    assert_eq!(out, "0742123");
}
