use server_switcher::text::same_text;
use server_switcher::text::strip_mark;

#[test]
fn same_text_compares_letter_for_letter() {
    assert!(same_text("foo.example", "foo.example"));
    assert!(same_text("", ""));
    assert!(!same_text("foo.example", "Foo.example"));
    assert!(!same_text("foo.example", "foo.example."));
    assert!(!same_text("", " "));
}

#[test]
fn strip_mark_drops_one_leading_mark() {
    assert_eq!(strip_mark("\u{feff}Username = bob"), "Username = bob");
    assert_eq!(strip_mark("Username = bob"), "Username = bob");
    assert_eq!(strip_mark(""), "");
    assert_eq!(strip_mark("\u{feff}"), "");
    assert_eq!(strip_mark("\u{feff}\u{feff}x"), "\u{feff}x");
    assert_eq!(strip_mark("x\u{feff}"), "x\u{feff}");
}
