use template_handle::lookup::candidate;
use template_handle::message;
use template_handle::text::{chars_of, contains_marker, contains_space, trim};

#[test]
fn chars_of_lists_the_characters() {
    assert_eq!(chars_of("a{é"), vec!['a', '{', 'é']);
    assert_eq!(chars_of(""), Vec::<char>::new());
}

#[test]
fn contains_marker_wants_two_braces_side_by_side() {
    assert!(contains_marker("{{"));
    assert!(contains_marker("a {{ b }} c"));
    assert!(contains_marker("{{{"));
    assert!(contains_marker("é{{"));
    assert!(contains_marker("}}{{"));
    assert!(!contains_marker(""));
    assert!(!contains_marker("{"));
    assert!(!contains_marker("{ {"));
    assert!(!contains_marker("}}"));
    assert!(!contains_marker("{a{"));
}

#[test]
fn contains_space_finds_the_space_character() {
    assert!(contains_space("a b"));
    assert!(contains_space(" "));
    assert!(contains_space("é "));
    assert!(!contains_space(""));
    assert!(!contains_space("a_b"));
    assert!(!contains_space("a\tb\n"));
    assert!(!contains_space("a\u{a0}b"));
}

#[test]
fn trim_takes_white_space_from_both_ends() {
    assert_eq!(trim("  a b  "), "a b");
    assert_eq!(trim("\t\r\n x \n"), "x");
    assert_eq!(trim("x"), "x");
    assert_eq!(trim(""), "");
    assert_eq!(trim("   "), "");
    assert_eq!(trim("\u{2003}a\u{a0}"), "a");
    assert_eq!(trim("\u{3000}é é\u{2028}"), "é é");
}

#[test]
fn trim_keeps_what_is_no_white_space() {
    assert_eq!(trim("\u{200b}a\u{200b}"), "\u{200b}a\u{200b}");
    assert_eq!(trim("_a_"), "_a_");
}

#[test]
fn trim_agrees_with_the_standard_library() {
    let samples =
        ["", " ", "a", " a", "a ", " a b ", "\n\ta\u{85}", "\u{1680}x\u{feff}", "\u{feff}x "];
    for text in samples {
        assert_eq!(trim(text), text.trim(), "{:?}", text);
    }
}

#[test]
fn candidate_puts_a_relative_path_under_the_prefix() {
    assert_eq!(candidate("files", "x.txt".to_string(), &"x.txt".to_string(), false), "files/x.txt");
    assert_eq!(
        candidate("templates", "a/b.j2".to_string(), &" a/b.j2".to_string(), false),
        "templates/ a/b.j2"
    );
    assert_eq!(candidate("files", "".to_string(), &"".to_string(), false), "files/");
}

#[test]
fn candidate_takes_an_absolute_path_as_it_is() {
    assert_eq!(
        candidate("files", "/etc/motd".to_string(), &" /etc/motd ".to_string(), true),
        "/etc/motd"
    );
}

#[test]
fn messages_read_as_stated() {
    let f = "port".to_string();
    let v = "abc".to_string();
    assert_eq!(message::empty_render_message(), "evaluated to empty string");
    assert_eq!(message::screening_message(&f, &v), "field port, abc");
    assert_eq!(message::spaces_message(&f), "field (port): spaces are not allowed");
    assert_eq!(message::path_screening_message(&v, &f), "abc, for field port");
    assert_eq!(message::lookup_screening_message(&v, &f), "abc, for field: port");
    assert_eq!(message::not_integer_message(&f, &v), "field (port) value is not an integer: abc");
    assert_eq!(message::not_boolean_message(&f, &v), "field (port) value is not a boolean: abc");
    assert_eq!(message::no_such_file_message(&f, &v), "field (port): no such file: abc");
}
