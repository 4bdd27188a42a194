use refeed_rampage::backend::routing::path_segments;
use refeed_rampage::text::{
    chars_of, contains_text, remove_char, same_text, split_nonempty, string_from, strip_prefix,
};

#[test]
fn remove_char_leaves_every_occurrence_out() {
    assert_eq!(remove_char("a\nb\n", '\n'), "ab");
    assert_eq!(remove_char("\n\n", '\n'), "");
    assert_eq!(remove_char("", '\n'), "");
    assert_eq!(remove_char("abc", '\n'), "abc");
    assert_eq!(remove_char("\"tok.en\"", '"'), "tok.en");
    assert_eq!(remove_char("héllo wörld", 'l'), "héo wörd");
}

#[test]
fn strip_prefix_takes_a_leading_prefix_only() {
    assert_eq!(strip_prefix("bearer: abc", "bearer: "), "abc");
    assert_eq!(strip_prefix("abc", "bearer: "), "abc");
    assert_eq!(strip_prefix("xbearer: abc", "bearer: "), "xbearer: abc");
    assert_eq!(strip_prefix("bearer: bearer: abc", "bearer: "), "bearer: abc");
    assert_eq!(strip_prefix("bearer: ", "bearer: "), "");
    assert_eq!(strip_prefix("bearer:", "bearer: "), "bearer:");
    assert_eq!(strip_prefix("", "bearer: "), "");
    assert_eq!(strip_prefix("abc", ""), "abc");
}

#[test]
fn contains_text_finds_a_needle_anywhere() {
    assert!(contains_text("Cannot create preexisting table", "preexisting table"));
    assert!(contains_text("Table already exists: meals", "Table already exists"));
    assert!(contains_text("x Table already exists", "Table already exists"));
    assert!(!contains_text("table already exists", "Table already exists"));
    assert!(!contains_text("Table already exist", "Table already exists"));
    assert!(!contains_text("", "a"));
    assert!(contains_text("", ""));
    assert!(contains_text("abc", ""));
    assert!(contains_text("aab", "ab"));
    assert!(contains_text("ababac", "abac"));
    assert!(!contains_text("ab", "abc"));
}

#[test]
fn same_text_compares_characters() {
    assert!(same_text("meals", "meals"));
    assert!(!same_text("meals", "meal"));
    assert!(!same_text("meals", "Meals"));
    assert!(same_text("", ""));
}

#[test]
fn chars_and_back() {
    let chars = chars_of("héllo");
    assert_eq!(chars, vec!['h', 'é', 'l', 'l', 'o']);
    assert_eq!(string_from(&chars, 0), "héllo");
    assert_eq!(string_from(&chars, 2), "llo");
    assert_eq!(string_from(&chars, 5), "");
}

#[test]
fn splitting_keeps_what_is_not_empty() {
    assert_eq!(split_nonempty("a/b/c", '/'), vec!["a", "b", "c"]);
    assert_eq!(split_nonempty("/a//b/", '/'), vec!["a", "b"]);
    assert_eq!(split_nonempty("", '/'), Vec::<String>::new());
    assert_eq!(split_nonempty("///", '/'), Vec::<String>::new());
    assert_eq!(split_nonempty("abc", '/'), vec!["abc"]);
    assert_eq!(split_nonempty("a b", ' '), vec!["a", "b"]);
    for path in ["/a//b/", "x", "//", "/meals/1/edit", "meals/", ""] {
        let by_std: Vec<&str> = path.split('/').filter(|piece| !piece.is_empty()).collect();
        assert_eq!(split_nonempty(path, '/'), by_std);
    }
}

#[test]
fn the_segments_of_a_request_path() {
    assert_eq!(path_segments("/meals"), vec!["meals"]);
    assert_eq!(path_segments("/meals/"), vec!["meals"]);
    assert_eq!(
        path_segments("/meals/f11b1c5e-d6d8-4dce-8a9d-9e05d870b881"),
        vec!["meals", "f11b1c5e-d6d8-4dce-8a9d-9e05d870b881"]
    );
    assert_eq!(path_segments("/"), Vec::<String>::new());
    assert_eq!(path_segments("/health"), vec!["health"]);
}
