use sqlable::{is_snake_case, snake_case};

#[test]
fn upper_case_after_lower_case_starts_a_word() {
    assert_eq!(snake_case("UserID"), "user_id");
}

#[test]
fn mixed_name_keeps_its_underscore() {
    assert_eq!(snake_case("alreadySnake_case"), "already_snake_case");
}

#[test]
fn canonical_name_is_kept() {
    assert_eq!(snake_case("user_id"), "user_id");
    assert_eq!(snake_case("already_snake_case"), "already_snake_case");
    assert_eq!(snake_case("a1_b2"), "a1_b2");
}

#[test]
fn canonical_form_is_taken_once() {
    for name in ["UserID", "alreadySnake_case", "createdAt", "HTTPServer", "x", ""] {
        let once = snake_case(name);
        assert_eq!(snake_case(&once), once);
    }
}

#[test]
fn leading_upper_case_gets_no_underscore() {
    assert_eq!(snake_case("User"), "user");
    assert_eq!(snake_case("U"), "u");
}

#[test]
fn run_of_upper_case_is_one_word() {
    assert_eq!(snake_case("HTTPServer"), "httpserver");
    assert_eq!(snake_case("parseHTTPHeader"), "parse_httpheader");
}

#[test]
fn upper_case_after_a_digit_starts_no_word() {
    assert_eq!(snake_case("col1Name"), "col1name");
    assert_eq!(snake_case("a_B"), "a_b");
}

#[test]
fn empty_name_stays_empty() {
    assert_eq!(snake_case(""), "");
}

#[test]
fn other_characters_pass_through() {
    assert_eq!(snake_case("a b-c.d"), "a b-c.d");
    assert_eq!(snake_case("中文"), "中文");
}

#[test]
fn letters_beyond_ascii_are_lowered() {
    assert_eq!(snake_case("größeÄnderung"), "größe_änderung");
    assert_eq!(snake_case("ΑλφαΒήτα"), "αλφα_βήτα");
}

#[test]
fn one_character_may_become_two() {
    // Capital I with a dot above lowers to `i` and a combining dot.
    assert_eq!(snake_case("\u{130}"), "i\u{307}");
    assert_eq!(snake_case("a\u{130}"), "a_i\u{307}");
}

#[test]
fn upper_case_without_lower_case_form_is_taken_twice() {
    // The bold capital A of mathematics is upper case and has no lower-case
    // form, so behind a lowered letter it starts a word the second time.
    assert_eq!(snake_case("A\u{1D400}"), "a\u{1D400}");
    assert_eq!(snake_case("a\u{1D400}"), "a_\u{1D400}");
}

#[test]
fn canonical_names_are_told_apart() {
    assert!(is_snake_case("user_id"));
    assert!(is_snake_case("already_snake_case"));
    assert!(is_snake_case(""));
    assert!(is_snake_case("a b-c.d"));
    assert!(is_snake_case("größe"));
    assert!(!is_snake_case("UserID"));
    assert!(!is_snake_case("alreadySnake_case"));
    assert!(!is_snake_case("X"));
    assert!(!is_snake_case("\u{130}"));
}

#[test]
fn canonical_exactly_where_nothing_changes() {
    let names = [
        "UserID", "user_id", "a_B", "HTTPServer", "x", "", "größeÄnderung", "a\u{1D400}",
        "\u{1D400}", "A\u{1D400}", "中文", "col1Name", "col1name",
    ];
    for name in names {
        assert_eq!(is_snake_case(name), snake_case(name) == name, "{name}");
    }
}

#[test]
fn every_character_alone_and_behind_a_letter() {
    // The first two planes hold every character that has a case.
    let mut code: u32 = 0;
    while code <= 0x1FFFF {
        if let Some(c) = char::from_u32(code) {
            let alone = c.to_string();
            let once = snake_case(&alone);
            assert_eq!(once, c.to_lowercase().collect::<String>(), "{code:x}");
            assert_eq!(is_snake_case(&once), snake_case(&once) == once, "{code:x}");
            let behind = format!("a{c}");
            let expected = if c.is_uppercase() {
                format!("a_{}", c.to_lowercase().collect::<String>())
            } else {
                format!("a{}", c.to_lowercase().collect::<String>())
            };
            assert_eq!(snake_case(&behind), expected, "{code:x}");
        }
        code += 1;
    }
}
