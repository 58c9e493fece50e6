use branch_line::{
    optional, take_alphabetic, take_annotation, take_branch_name, take_hex, take_tag,
    take_whitespace, take_whitespace_or_star, HexValue,
};

#[test]
fn tag_consumes_exactly_the_literal() {
    let (rest, matched) = take_tag("[", "[gone] x").unwrap();
    assert_eq!(matched, "[");
    assert_eq!(rest, "gone] x");
}

#[test]
fn tag_that_is_the_whole_input_leaves_nothing() {
    let (rest, matched) = take_tag("abc", "abc").unwrap();
    assert_eq!(matched, "abc");
    assert_eq!(rest, "");
}

#[test]
fn empty_tag_matches_and_consumes_nothing() {
    let (rest, matched) = take_tag("", "abc").unwrap();
    assert_eq!(matched, "");
    assert_eq!(rest, "abc");
}

#[test]
fn tag_fails_where_the_input_differs() {
    let err = take_tag("[info]", "abc").unwrap_err();
    assert_eq!(err.expected, "[info]");
    let err = take_tag("[info]", "[inf0]abc").unwrap_err();
    assert_eq!(err.expected, "[info]");
}

#[test]
fn tag_fails_where_the_input_is_too_short() {
    let err = take_tag("[info]", "[inf").unwrap_err();
    assert_eq!(err.expected, "[info]");
    let err = take_tag("[", "").unwrap_err();
    assert_eq!(err.expected, "[");
}

#[test]
fn tag_is_case_sensitive() {
    assert!(take_tag("gone", "Gone").is_err());
}

#[test]
fn tag_matches_multi_byte_literals_whole() {
    let (rest, matched) = take_tag("é", "été").unwrap();
    assert_eq!(matched, "é");
    assert_eq!(rest, "té");
    // "é" is C3 A9, "ê" is C3 AA: the first byte alone must not match.
    assert!(take_tag("é", "être").is_err());
}

#[test]
fn whitespace_run_may_be_empty() {
    let (rest, matched) = take_whitespace("abc  ").unwrap();
    assert_eq!(matched, "");
    assert_eq!(rest, "abc  ");
}

#[test]
fn whitespace_run_on_empty_input() {
    let (rest, matched) = take_whitespace("").unwrap();
    assert_eq!(matched, "");
    assert_eq!(rest, "");
}

#[test]
fn whitespace_run_may_be_the_whole_input() {
    let (rest, matched) = take_whitespace(" \t\n ").unwrap();
    assert_eq!(matched, " \t\n ");
    assert_eq!(rest, "");
}

#[test]
fn whitespace_run_takes_unicode_spaces() {
    let (rest, matched) = take_whitespace("\u{3000}\u{A0} \u{2003}x y").unwrap();
    assert_eq!(matched, "\u{3000}\u{A0} \u{2003}");
    assert_eq!(rest, "x y");
}

#[test]
fn alphabetic_run_stops_at_digits_and_punctuation() {
    let (rest, matched) = take_alphabetic("Feature1").unwrap();
    assert_eq!(matched, "Feature");
    assert_eq!(rest, "1");
    let (rest, matched) = take_alphabetic("-x").unwrap();
    assert_eq!(matched, "");
    assert_eq!(rest, "-x");
}

#[test]
fn alphabetic_run_takes_letters_beyond_ascii() {
    let (rest, matched) = take_alphabetic("ветка京 x").unwrap();
    assert_eq!(matched, "ветка京");
    assert_eq!(rest, " x");
}

#[test]
fn branch_name_never_takes_whitespace_or_brackets() {
    for (input, name, rest) in [
        ("abc def", "abc", " def"),
        ("abc\tdef", "abc", "\tdef"),
        ("abc\u{A0}def", "abc", "\u{A0}def"),
        ("abc\u{3000}def", "abc", "\u{3000}def"),
        ("abc[def", "abc", "[def"),
        ("abc]def", "abc", "]def"),
        ("[abc", "", "[abc"),
        ("]abc", "", "]abc"),
        (" abc", "", " abc"),
    ] {
        let (r, m) = take_branch_name(input).unwrap();
        assert_eq!(m, name, "{:?}", input);
        assert_eq!(r, rest, "{:?}", input);
        assert!(!m.contains(char::is_whitespace) && !m.contains('[') && !m.contains(']'));
    }
}

#[test]
fn branch_name_may_be_empty() {
    let (rest, matched) = take_branch_name("").unwrap();
    assert_eq!(matched, "");
    assert_eq!(rest, "");
    let (rest, matched) = take_branch_name("* master").unwrap();
    assert_eq!(matched, "");
    assert_eq!(rest, "* master");
}

#[test]
fn branch_name_takes_namespaces_digits_and_letters_of_any_script() {
    let (rest, matched) = take_branch_name("owner/feature_1-b x").unwrap();
    assert_eq!(matched, "owner/feature_1-b");
    assert_eq!(rest, " x");
    let (rest, matched) = take_branch_name("ветка/京-2.0").unwrap();
    assert_eq!(matched, "ветка/京-2");
    assert_eq!(rest, ".0");
}

#[test]
fn branch_name_stops_at_an_emoji() {
    let (rest, matched) = take_branch_name("fix😃more").unwrap();
    assert_eq!(matched, "fix");
    assert_eq!(rest, "😃more");
}

#[test]
fn annotation_yields_the_text_between_the_brackets() {
    let (rest, inner) = take_annotation("[gone] Random").unwrap();
    assert_eq!(inner, "gone");
    assert_eq!(rest, " Random");
    let (rest, inner) = take_annotation("[behind 3]").unwrap();
    assert_eq!(inner, "behind 3");
    assert_eq!(rest, "");
    let (rest, inner) = take_annotation("[ahead 1]tail").unwrap();
    assert_eq!(inner, "ahead 1");
    assert_eq!(rest, "tail");
}

#[test]
fn annotation_may_be_empty_between_the_brackets() {
    let (rest, inner) = take_annotation("[] x").unwrap();
    assert_eq!(inner, "");
    assert_eq!(rest, " x");
}

#[test]
fn annotation_without_opening_bracket_names_it() {
    let err = take_annotation("gone] x").unwrap_err();
    assert_eq!(err.expected, "[");
    let err = take_annotation(" [gone]").unwrap_err();
    assert_eq!(err.expected, "[");
    let err = take_annotation("").unwrap_err();
    assert_eq!(err.expected, "[");
}

#[test]
fn annotation_without_closing_bracket_names_it() {
    let err = take_annotation("[gone Random").unwrap_err();
    assert_eq!(err.expected, "]");
    let err = take_annotation("[").unwrap_err();
    assert_eq!(err.expected, "]");
    let err = take_annotation("[gone").unwrap_err();
    assert_eq!(err.expected, "]");
}

#[test]
fn annotation_with_a_foreign_character_does_not_close() {
    let err = take_annotation("[ahead 1, behind 2]").unwrap_err();
    assert_eq!(err.expected, "]");
    let err = take_annotation("[[gone]]").unwrap_err();
    assert_eq!(err.expected, "]");
    let err = take_annotation("[gone: x]").unwrap_err();
    assert_eq!(err.expected, "]");
}

#[test]
fn annotation_ends_at_the_first_closing_bracket() {
    let (rest, inner) = take_annotation("[a] [b]").unwrap();
    assert_eq!(inner, "a");
    assert_eq!(rest, " [b]");
}

#[test]
fn marker_run_takes_whitespace_and_stars_in_any_order() {
    let (rest, matched) = take_whitespace_or_star(" * master").unwrap();
    assert_eq!(matched, " * ");
    assert_eq!(rest, "master");
    let (rest, matched) = take_whitespace_or_star("**\t *x*").unwrap();
    assert_eq!(matched, "**\t *");
    assert_eq!(rest, "x*");
    let (rest, matched) = take_whitespace_or_star("master").unwrap();
    assert_eq!(matched, "");
    assert_eq!(rest, "master");
}

#[test]
fn hex_takes_both_cases_and_stops_at_the_first_other_character() {
    let (rest, hex) = take_hex("DEADbeef01xyz").unwrap();
    assert_eq!(hex, HexValue("DEADbeef01".to_string()));
    assert_eq!(rest, "xyz");
}

#[test]
fn hex_may_be_empty() {
    let (rest, hex) = take_hex("xyz").unwrap();
    assert_eq!(hex, HexValue(String::new()));
    assert_eq!(rest, "xyz");
    let (rest, hex) = take_hex("").unwrap();
    assert_eq!(hex, HexValue(String::new()));
    assert_eq!(rest, "");
}

#[test]
fn hex_keeps_the_text_as_it_was_read() {
    let (_, hex) = take_hex("000aBc ").unwrap();
    assert_eq!(hex.0, "000aBc");
}

#[test]
fn optional_hands_on_a_success() {
    let input = "[gone] x";
    let (rest, matched) = optional(input, take_annotation(input));
    assert_eq!(matched, Some("gone"));
    assert_eq!(rest, " x");
}

#[test]
fn optional_turns_a_failure_into_nothing_consumed() {
    let input = "[gone x";
    let (rest, matched) = optional(input, take_annotation(input));
    assert_eq!(matched, None);
    assert_eq!(rest, "[gone x");
    let (rest, matched) = optional("abc", take_tag("[", "abc"));
    assert_eq!(matched, None);
    assert_eq!(rest, "abc");
}

#[test]
fn a_run_is_followed_by_no_further_run_of_its_class() {
    for input in ["   abc", "", " \t x ", "abc"] {
        let (rest, _) = take_whitespace(input).unwrap();
        let (rest_again, matched_again) = take_whitespace(rest).unwrap();
        assert_eq!(matched_again, "");
        assert_eq!(rest_again, rest);
    }
}

#[test]
fn a_run_and_its_remainder_make_the_input() {
    for input in ["   abc", "", " \t x ", "abc", "ветка 1", "😃 x"] {
        let (rest, matched) = take_whitespace(input).unwrap();
        assert_eq!(format!("{}{}", matched, rest), input);
        let (rest, matched) = take_branch_name(input).unwrap();
        assert_eq!(format!("{}{}", matched, rest), input);
        let (rest, matched) = take_alphabetic(input).unwrap();
        assert_eq!(format!("{}{}", matched, rest), input);
        let (rest, matched) = take_whitespace_or_star(input).unwrap();
        assert_eq!(format!("{}{}", matched, rest), input);
        let (rest, hex) = take_hex(input).unwrap();
        assert_eq!(format!("{}{}", hex.0, rest), input);
    }
}
