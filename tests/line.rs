use mksls::line::{classify_line, line_type, spec_paths_of, spec_tokens, Invalid, LineType};

struct TestCase {
    input: String,
    matches: bool,
    target: Option<String>,
    link: Option<String>,
}

#[test]
fn sls_spec_re_matches_when_it_should() {
    let test_cases = vec![
        // regular input
        TestCase {
            input: String::from("/some/random/target /some/random/link"),
            matches: true,
            target: Some(String::from("/some/random/target")),
            link: Some(String::from("/some/random/link")),
        },
        // spaces before
        TestCase {
            input: String::from("     /some/random/target /some/random/link"),
            matches: true,
            target: Some(String::from("/some/random/target")),
            link: Some(String::from("/some/random/link")),
        },
        // spaces in between
        TestCase {
            input: String::from("/some/random/target     /some/random/link"),
            matches: true,
            target: Some(String::from("/some/random/target")),
            link: Some(String::from("/some/random/link")),
        },
        // spaces after
        TestCase {
            input: String::from("/some/random/target /some/random/link      "),
            matches: true,
            target: Some(String::from("/some/random/target")),
            link: Some(String::from("/some/random/link")),
        },
        // spaces everywhere
        TestCase {
            input: String::from("     /some/random/target    /some/random/link      "),
            matches: true,
            target: Some(String::from("/some/random/target")),
            link: Some(String::from("/some/random/link")),
        },
        // target in quotes
        TestCase {
            input: String::from("\"/some/random/target\" /some/random/link"),
            matches: true,
            target: Some(String::from("\"/some/random/target\"")),
            link: Some(String::from("/some/random/link")),
        },
        // link in quotes
        TestCase {
            input: String::from("/some/random/target \"/some/random/link\""),
            matches: true,
            target: Some(String::from("/some/random/target")),
            link: Some(String::from("\"/some/random/link\"")),
        },
        // both in quotes
        TestCase {
            input: String::from("\"/some/random/target\" \"/some/random/link\""),
            matches: true,
            target: Some(String::from("\"/some/random/target\"")),
            link: Some(String::from("\"/some/random/link\"")),
        },
        // both in quotes with spaces
        TestCase {
            input: String::from(
                "\"/some/random/target with spaces\" \"/some/random/link with spaces\"",
            ),
            matches: true,
            target: Some(String::from("\"/some/random/target with spaces\"")),
            link: Some(String::from("\"/some/random/link with spaces\"")),
        },
        // target contains double quote
        TestCase {
            input: String::from("/some/random/\"target /some/random/link"),
            matches: false,
            target: None,
            link: None,
        },
        // link contains double quote
        TestCase {
            input: String::from("/some/random/target /some/random/\"link"),
            matches: false,
            target: None,
            link: None,
        },
        // quotes within quotes
        TestCase {
            input: String::from("\"/some/random/\"target\" \"/some/random/\"link\""),
            matches: false,
            target: None,
            link: None,
        },
    ];

    for test_case in test_cases {
        let caps = spec_tokens(&test_case.input[..]);
        assert_eq!(
            caps.is_some(),
            test_case.matches,
            "Didn't match as expected for input '{}'",
            test_case.input
        );

        if let Some((target, link)) = caps {
            assert_eq!(target, test_case.target.unwrap());
            assert_eq!(link, test_case.link.unwrap());
        }
    }
}

#[test]
fn line_type_examples() {
    assert_eq!(line_type("/wrong/\"target /wrong/\"link"), LineType::Invalid(Invalid::NoMatch));
    assert_eq!(line_type(""), LineType::Empty);
    assert_eq!(line_type("// A comment."), LineType::Comment);
    let valid_line = "/home/my_user/.dotfiles/my_program/config /home/my_user/.config/my_program_config";
    assert_eq!(line_type(valid_line), LineType::Invalid(Invalid::TargetDoesNotExist));
}

#[test]
fn comment_wins_over_everything() {
    assert_eq!(line_type("//"), LineType::Comment);
    assert_eq!(line_type("///a /b"), LineType::Comment);
    assert_eq!(classify_line("// x y", true), LineType::Comment);
    assert_eq!(classify_line("// x y", false), LineType::Comment);
}

#[test]
fn empty_line_is_empty() {
    assert_eq!(classify_line("", true), LineType::Empty);
    assert_eq!(classify_line("", false), LineType::Empty);
}

#[test]
fn whitespace_only_line_does_not_match() {
    assert_eq!(line_type("   "), LineType::Invalid(Invalid::NoMatch));
    assert_eq!(line_type("\t"), LineType::Invalid(Invalid::NoMatch));
}

#[test]
fn bare_tokens_give_exact_paths() {
    assert_eq!(
        classify_line("  /a/realfile \t /a/newlink  ", true),
        LineType::SlsSpec { target: String::from("/a/realfile"), link: String::from("/a/newlink") }
    );
    assert_eq!(
        classify_line("/a/realfile /a/newlink", false),
        LineType::Invalid(Invalid::TargetDoesNotExist)
    );
}

#[test]
fn existing_target_gives_spec() {
    assert_eq!(
        line_type("/ /some/link"),
        LineType::SlsSpec { target: String::from("/"), link: String::from("/some/link") }
    );
}

#[test]
fn quotes_are_stripped_from_paths() {
    assert_eq!(
        spec_paths_of("\"/t with space\" \"/l with space\""),
        Some((String::from("/t with space"), String::from("/l with space")))
    );
    assert_eq!(
        classify_line("\"/t\" /l", true),
        LineType::SlsSpec { target: String::from("/t"), link: String::from("/l") }
    );
}

#[test]
fn embedded_quote_gives_no_match() {
    for line in [
        "/some/random/\"target /some/random/link",
        "/some/random/target /some/random/\"link",
        "\"/some/random/\"target\" \"/some/random/\"link\"",
        "\"/unterminated /l",
        "/t \"/unterminated",
        "\"\" /l",
        "/t \"\"",
        "/t/\" /l",
    ] {
        assert_eq!(classify_line(line, true), LineType::Invalid(Invalid::NoMatch), "{}", line);
    }
}

#[test]
fn wrong_token_counts_give_no_match() {
    assert_eq!(classify_line("/only/one", true), LineType::Invalid(Invalid::NoMatch));
    assert_eq!(classify_line("/a /b /c", true), LineType::Invalid(Invalid::NoMatch));
    assert_eq!(classify_line("\"/a\"/b /c", true), LineType::Invalid(Invalid::NoMatch));
}

#[test]
fn unicode_whitespace_separates_tokens() {
    assert_eq!(
        classify_line("/a\u{3000}/b\u{a0}", true),
        LineType::SlsSpec { target: String::from("/a"), link: String::from("/b") }
    );
}
