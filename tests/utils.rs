use mksls::utils::{backup_file_name, backup_name_of, feedback, skip, trim_newline, Tag};

#[test]
fn skip_feedback_line_format() {
    assert_eq!(skip("/target", "/link"), "(s) /link -> /target");
}

#[test]
fn feedback_tags() {
    assert_eq!(feedback(Tag::Done, "/t", "/l"), "(d) /l -> /t");
    assert_eq!(feedback(Tag::AlreadyThere, "/t", "/l"), "(.) /l -> /t");
    assert_eq!(feedback(Tag::Skipped, "/t", "/l"), "(s) /l -> /t");
    assert_eq!(feedback(Tag::BackedUp, "/t", "/l"), "(b) /l -> /t");
    assert_eq!(feedback(Tag::Overwritten, "/t", "/l"), "(o) /l -> /t");
}

#[test]
fn trim_newline_cases() {
    let cases = [
        ("s\n", "s"),
        ("s\r\n", "s"),
        ("s", "s"),
        ("s\r", "s\r"),
        ("\n\n", "\n"),
        ("", ""),
        ("\r\n", ""),
        ("é\n", "é"),
    ];
    for (input, expected) in cases {
        let mut s = String::from(input);
        trim_newline(&mut s);
        assert_eq!(s, expected, "{:?}", input);
    }
}

#[test]
fn backup_names() {
    assert_eq!(
        backup_name_of(Some("config"), Some("toml"), "2024-01-02T03:04:05+00:00"),
        "config_backup_2024-01-02T03:04:05+00:00.toml"
    );
    assert_eq!(backup_name_of(Some("link"), None, "T"), "link_backup_T");
    assert_eq!(backup_name_of(None, Some("x"), "T"), ".x_backup_T");
    assert_eq!(backup_name_of(None, None, "T"), ".");
}

#[test]
fn backup_file_name_keeps_stem_and_extension() {
    let name = backup_file_name("/home/u/.config/app.conf");
    assert!(name.starts_with("app_backup_"), "{}", name);
    assert!(name.ends_with(".conf"), "{}", name);
    assert!(name.len() > "app_backup_.conf".len());
    let name = backup_file_name("/a/link");
    assert!(name.starts_with("link_backup_"), "{}", name);
    let name = backup_file_name("/a/.bashrc");
    assert!(name.starts_with(".bashrc_backup_"), "{}", name);
}
