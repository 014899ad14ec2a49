use mksls::prompt::{
    action_help, already_exist_prompt, conflict_reply, error_prompt, wrong_input_message,
    AlreadyExistPromptOptions, PromptReply,
};

#[test]
fn each_key_selects_its_option() {
    let cases = [
        ("s", AlreadyExistPromptOptions::Skip),
        ("S", AlreadyExistPromptOptions::AlwaysSkip),
        ("b", AlreadyExistPromptOptions::Backup),
        ("B", AlreadyExistPromptOptions::AlwaysBackup),
        ("o", AlreadyExistPromptOptions::Overwrite),
        ("O", AlreadyExistPromptOptions::AlwaysOverwrite),
    ];
    for (input, opt) in cases {
        assert_eq!(AlreadyExistPromptOptions::match_input(input), Some(opt));
        assert_eq!(conflict_reply(input), PromptReply::Chosen(opt));
    }
}

#[test]
fn help_and_wrong_inputs() {
    assert_eq!(conflict_reply("h"), PromptReply::Help);
    assert_eq!(AlreadyExistPromptOptions::match_input("h"), None);
    for input in ["", "x", "ss", " s", "H", "help"] {
        assert_eq!(conflict_reply(input), PromptReply::Wrong, "{:?}", input);
    }
}

#[test]
fn valid_inputs_in_menu_order() {
    assert_eq!(AlreadyExistPromptOptions::get_valid_inputs(), vec!['s', 'S', 'b', 'B', 'o', 'O']);
    assert_eq!(wrong_input_message(), "    Wrong input! Valid inputs are: s, S, b, B, o, O, h. Try again.");
}

#[test]
fn prompt_texts() {
    assert_eq!(
        already_exist_prompt("/t", "/l"),
        "(?) /l -> /t\n    A file already exists at link path.\n    [s]kip [S]kip all [b]ackup [B]ackup all [o]verwrite [O]verwrite all [h]elp: "
    );
    assert_eq!(error_prompt("bad"), "(?) bad\n    Enter a key to continue: ");
    assert_eq!(action_help().lines().count(), 8);
}
