use mksls::engine::{Action, Engine, LineError, LineStep, LinkState, LinkStep};
use mksls::errors::{NoMatchForLine, TargetDoesNotExistForLine};
use mksls::line::{Invalid, LineType};
use mksls::params::Params;
use mksls::prompt::AlreadyExistPromptOptions;
use mksls::utils::{feedback, skip, Tag};

fn params(always_skip: bool, always_backup: bool) -> Params {
    Params {
        dir: String::from("/a"),
        filename: String::from("sls"),
        backup_dir: String::from("/backups"),
        always_skip,
        always_backup,
    }
}

fn spec(target: &str, link: &str) -> LineType {
    LineType::SlsSpec { target: String::from(target), link: String::from(link) }
}

#[test]
fn missing_link_is_created() {
    let engine = Engine::new(params(false, false));
    let step = engine.line_step("/a/sls", 1, spec("/a/realfile", "/a/newlink"));
    assert_eq!(
        step,
        LineStep::Check { target: String::from("/a/realfile"), link: String::from("/a/newlink") }
    );
    assert_eq!(engine.resolve_link("/a/realfile", &LinkState::Absent), LinkStep::Create);
    assert_eq!(feedback(Tag::Done, "/a/realfile", "/a/newlink"), "(d) /a/newlink -> /a/realfile");
}

#[test]
fn missing_target_aborts_a_batch_run() {
    let engine = Engine::new(params(true, false));
    let step = engine.process_line("/a/sls", 7, "/missing/target /a/link");
    let expected = LineError::TargetDoesNotExist(TargetDoesNotExistForLine {
        file: String::from("/a/sls"),
        line_no: 7,
    });
    assert_eq!(step, LineStep::Abort(expected.clone()));
    assert_eq!(
        expected.message(),
        "Invalid line in /a/sls, line number 7.\nThe target does not exist."
    );
}

#[test]
fn invalid_line_is_acknowledged_in_an_interactive_run() {
    let engine = Engine::new(params(false, false));
    let step = engine.process_line("/a/sls", 12, "/a \"b");
    let expected = LineError::NoMatch(NoMatchForLine { file: String::from("/a/sls"), line_no: 12 });
    assert_eq!(step, LineStep::Acknowledge(expected.clone()));
    assert_eq!(
        expected.message(),
        "Invalid line in /a/sls, line number 12.\nCan't match up against the symlink specification format."
    );
}

#[test]
fn empty_and_comment_lines_are_ignored() {
    let engine = Engine::new(params(false, true));
    assert_eq!(engine.process_line("/a/sls", 1, ""), LineStep::Ignore);
    assert_eq!(engine.process_line("/a/sls", 2, "// note"), LineStep::Ignore);
    assert_eq!(engine.line_step("/a/sls", 3, LineType::Invalid(Invalid::NoMatch)),
        LineStep::Abort(LineError::NoMatch(NoMatchForLine { file: String::from("/a/sls"), line_no: 3 })));
}

#[test]
fn conflict_with_always_skip_is_skipped() {
    let engine = Engine::new(params(true, false));
    assert_eq!(engine.resolve_link("/a/target", &LinkState::Occupied), LinkStep::Apply(Action::Skip));
    assert_eq!(skip("/a/target", "/a/link"), "(s) /a/link -> /a/target");
}

#[test]
fn conflict_without_policy_asks() {
    let engine = Engine::new(params(false, false));
    assert_eq!(engine.resolve_link("/a/target", &LinkState::Occupied), LinkStep::Ask);
    assert_eq!(
        engine.resolve_link("/a/target", &LinkState::Symlink(String::from("/a/other"))),
        LinkStep::Ask
    );
}

#[test]
fn symlink_to_target_is_already_there() {
    for engine in [Engine::new(params(false, false)), Engine::new(params(false, true))] {
        assert_eq!(
            engine.resolve_link("/a/target", &LinkState::Symlink(String::from("/a/target"))),
            LinkStep::AlreadyThere
        );
    }
    // The comparison is on the text of the paths, with no normalisation.
    let engine = Engine::new(params(false, false));
    assert_eq!(
        engine.resolve_link("/a/target", &LinkState::Symlink(String::from("/a//target"))),
        LinkStep::Ask
    );
}

#[test]
fn second_run_after_creation_is_a_no_op() {
    let engine = Engine::new(params(false, false));
    assert_eq!(engine.resolve_link("/a/realfile", &LinkState::Absent), LinkStep::Create);
    let again = Engine::new(params(false, false));
    assert_eq!(
        again.resolve_link("/a/realfile", &LinkState::Symlink(String::from("/a/realfile"))),
        LinkStep::AlreadyThere
    );
    assert_eq!(feedback(Tag::AlreadyThere, "/a/realfile", "/a/newlink"), "(.) /a/newlink -> /a/realfile");
}

#[test]
fn always_backup_choice_is_sticky() {
    let mut engine = Engine::new(params(false, false));
    assert_eq!(engine.resolve_link("/t1", &LinkState::Occupied), LinkStep::Ask);
    assert_eq!(engine.take_choice(AlreadyExistPromptOptions::AlwaysBackup), Action::Backup);
    assert_eq!(engine.resolve_link("/t2", &LinkState::Occupied), LinkStep::Apply(Action::Backup));
    let _ = engine.process_line("/other/sls", 1, "// another file");
    assert_eq!(
        engine.resolve_link("/t3", &LinkState::Symlink(String::from("/elsewhere"))),
        LinkStep::Apply(Action::Backup)
    );
}

#[test]
fn one_off_choices_are_not_sticky() {
    let mut engine = Engine::new(params(false, false));
    assert_eq!(engine.take_choice(AlreadyExistPromptOptions::Overwrite), Action::Overwrite);
    assert_eq!(engine.resolve_link("/t", &LinkState::Occupied), LinkStep::Ask);
    assert_eq!(engine.take_choice(AlreadyExistPromptOptions::Skip), Action::Skip);
    assert_eq!(engine.take_choice(AlreadyExistPromptOptions::Backup), Action::Backup);
    assert_eq!(engine.resolve_link("/t", &LinkState::Occupied), LinkStep::Ask);
    assert_eq!(engine.take_choice(AlreadyExistPromptOptions::AlwaysOverwrite), Action::Overwrite);
    assert_eq!(engine.resolve_link("/t", &LinkState::Occupied), LinkStep::Apply(Action::Overwrite));
}

#[test]
fn always_skip_choice_sets_skip() {
    let mut engine = Engine::new(params(false, false));
    assert_eq!(engine.take_choice(AlreadyExistPromptOptions::AlwaysSkip), Action::Skip);
    assert_eq!(engine.resolve_link("/t", &LinkState::Occupied), LinkStep::Apply(Action::Skip));
}

#[test]
fn initial_policy_follows_params() {
    assert_eq!(Engine::new(params(false, true)).resolve_link("/t", &LinkState::Occupied), LinkStep::Apply(Action::Backup));
    assert!(Engine::new(params(false, true)).is_batch());
    assert!(!Engine::new(params(false, false)).is_batch());
    assert_eq!(Engine::new(params(false, false)).params(), &params(false, false));
}
