//! The run engine's decisions: what to do with each line of a
//! symlink-specification file and with the link it names, and the run-wide
//! policy that an "always" choice sets.
//!
//! The caller performs what is decided (reading files, prompting, touching
//! the filesystem) and hands back what it observed.

use vstd::prelude::*;
use crate::errors::{NoMatchForLine, TargetDoesNotExistForLine};
use crate::line::{classify, line_type, Invalid, LineKind, LineType};
use crate::params::Params;
use crate::prompt::AlreadyExistPromptOptions;

verus! {

/// What to do with a link that conflicts with an existing file.
#[derive(Debug, Clone, Copy, PartialEq, Eq, Structural)]
pub enum Action {
    /// Leave the existing file and make no symlink.
    Skip,
    /// Move the existing file to the backup directory, then make the symlink.
    Backup,
    /// Remove the existing file, then make the symlink.
    Overwrite,
}

/// What stands at a link path before the symlink is made.
#[derive(Debug, Clone, PartialEq, Eq)]
pub enum LinkState {
    /// Nothing: no file, directory or symlink.
    Absent,
    /// A symlink, which stores this target.
    Symlink(String),
    /// A file or a directory.
    Occupied,
}

/// An invalid line, with where it is.
#[derive(Debug, Clone, PartialEq, Eq)]
pub enum LineError {
    NoMatch(NoMatchForLine),
    TargetDoesNotExist(TargetDoesNotExistForLine),
}

impl LineError {
    pub open spec fn spec_message(&self) -> Seq<char> {
        match self {
            LineError::NoMatch(e) => e.spec_message(),
            LineError::TargetDoesNotExist(e) => e.spec_message(),
        }
    }

    pub fn message(&self) -> (r: String)
        ensures
            r@ == self.spec_message(),
    {
        match self {
            LineError::NoMatch(e) => e.message(),
            LineError::TargetDoesNotExist(e) => e.message(),
        }
    }
}

/// What the engine decided for one line.
#[derive(Debug, Clone, PartialEq, Eq)]
pub enum LineStep {
    /// An empty line or a comment: nothing to do.
    Ignore,
    /// An invalid line in an interactive run: show the message, have the
    /// user acknowledge it, and go on with the next line.
    Acknowledge(LineError),
    /// An invalid line in a non-interactive run: the run stops with this error.
    Abort(LineError),
    /// A valid specification: look at what stands at `link`.
    Check { target: String, link: String },
}

/// What the engine decided for a valid specification, given what stands at its link.
#[derive(Debug, Clone, Copy, PartialEq, Eq, Structural)]
pub enum LinkStep {
    /// Nothing stands at the link: make the symlink (`d`).
    Create,
    /// The link already is a symlink to the target: nothing to do (`.`).
    AlreadyThere,
    /// A conflict, settled by the run's policy without asking.
    Apply(Action),
    /// A conflict, and no policy yet: ask the user.
    Ask,
}

/// The engine of a run: its parameters and the policy in force.
#[derive(Debug)]
pub struct Engine {
    /// The action applied to every conflict without asking, once chosen.
    action: Option<Action>,
    params: Params,
}

/// The policy a run starts with.
pub open spec fn initial_policy(params: Params) -> Option<Action> {
    if params.always_backup {
        Some(Action::Backup)
    } else if params.always_skip {
        Some(Action::Skip)
    } else {
        None
    }
}

/// The action that an option performs.
pub open spec fn action_of(opt: AlreadyExistPromptOptions) -> Action {
    match opt {
        AlreadyExistPromptOptions::Skip | AlreadyExistPromptOptions::AlwaysSkip => Action::Skip,
        AlreadyExistPromptOptions::Backup | AlreadyExistPromptOptions::AlwaysBackup => Action::Backup,
        AlreadyExistPromptOptions::Overwrite | AlreadyExistPromptOptions::AlwaysOverwrite => Action::Overwrite,
    }
}

/// Whether an option also sets the policy for the rest of the run.
pub open spec fn is_always(opt: AlreadyExistPromptOptions) -> bool {
    match opt {
        AlreadyExistPromptOptions::AlwaysSkip | AlreadyExistPromptOptions::AlwaysBackup
        | AlreadyExistPromptOptions::AlwaysOverwrite => true,
        _ => false,
    }
}

/// The policy after the user chose `opt` under `policy`.
pub open spec fn policy_after(policy: Option<Action>, opt: AlreadyExistPromptOptions) -> Option<Action> {
    if is_always(opt) {
        Some(action_of(opt))
    } else {
        policy
    }
}

/// The decision for a valid specification whose link is in `state`.
pub open spec fn link_step_of(policy: Option<Action>, target: Seq<char>, state: LinkState) -> LinkStep {
    match state {
        LinkState::Absent => LinkStep::Create,
        LinkState::Symlink(stored) => if stored@ == target {
            LinkStep::AlreadyThere
        } else {
            match policy {
                Some(a) => LinkStep::Apply(a),
                None => LinkStep::Ask,
            }
        },
        LinkState::Occupied => match policy {
            Some(a) => LinkStep::Apply(a),
            None => LinkStep::Ask,
        },
    }
}

/// The shape of the decision for a line of kind `kind`; for an invalid line,
/// the error it carries is given by [`line_error_matches`].
pub open spec fn line_step_matches(batch: bool, file: Seq<char>, line_no: u64, kind: LineKind, step: LineStep) -> bool {
    match kind {
        LineKind::Empty | LineKind::Comment => step == LineStep::Ignore,
        LineKind::Invalid(invalid) => match step {
            LineStep::Acknowledge(e) => !batch && line_error_matches(file, line_no, invalid, e),
            LineStep::Abort(e) => batch && line_error_matches(file, line_no, invalid, e),
            _ => false,
        },
        LineKind::SlsSpec { target, link } => match step {
            LineStep::Check { target: t, link: l } => t@ == target && l@ == link,
            _ => false,
        },
    }
}

/// `e` is the error for an invalid line `line_no` of `file`.
pub open spec fn line_error_matches(file: Seq<char>, line_no: u64, invalid: Invalid, e: LineError) -> bool {
    match (invalid, e) {
        (Invalid::NoMatch, LineError::NoMatch(x)) => x.file@ == file && x.line_no == line_no,
        (Invalid::TargetDoesNotExist, LineError::TargetDoesNotExist(x)) => x.file@ == file && x.line_no == line_no,
        _ => false,
    }
}

impl Engine {
    /// The policy in force.
    pub closed spec fn policy(&self) -> Option<Action> {
        self.action
    }

    pub closed spec fn spec_params(&self) -> Params {
        self.params
    }

    /// A run is interactive unless its parameters fix a policy.
    pub open spec fn spec_is_batch(&self) -> bool {
        self.spec_params().always_skip || self.spec_params().always_backup
    }

    /// Makes the engine of a run with `params`. A run that always skips or
    /// always backs up starts with that policy.
    pub fn new(params: Params) -> (r: Self)
        ensures
            r.policy() == initial_policy(params),
            r.spec_params() == params,
    {
        let mut action: Option<Action> = None;
        if params.always_skip {
            action = Some(Action::Skip);
        }
        if params.always_backup {
            action = Some(Action::Backup);
        }
        Self { action, params }
    }

    pub fn params(&self) -> (r: &Params)
        ensures
            *r == self.spec_params(),
    {
        &self.params
    }

    pub fn is_batch(&self) -> (r: bool)
        ensures
            r == self.spec_is_batch(),
    {
        self.params.always_skip || self.params.always_backup
    }

    /// Decides what to do with line `line_no` (counted from 1) of the
    /// specification file `sls`, already classified as `line_type`.
    pub fn line_step(&self, sls: &str, line_no: u64, line_type: LineType) -> (r: LineStep)
        ensures
            line_step_matches(self.spec_is_batch(), sls@, line_no, line_type@, r),
    {
        match line_type {
            LineType::Empty | LineType::Comment => LineStep::Ignore,
            LineType::Invalid(invalid) => {
                let file = sls.to_string();
                let e = match invalid {
                    Invalid::NoMatch => LineError::NoMatch(NoMatchForLine { file, line_no }),
                    Invalid::TargetDoesNotExist => LineError::TargetDoesNotExist(
                        TargetDoesNotExistForLine { file, line_no },
                    ),
                };
                if self.is_batch() {
                    LineStep::Abort(e)
                } else {
                    LineStep::Acknowledge(e)
                }
            },
            LineType::SlsSpec { target, link } => LineStep::Check { target, link },
        }
    }

    /// Classifies line `line_no` of `sls` and decides what to do with it.
    /// Only the existence of the target is looked up on disk.
    pub fn process_line(&self, sls: &str, line_no: u64, line: &str) -> (r: LineStep)
        ensures
            exists|target_exists: bool|
                line_step_matches(self.spec_is_batch(), sls@, line_no, #[trigger] classify(line@, target_exists), r),
    {
        let lt = line_type(line);
        let r = self.line_step(sls, line_no, lt);
        r
    }

    /// Decides what to do with the specification `link -> target`, given
    /// what stands at `link`. A symlink that stores exactly `target` needs
    /// nothing; anything else at `link` is a conflict.
    pub fn resolve_link(&self, target: &str, state: &LinkState) -> (r: LinkStep)
        ensures
            r == link_step_of(self.policy(), target@, *state),
    {
        match state {
            LinkState::Absent => LinkStep::Create,
            LinkState::Symlink(stored) => {
                let t = target.to_string();
                if *stored == t {
                    LinkStep::AlreadyThere
                } else {
                    self.policy_step()
                }
            },
            LinkState::Occupied => self.policy_step(),
        }
    }

    fn policy_step(&self) -> (r: LinkStep)
        ensures
            r == match self.policy() {
                Some(a) => LinkStep::Apply(a),
                None => LinkStep::Ask,
            },
    {
        match self.action {
            Some(a) => LinkStep::Apply(a),
            None => LinkStep::Ask,
        }
    }

    /// Takes the user's answer to a conflict prompt: returns the action to
    /// perform now, and keeps it as the policy if the answer is an "always" one.
    pub fn take_choice(&mut self, opt: AlreadyExistPromptOptions) -> (r: Action)
        ensures
            r == action_of(opt),
            final(self).policy() == policy_after(old(self).policy(), opt),
            final(self).spec_params() == old(self).spec_params(),
    {
        let a = match opt {
            AlreadyExistPromptOptions::Skip | AlreadyExistPromptOptions::AlwaysSkip => Action::Skip,
            AlreadyExistPromptOptions::Backup | AlreadyExistPromptOptions::AlwaysBackup => Action::Backup,
            AlreadyExistPromptOptions::Overwrite | AlreadyExistPromptOptions::AlwaysOverwrite => Action::Overwrite,
        };
        match opt {
            AlreadyExistPromptOptions::AlwaysSkip | AlreadyExistPromptOptions::AlwaysBackup
            | AlreadyExistPromptOptions::AlwaysOverwrite => {
                self.action = Some(a);
            },
            _ => {},
        }
        a
    }
}


/// `state` is a symlink that stores exactly `target`.
pub open spec fn is_symlink_to(state: LinkState, target: Seq<char>) -> bool {
    match state {
        LinkState::Symlink(stored) => stored@ == target,
        _ => false,
    }
}

/// A second run over the same specifications, after a first run that met no
/// conflict, changes nothing and asks nothing: each link that the first run
/// created or found is now a symlink to its target, so whatever the policy,
/// the decision is "already there".
pub proof fn lemma_second_run_is_noop(
    first_policy: Option<Action>,
    second_policy: Option<Action>,
    target: Seq<char>,
    before: LinkState,
    after: LinkState,
)
    requires
        link_step_of(first_policy, target, before) == LinkStep::Create
            || link_step_of(first_policy, target, before) == LinkStep::AlreadyThere,
        link_step_of(first_policy, target, before) == LinkStep::AlreadyThere ==> after == before,
        link_step_of(first_policy, target, before) == LinkStep::Create ==> is_symlink_to(after, target),
    ensures
        link_step_of(second_policy, target, after) == LinkStep::AlreadyThere,
{
}

/// Once the user answers "always back up", every later conflict of the run,
/// in this file or another, is settled by a backup without a prompt:
/// deciding on a line or a link never changes the policy, and no later
/// decision is [`LinkStep::Ask`].
pub proof fn lemma_always_backup_is_sticky(policy: Option<Action>)
    ensures
        policy_after(policy, AlreadyExistPromptOptions::AlwaysBackup) == Some(Action::Backup),
        forall|target: Seq<char>, state: LinkState|
            #[trigger] link_step_of(Some(Action::Backup), target, state) != LinkStep::Ask
            && (link_step_of(Some(Action::Backup), target, state) == LinkStep::Create
                || link_step_of(Some(Action::Backup), target, state) == LinkStep::AlreadyThere
                || link_step_of(Some(Action::Backup), target, state) == LinkStep::Apply(Action::Backup)),
{
}

} // verus!
