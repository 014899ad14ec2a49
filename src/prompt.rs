//! The decisions of the interactive prompts: what one line of user input
//! means, and the texts the prompts show. Reading and printing are left to
//! the caller, which repeats the prompt until a choice is made.

use vstd::prelude::*;
use vstd::string::StringExecFns;
use crate::text::chars_of;

verus! {

/// What the user can choose when a file already stands where a symlink is
/// to be made.
#[derive(Debug, Clone, Copy, PartialEq, Eq, Structural)]
pub enum AlreadyExistPromptOptions {
    /// Don't create the symlink and move on to the next one.
    Skip,
    /// Skip this conflict and every later one.
    AlwaysSkip,
    /// Move the existing file to the backup directory, then make the symlink.
    Backup,
    /// Back up for this conflict and every later one.
    AlwaysBackup,
    /// Replace the existing file by the symlink.
    Overwrite,
    /// Overwrite for this conflict and every later one.
    AlwaysOverwrite,
}

/// The meaning of one line of input at a prompt.
#[derive(Debug, Clone, Copy, PartialEq, Eq, Structural)]
pub enum PromptReply {
    /// A valid choice: the prompt is over.
    Chosen(AlreadyExistPromptOptions),
    /// The help key: show the help and ask again.
    Help,
    /// Anything else: say which inputs are valid and ask again.
    Wrong,
}

/// The option that input `s` selects, if any.
pub open spec fn option_of(s: Seq<char>) -> Option<AlreadyExistPromptOptions> {
    if s == seq!['s'] {
        Some(AlreadyExistPromptOptions::Skip)
    } else if s == seq!['S'] {
        Some(AlreadyExistPromptOptions::AlwaysSkip)
    } else if s == seq!['b'] {
        Some(AlreadyExistPromptOptions::Backup)
    } else if s == seq!['B'] {
        Some(AlreadyExistPromptOptions::AlwaysBackup)
    } else if s == seq!['o'] {
        Some(AlreadyExistPromptOptions::Overwrite)
    } else if s == seq!['O'] {
        Some(AlreadyExistPromptOptions::AlwaysOverwrite)
    } else {
        None
    }
}

/// The meaning of input `s` at the conflict prompt, whose help key is `h`.
pub open spec fn conflict_reply_of(s: Seq<char>) -> PromptReply {
    match option_of(s) {
        Some(o) => PromptReply::Chosen(o),
        None => if s == seq!['h'] {
            PromptReply::Help
        } else {
            PromptReply::Wrong
        },
    }
}

impl AlreadyExistPromptOptions {
    /// The option that `input` selects, if any.
    pub fn match_input(input: &str) -> (r: Option<Self>)
        ensures
            r == option_of(input@),
    {
        let s = chars_of(input);
        if s.len() != 1 {
            assert(s@ != seq!['s'] && s@ != seq!['S'] && s@ != seq!['b']);
            assert(s@ != seq!['B'] && s@ != seq!['o'] && s@ != seq!['O']);
            return None;
        }
        let c = s[0];
        assert(s@ == seq![c]);
        if c == 's' {
            Some(AlreadyExistPromptOptions::Skip)
        } else if c == 'S' {
            Some(AlreadyExistPromptOptions::AlwaysSkip)
        } else if c == 'b' {
            Some(AlreadyExistPromptOptions::Backup)
        } else if c == 'B' {
            Some(AlreadyExistPromptOptions::AlwaysBackup)
        } else if c == 'o' {
            Some(AlreadyExistPromptOptions::Overwrite)
        } else if c == 'O' {
            Some(AlreadyExistPromptOptions::AlwaysOverwrite)
        } else {
            assert(seq![c] != seq!['s'] && seq![c] != seq!['S'] && seq![c] != seq!['b']) by {
                assert(seq![c][0] == c);
            }
            assert(seq![c] != seq!['B'] && seq![c] != seq!['o'] && seq![c] != seq!['O']) by {
                assert(seq![c][0] == c);
            }
            None
        }
    }

    /// The inputs that select an option, in menu order.
    pub fn get_valid_inputs() -> (r: Vec<char>)
        ensures
            r@ == seq!['s', 'S', 'b', 'B', 'o', 'O'],
            forall|i: int| 0 <= i < r@.len() ==> option_of(seq![#[trigger] r@[i]]) is Some,
    {
        let r = vec!['s', 'S', 'b', 'B', 'o', 'O'];
        assert(r@ =~= seq!['s', 'S', 'b', 'B', 'o', 'O']);
        r
    }
}

fn is_help_key(input: &str) -> (r: bool)
    ensures
        r == (input@ == seq!['h']),
{
    let s = chars_of(input);
    if s.len() == 1 && s[0] == 'h' {
        assert(s@ =~= seq!['h']);
        true
    } else {
        assert(s@.len() == 1 ==> s@[0] != 'h');
        assert(seq!['h'][0] == 'h');
        false
    }
}

/// What one line of input (without its line break) means at the conflict prompt.
pub fn conflict_reply(input: &str) -> (r: PromptReply)
    ensures
        r == conflict_reply_of(input@),
{
    match AlreadyExistPromptOptions::match_input(input) {
        Some(o) => PromptReply::Chosen(o),
        None => if is_help_key(input) {
            PromptReply::Help
        } else {
            PromptReply::Wrong
        },
    }
}

/// The text of the prompt that asks what to do about a conflict at `link`.
pub open spec fn conflict_prompt_text(target: Seq<char>, link: Seq<char>) -> Seq<char> {
    "(?) "@ + link + " -> "@ + target + "\n    A file already exists at link path.\n    [s]kip [S]kip all [b]ackup [B]ackup all [o]verwrite [O]verwrite all [h]elp: "@
}

/// The prompt shown on a conflict between `link_path_str` and an existing file.
pub fn already_exist_prompt(target_path_str: &str, link_path_str: &str) -> (r: String)
    ensures
        r@ == conflict_prompt_text(target_path_str@, link_path_str@),
{
    let mut r = "(?) ".to_string();
    r.append(link_path_str);
    r.append(" -> ");
    r.append(target_path_str);
    r.append("\n    A file already exists at link path.\n    [s]kip [S]kip all [b]ackup [B]ackup all [o]verwrite [O]verwrite all [h]elp: ");
    r
}

/// The text of the prompt that makes the user acknowledge `err_mess`.
pub open spec fn error_prompt_text(err_mess: Seq<char>) -> Seq<char> {
    "(?) "@ + err_mess + "\n    Enter a key to continue: "@
}

/// The prompt that shows `err_mess` and waits for any input. Every input
/// acknowledges it.
pub fn error_prompt(err_mess: &str) -> (r: String)
    ensures
        r@ == error_prompt_text(err_mess@),
{
    let mut r = "(?) ".to_string();
    r.append(err_mess);
    r.append("\n    Enter a key to continue: ");
    r
}

/// The answer to an input that is neither a choice nor the help key.
pub fn wrong_input_message() -> (r: String)
    ensures
        r@ == "    Wrong input! Valid inputs are: s, S, b, B, o, O, h. Try again."@,
{
    "    Wrong input! Valid inputs are: s, S, b, B, o, O, h. Try again.".to_string()
}

/// The help shown on the help key, one entry per option.
pub fn action_help() -> (r: String)
    ensures
        r@ == "    ----------\n    [s]kip : Don't create the symlink and move on to the next one.\n    [S]kip all : [s]kip for the current symlink and all further symlink conflicting with an existing file.\n    [b]ackup : Move the existing file in BACKUP_DIR, then make the current symlink.\n    [B]ackup all : [b]ackup for the current symlink and all further symlink conflicting with an existing file.\n    [o]verwrite : Overwrite the existing file with the symlink (beware data loss!)\n    [O]verwrite all : [o]verwrite for the current symlink and all further symlink conflicting with an existing file.\n    ----------"@,
{
    "    ----------\n    [s]kip : Don't create the symlink and move on to the next one.\n    [S]kip all : [s]kip for the current symlink and all further symlink conflicting with an existing file.\n    [b]ackup : Move the existing file in BACKUP_DIR, then make the current symlink.\n    [B]ackup all : [b]ackup for the current symlink and all further symlink conflicting with an existing file.\n    [o]verwrite : Overwrite the existing file with the symlink (beware data loss!)\n    [O]verwrite all : [o]verwrite for the current symlink and all further symlink conflicting with an existing file.\n    ----------".to_string()
}

} // verus!
