//! The commands of the console: what a line of input asks for.
//!
//! A line is read by its words. The first names the command; `create`
//! takes the program to start as its second word, `terminate`, `suspend`
//! and `resume` take a process identifier. Words after those are not
//! looked at.

use vstd::prelude::*;

use crate::control::{Action, Operation, OperationView};
use crate::number::{parse_pid, pid_of};
use crate::words::{blank, no_words_iff_blank, same_text, split_words, words_of};

verus! {

/// A command that takes an argument.
#[derive(Clone, Copy, Debug, PartialEq, Eq, Structural)]
pub enum Verb {
    Create,
    Terminate,
    Suspend,
    Resume,
}

/// Why a line was turned down.
#[derive(Clone, Copy, Debug, PartialEq, Eq, Structural)]
pub enum Rejection {
    /// The command is known, but its argument is missing.
    MissingArgument { verb: Verb },
    /// The argument is no process identifier.
    InvalidPid,
    /// The first word is no command.
    UnknownCommand,
}

/// What a line of input asks for.
#[derive(Debug, PartialEq, Eq)]
pub enum Command {
    /// Nothing: the line holds no word.
    Blank,
    /// Leave.
    Exit,
    /// Carry out an operation.
    Run(Operation),
    /// Nothing that can be done; the user is told why.
    Rejected(Rejection),
}

/// A command as contracts see it.
pub enum CommandView {
    Blank,
    Exit,
    Run(OperationView),
    Rejected(Rejection),
}

impl View for Command {
    type V = CommandView;

    open spec fn view(&self) -> CommandView {
        match *self {
            Command::Blank => CommandView::Blank,
            Command::Exit => CommandView::Exit,
            Command::Run(operation) => CommandView::Run(operation@),
            Command::Rejected(rejection) => CommandView::Rejected(rejection),
        }
    }
}

/// The word that names `verb`.
pub open spec fn verb_name(verb: Verb) -> Seq<char> {
    match verb {
        Verb::Create => "create"@,
        Verb::Terminate => "terminate"@,
        Verb::Suspend => "suspend"@,
        Verb::Resume => "resume"@,
    }
}

/// The verb that `word` names, if it names one. Case counts.
pub open spec fn verb_of(word: Seq<char>) -> Option<Verb> {
    if word == verb_name(Verb::Create) {
        Some(Verb::Create)
    } else if word == verb_name(Verb::Terminate) {
        Some(Verb::Terminate)
    } else if word == verb_name(Verb::Suspend) {
        Some(Verb::Suspend)
    } else if word == verb_name(Verb::Resume) {
        Some(Verb::Resume)
    } else {
        None
    }
}

/// What `verb` asks for when `argument` follows it.
pub open spec fn with_argument(verb: Verb, argument: Seq<char>) -> CommandView {
    match verb {
        Verb::Create => CommandView::Run(OperationView::Create { path: argument }),
        Verb::Terminate => on_process(Action::Terminate, argument),
        Verb::Suspend => on_process(Action::Suspend, argument),
        Verb::Resume => on_process(Action::Resume, argument),
    }
}

/// `action` on the process that `argument` identifies, or the rejection
/// of an argument that identifies none.
pub open spec fn on_process(action: Action, argument: Seq<char>) -> CommandView {
    match pid_of(argument) {
        Some(pid) => CommandView::Run(OperationView::Apply { action, pid }),
        None => CommandView::Rejected(Rejection::InvalidPid),
    }
}

/// What `line` asks for.
pub open spec fn command_of(line: Seq<char>) -> CommandView {
    let words = words_of(line);
    if words.len() == 0 {
        CommandView::Blank
    } else if words[0] == "exit"@ {
        CommandView::Exit
    } else {
        match verb_of(words[0]) {
            None => CommandView::Rejected(Rejection::UnknownCommand),
            Some(verb) => if words.len() < 2 {
                CommandView::Rejected(Rejection::MissingArgument { verb })
            } else {
                with_argument(verb, words[1])
            },
        }
    }
}

/// What the user is told about `rejection`.
pub open spec fn rejection_text(rejection: Rejection) -> Seq<char> {
    match rejection {
        Rejection::MissingArgument { verb: Verb::Create } => "Usage: create <app_name>"@,
        Rejection::MissingArgument { verb: Verb::Terminate } => "Usage: terminate <pid>"@,
        Rejection::MissingArgument { verb: Verb::Suspend } => "Usage: suspend <pid>"@,
        Rejection::MissingArgument { verb: Verb::Resume } => "Usage: resume <pid>"@,
        Rejection::InvalidPid => "Invalid PID."@,
        Rejection::UnknownCommand => "Unknown command."@,
    }
}

/// The text that asks for the next command.
pub open spec fn prompt_text() -> Seq<char> {
    "Enter command (create <app>, terminate <pid>, suspend <pid>, resume <pid>, exit): "@
}

impl Rejection {
    /// What to tell the user.
    pub fn message(&self) -> (text: String)
        ensures
            text@ == rejection_text(*self),
    {
        match self {
            Rejection::MissingArgument { verb: Verb::Create } => String::from_str(
                "Usage: create <app_name>",
            ),
            Rejection::MissingArgument { verb: Verb::Terminate } => String::from_str(
                "Usage: terminate <pid>",
            ),
            Rejection::MissingArgument { verb: Verb::Suspend } => String::from_str(
                "Usage: suspend <pid>",
            ),
            Rejection::MissingArgument { verb: Verb::Resume } => String::from_str(
                "Usage: resume <pid>",
            ),
            Rejection::InvalidPid => String::from_str("Invalid PID."),
            Rejection::UnknownCommand => String::from_str("Unknown command."),
        }
    }
}

/// The text that asks for the next command.
pub fn prompt() -> (text: String)
    ensures
        text@ == prompt_text(),
{
    String::from_str(
        "Enter command (create <app>, terminate <pid>, suspend <pid>, resume <pid>, exit): ",
    )
}

fn read_verb(word: &str) -> (verb: Option<Verb>)
    ensures
        verb == verb_of(word@),
{
    if same_text(word, "create") {
        Some(Verb::Create)
    } else if same_text(word, "terminate") {
        Some(Verb::Terminate)
    } else if same_text(word, "suspend") {
        Some(Verb::Suspend)
    } else if same_text(word, "resume") {
        Some(Verb::Resume)
    } else {
        None
    }
}

fn read_process(action: Action, argument: &str) -> (command: Command)
    ensures
        command@ == on_process(action, argument@),
{
    match parse_pid(argument) {
        Some(pid) => Command::Run(Operation::Apply { action, pid }),
        None => Command::Rejected(Rejection::InvalidPid),
    }
}

/// Reads a line of input.
pub fn interpret(line: &str) -> (command: Command)
    ensures
        command@ == command_of(line@),
{
    let words = split_words(line);
    assert(words.deep_view().len() == words.len());
    if words.len() == 0 {
        return Command::Blank;
    }
    assert(words.deep_view()[0] == words[0]@);
    if same_text(words[0].as_str(), "exit") {
        return Command::Exit;
    }
    match read_verb(words[0].as_str()) {
        None => Command::Rejected(Rejection::UnknownCommand),
        Some(verb) => {
            if words.len() < 2 {
                Command::Rejected(Rejection::MissingArgument { verb })
            } else {
                assert(words.deep_view()[1] == words[1]@);
                match verb {
                    Verb::Create => Command::Run(Operation::Create { path: words[1].clone() }),
                    Verb::Terminate => read_process(Action::Terminate, words[1].as_str()),
                    Verb::Suspend => read_process(Action::Suspend, words[1].as_str()),
                    Verb::Resume => read_process(Action::Resume, words[1].as_str()),
                }
            }
        },
    }
}

/// A blank line asks for nothing: it is no command, and no rejection
/// either, so nothing is said and nothing is done.
pub proof fn blank_line_asks_for_nothing(line: Seq<char>)
    requires
        blank(line),
    ensures
        command_of(line) == CommandView::Blank,
{
    no_words_iff_blank(line);
}

/// A malformed process identifier stops the command before anything is
/// done. Where `terminate`, `suspend` or `resume` is followed by a word
/// that writes no process identifier, the line is rejected: it yields no
/// operation, so no system call is ever asked for, and what the user is
/// told is "Invalid PID.".
pub proof fn malformed_pid_is_rejected(line: Seq<char>)
    requires
        words_of(line).len() >= 2,
        verb_of(words_of(line)[0]) is Some,
        verb_of(words_of(line)[0]) != Some(Verb::Create),
        pid_of(words_of(line)[1]) is None,
    ensures
        command_of(line) == CommandView::Rejected(Rejection::InvalidPid),
        rejection_text(Rejection::InvalidPid) == "Invalid PID."@,
{
    verbs_are_not_exit();
}

/// Only a line that names an operation in full leads to one: a known
/// verb, followed by a program for `create` and by a well-formed process
/// identifier for the others.
pub proof fn operations_come_from_full_commands(line: Seq<char>)
    requires
        command_of(line) is Run,
    ensures
        words_of(line).len() >= 2,
        verb_of(words_of(line)[0]) matches Some(verb) && command_of(line) == with_argument(
            verb,
            words_of(line)[1],
        ),
        command_of(line) matches CommandView::Run(OperationView::Apply { pid, .. }) ==> pid_of(
            words_of(line)[1],
        ) == Some(pid),
        command_of(line) matches CommandView::Run(OperationView::Create { path })
            ==> path == words_of(line)[1],
{
}

proof fn verbs_are_not_exit()
    ensures
        verb_of("exit"@) is None,
{
    reveal_strlit("exit");
    reveal_strlit("create");
    reveal_strlit("terminate");
    reveal_strlit("suspend");
    reveal_strlit("resume");
    assert("exit"@.len() == 4);
    assert("create"@.len() == 6);
    assert("terminate"@.len() == 9);
    assert("suspend"@.len() == 7);
    assert("resume"@.len() == 6);
}

} // verus!
