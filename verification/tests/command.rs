use winproctool::command::{interpret, prompt, Command, Rejection, Verb};
use winproctool::control::{Action, Operation};

fn run(action: Action, pid: u32) -> Command {
    Command::Run(Operation::Apply { action, pid })
}

#[test]
fn interpret_create_takes_the_second_word_as_path() {
    assert_eq!(
        interpret("create notepad.exe\n"),
        Command::Run(Operation::Create { path: "notepad.exe".to_string() })
    );
    assert_eq!(
        interpret("  create   C:\\Windows\\System32\\calc.exe   /x /y \r\n"),
        Command::Run(Operation::Create { path: "C:\\Windows\\System32\\calc.exe".to_string() })
    );
    assert_eq!(interpret("create 123"), Command::Run(Operation::Create { path: "123".to_string() }));
}

#[test]
fn interpret_reads_the_three_actions() {
    assert_eq!(interpret("terminate 1234\n"), run(Action::Terminate, 1234));
    assert_eq!(interpret("suspend 0\n"), run(Action::Suspend, 0));
    assert_eq!(interpret("resume 4294967295\n"), run(Action::Resume, u32::MAX));
    assert_eq!(interpret("\tterminate\t+7 and more"), run(Action::Terminate, 7));
}

#[test]
fn interpret_exit() {
    assert_eq!(interpret("exit"), Command::Exit);
    assert_eq!(interpret("exit\n"), Command::Exit);
    assert_eq!(interpret("  exit now please\r\n"), Command::Exit);
}

#[test]
fn interpret_blank_line_is_no_command() {
    assert_eq!(interpret(""), Command::Blank);
    assert_eq!(interpret("\n"), Command::Blank);
    assert_eq!(interpret("\r\n"), Command::Blank);
    assert_eq!(interpret("   \t  \n"), Command::Blank);
    assert_eq!(interpret("\u{00A0}\u{3000}\n"), Command::Blank);
}

#[test]
fn interpret_missing_argument_names_the_command() {
    assert_eq!(interpret("create\n"), Command::Rejected(Rejection::MissingArgument { verb: Verb::Create }));
    assert_eq!(
        interpret("terminate\n"),
        Command::Rejected(Rejection::MissingArgument { verb: Verb::Terminate })
    );
    assert_eq!(interpret("suspend  "), Command::Rejected(Rejection::MissingArgument { verb: Verb::Suspend }));
    assert_eq!(interpret(" resume"), Command::Rejected(Rejection::MissingArgument { verb: Verb::Resume }));
}

#[test]
fn interpret_malformed_pid_is_rejected() {
    let words = ["abc", "-1", "12x", "1.0", "4294967296", "0x1F", "+", "１２", "notepad.exe"];
    for verb in ["terminate", "suspend", "resume"] {
        for word in words {
            let line = format!("{} {}\n", verb, word);
            assert_eq!(interpret(&line), Command::Rejected(Rejection::InvalidPid), "{:?}", line);
        }
    }
    assert_eq!(interpret("terminate abc 5\n"), Command::Rejected(Rejection::InvalidPid));
}

#[test]
fn interpret_unknown_command() {
    assert_eq!(interpret("kill 5\n"), Command::Rejected(Rejection::UnknownCommand));
    assert_eq!(interpret("Create notepad.exe\n"), Command::Rejected(Rejection::UnknownCommand));
    assert_eq!(interpret("EXIT\n"), Command::Rejected(Rejection::UnknownCommand));
    assert_eq!(interpret("exit5\n"), Command::Rejected(Rejection::UnknownCommand));
    assert_eq!(interpret("5 terminate\n"), Command::Rejected(Rejection::UnknownCommand));
    assert_eq!(interpret("terminate5\n"), Command::Rejected(Rejection::UnknownCommand));
}

#[test]
fn rejection_messages() {
    assert_eq!(Rejection::MissingArgument { verb: Verb::Create }.message(), "Usage: create <app_name>");
    assert_eq!(Rejection::MissingArgument { verb: Verb::Terminate }.message(), "Usage: terminate <pid>");
    assert_eq!(Rejection::MissingArgument { verb: Verb::Suspend }.message(), "Usage: suspend <pid>");
    assert_eq!(Rejection::MissingArgument { verb: Verb::Resume }.message(), "Usage: resume <pid>");
    assert_eq!(Rejection::InvalidPid.message(), "Invalid PID.");
    assert_eq!(Rejection::UnknownCommand.message(), "Unknown command.");
}

#[test]
fn prompt_lists_the_commands() {
    assert_eq!(
        prompt(),
        "Enter command (create <app>, terminate <pid>, suspend <pid>, resume <pid>, exit): "
    );
}
