//! The lines that tell the user how an operation ended.

use vstd::prelude::*;

use crate::control::{Action, Outcome};
use crate::number::{decimal, to_decimal};

verus! {

/// What is said when `action` was carried out.
pub open spec fn success_text(action: Action) -> Seq<char> {
    match action {
        Action::Terminate => "Process terminated."@,
        Action::Suspend => "Process suspended."@,
        Action::Resume => "Process resumed."@,
    }
}

/// What is said when `action` was not carried out.
pub open spec fn failure_text(action: Action) -> Seq<char> {
    match action {
        Action::Terminate => "Failed to terminate process."@,
        Action::Suspend => "Failed to suspend process."@,
        Action::Resume => "Failed to resume process."@,
    }
}

/// The lines that report `outcome`, in the order in which they are shown.
/// A new process is reported with its identifier and a failed creation
/// with the system's error code, both in base ten. An action that failed
/// for want of a usable handle is reported in two lines, the first of
/// which says what was wrong with the handle.
pub open spec fn report_of(outcome: Outcome) -> Seq<Seq<char>> {
    match outcome {
        Outcome::Created { info } => seq![
            "Process created successfully. PID: "@ + decimal(info.process_id as nat),
        ],
        Outcome::NotCreated { code } => seq![
            "Failed to create process. Error code: "@ + decimal(code as nat),
        ],
        Outcome::Applied { action } => seq![success_text(action)],
        Outcome::NotOpened { action } => seq!["Failed to open process."@, failure_text(action)],
        Outcome::InvalidHandle { action } => seq![
            "Invalid process handle."@,
            failure_text(action),
        ],
        Outcome::NotApplied { action } => seq![failure_text(action)],
    }
}

fn success_line(action: Action) -> (line: String)
    ensures
        line@ == success_text(action),
{
    match action {
        Action::Terminate => String::from_str("Process terminated."),
        Action::Suspend => String::from_str("Process suspended."),
        Action::Resume => String::from_str("Process resumed."),
    }
}

fn failure_line(action: Action) -> (line: String)
    ensures
        line@ == failure_text(action),
{
    match action {
        Action::Terminate => String::from_str("Failed to terminate process."),
        Action::Suspend => String::from_str("Failed to suspend process."),
        Action::Resume => String::from_str("Failed to resume process."),
    }
}

fn numbered_line(label: &str, number: u32) -> (line: String)
    ensures
        line@ == label@ + decimal(number as nat),
{
    let mut line = String::from_str(label);
    let digits = to_decimal(number);
    line.append(digits.as_str());
    line
}

/// The lines that report `outcome`.
pub fn report(outcome: &Outcome) -> (lines: Vec<String>)
    ensures
        lines.deep_view() == report_of(*outcome),
{
    let mut lines: Vec<String> = Vec::new();
    match *outcome {
        Outcome::Created { info } => {
            lines.push(numbered_line("Process created successfully. PID: ", info.process_id));
        },
        Outcome::NotCreated { code } => {
            lines.push(numbered_line("Failed to create process. Error code: ", code));
        },
        Outcome::Applied { action } => {
            lines.push(success_line(action));
        },
        Outcome::NotOpened { action } => {
            lines.push(String::from_str("Failed to open process."));
            lines.push(failure_line(action));
        },
        Outcome::InvalidHandle { action } => {
            lines.push(String::from_str("Invalid process handle."));
            lines.push(failure_line(action));
        },
        Outcome::NotApplied { action } => {
            lines.push(failure_line(action));
        },
    }
    assert(lines.deep_view() =~= report_of(*outcome));
    lines
}

/// The last line of a report says whether the operation succeeded, and a
/// report has a line before it only where no usable handle could be had.
pub proof fn report_ends_with_the_verdict(outcome: Outcome)
    ensures
        report_of(outcome).len() == if outcome is NotOpened || outcome is InvalidHandle {
            2nat
        } else {
            1nat
        },
        outcome matches Outcome::Applied { action } ==> report_of(outcome).last() == success_text(
            action,
        ),
        (outcome matches Outcome::NotOpened { action } ==> report_of(outcome).last()
            == failure_text(action)),
        (outcome matches Outcome::InvalidHandle { action } ==> report_of(outcome).last()
            == failure_text(action)),
        (outcome matches Outcome::NotApplied { action } ==> report_of(outcome).last()
            == failure_text(action)),
{
}

} // verus!
