//! The process controller: create, terminate, suspend and resume, each as
//! the short exchange of system calls that carries it out.
//!
//! The controller performs no call itself. It names the call to make next;
//! its caller makes it and hands back what the system answered. Put this
//! way, everything that is decided sits in [`Controller::step`], and the
//! rules of the exchange (a handle that was opened is closed again, a
//! handle that could not be had is never acted on) are theorems about it.

use vstd::prelude::*;

use crate::native::{flag_is_set, handle_is_invalid, process_all_access};
use crate::wide::{wide, wide_null};

verus! {

/// What can be done to a running process.
#[derive(Clone, Copy, Debug, PartialEq, Eq, Structural)]
pub enum Action {
    Terminate,
    Suspend,
    Resume,
}

/// What the system hands back for a process it created. The two handles
/// are open and belong to whoever receives this value: the controller
/// never closes them.
#[derive(Clone, Copy, Debug, PartialEq, Eq, Structural)]
pub struct ProcessInfo {
    pub process: isize,
    pub thread: isize,
    pub process_id: u32,
    pub thread_id: u32,
}

/// One operation of the controller.
#[derive(Debug, PartialEq, Eq)]
pub enum Operation {
    /// Start the program named by `path`.
    Create { path: String },
    /// Apply `action` to the process with identifier `pid`.
    Apply { action: Action, pid: u32 },
}

/// An operation as contracts see it: the path as a sequence of characters.
pub enum OperationView {
    Create { path: Seq<char> },
    Apply { action: Action, pid: u32 },
}

impl View for Operation {
    type V = OperationView;

    open spec fn view(&self) -> OperationView {
        match *self {
            Operation::Create { path } => OperationView::Create { path: path@ },
            Operation::Apply { action, pid } => OperationView::Apply { action, pid },
        }
    }
}

/// A system call that the controller asks for.
#[derive(Debug, PartialEq, Eq)]
pub enum Request {
    /// Create a process. `command_line` is a zero-terminated wide string
    /// that serves as the application name and as the command line alike.
    /// Nothing else is passed: no security attributes, no environment, no
    /// working directory, a start-up record left at its defaults.
    Create { command_line: Vec<u16>, inherit_handles: bool, creation_flags: u32 },
    /// Read the calling thread's last error code.
    LastError,
    /// Open the process `pid` with the rights in `access`.
    Open { access: u32, inherit: bool, pid: u32 },
    /// Terminate the process behind `handle` with `exit_code`.
    Terminate { handle: isize, exit_code: u32 },
    /// Suspend through `handle`: one call of the system's thread
    /// suspension on the handle that `Open` gave. The threads of the
    /// process are not walked; what is suspended is what the system makes
    /// of that one call.
    Suspend { handle: isize },
    /// Resume through `handle`: one call, as for `Suspend`. Suspend counts
    /// are not kept, so one resume undoes one suspension at most.
    Resume { handle: isize },
    /// Close `handle`.
    Close { handle: isize },
}

/// A request as contracts see it: the command line as a sequence of code
/// units.
pub enum RequestView {
    Create { command_line: Seq<u16>, inherit_handles: bool, creation_flags: u32 },
    LastError,
    Open { access: u32, inherit: bool, pid: u32 },
    Terminate { handle: isize, exit_code: u32 },
    Suspend { handle: isize },
    Resume { handle: isize },
    Close { handle: isize },
}

impl View for Request {
    type V = RequestView;

    open spec fn view(&self) -> RequestView {
        match *self {
            Request::Create { command_line, inherit_handles, creation_flags } => {
                RequestView::Create {
                    command_line: command_line@,
                    inherit_handles,
                    creation_flags,
                }
            },
            Request::LastError => RequestView::LastError,
            Request::Open { access, inherit, pid } => RequestView::Open { access, inherit, pid },
            Request::Terminate { handle, exit_code } => RequestView::Terminate {
                handle,
                exit_code,
            },
            Request::Suspend { handle } => RequestView::Suspend { handle },
            Request::Resume { handle } => RequestView::Resume { handle },
            Request::Close { handle } => RequestView::Close { handle },
        }
    }
}

/// What the system answered to a request.
#[derive(Clone, Copy, Debug, PartialEq, Eq, Structural)]
pub enum Reply {
    /// To `Create`: the call's result flag and the record it filled in.
    Created { flag: i32, info: ProcessInfo },
    /// To `LastError`: the error code.
    ErrorCode { code: u32 },
    /// To `Open`: the handle that was returned.
    Opened { handle: isize },
    /// To `Open`: no handle could be had.
    NotOpened,
    /// To `Terminate` and `Close`: the call's result flag.
    Flag { value: i32 },
    /// To `Suspend` and `Resume`: the previous suspend count, or
    /// `u32::MAX` where the call failed.
    Count { previous: u32 },
}

/// How an operation ended.
#[derive(Clone, Copy, Debug, PartialEq, Eq, Structural)]
pub enum Outcome {
    /// The process was created.
    Created { info: ProcessInfo },
    /// The process was not created; `code` is the system's error code.
    NotCreated { code: u32 },
    /// The action was carried out.
    Applied { action: Action },
    /// The target process could not be opened.
    NotOpened { action: Action },
    /// The target process was opened, but the handle is no valid one.
    InvalidHandle { action: Action },
    /// The process was opened and the action then failed.
    NotApplied { action: Action },
}

/// What `step` tells its caller to do.
#[derive(Debug, PartialEq, Eq)]
pub enum Step {
    /// Make this call and come back with the answer.
    Call(Request),
    /// The operation is over.
    Done(Outcome),
    /// The reply does not answer the call that is pending; nothing changed.
    Rejected,
}

/// A step as contracts see it.
pub enum StepView {
    Call(RequestView),
    Done(Outcome),
    Rejected,
}

impl View for Step {
    type V = StepView;

    open spec fn view(&self) -> StepView {
        match *self {
            Step::Call(request) => StepView::Call(request@),
            Step::Done(outcome) => StepView::Done(outcome),
            Step::Rejected => StepView::Rejected,
        }
    }
}

/// Where an operation stands. Each state but `Finished` has one call
/// pending, the one that was last asked for.
#[derive(Clone, Copy, Debug, PartialEq, Eq, Structural)]
pub enum Controller {
    /// `Create` is pending.
    Creating,
    /// Creation failed; `LastError` is pending.
    Diagnosing,
    /// `Open` is pending.
    Opening { action: Action },
    /// `handle` is open and the action on it is pending.
    Acting { action: Action, handle: isize },
    /// `Close` is pending; `applied` records how the action went.
    Closing { action: Action, applied: bool },
    /// Nothing is pending.
    Finished { outcome: Outcome },
}

/// The access rights asked for when a process is opened: all of them.
pub open spec fn all_access() -> u32 {
    0x1F_FFFF
}

/// The exit code given to a process that is terminated.
pub open spec fn terminated_exit_code() -> u32 {
    1
}

/// A result flag counts as success unless it is zero.
pub open spec fn flag_set(value: i32) -> bool {
    value != 0
}

/// A handle can be used unless its raw value is 0 or -1.
pub open spec fn usable(handle: isize) -> bool {
    handle != 0 && handle != -1
}

/// The call that begins `operation`. A process is created from the path
/// alone, as a wide string, with no handle inherited and no creation flag
/// set; a process to act on is opened with every access right.
pub open spec fn first_request(operation: OperationView) -> RequestView {
    match operation {
        OperationView::Create { path } => RequestView::Create {
            command_line: wide(path),
            inherit_handles: false,
            creation_flags: 0,
        },
        OperationView::Apply { action, pid } => RequestView::Open {
            access: all_access(),
            inherit: false,
            pid,
        },
    }
}

/// The state in which `operation` begins.
pub open spec fn first_state(operation: OperationView) -> Controller {
    match operation {
        OperationView::Create { .. } => Controller::Creating,
        OperationView::Apply { action, .. } => Controller::Opening { action },
    }
}

/// The call that carries out `action` on an open handle.
pub open spec fn action_request(action: Action, handle: isize) -> RequestView {
    match action {
        Action::Terminate => RequestView::Terminate { handle, exit_code: terminated_exit_code() },
        Action::Suspend => RequestView::Suspend { handle },
        Action::Resume => RequestView::Resume { handle },
    }
}

/// Whether `reply` says that `action` was carried out: a set flag for
/// termination, any count but `u32::MAX` for suspending and resuming.
pub open spec fn carried_out(action: Action, reply: Reply) -> bool {
    match action {
        Action::Terminate => reply matches Reply::Flag { value } && flag_set(value),
        Action::Suspend | Action::Resume => reply matches Reply::Count { previous } && previous
            != u32::MAX,
    }
}

impl Outcome {
    /// Whether the operation did what was asked.
    pub open spec fn is_success(self) -> bool {
        self is Created || self is Applied
    }

    /// Whether the operation did what was asked.
    pub fn succeeded(&self) -> (yes: bool)
        ensures
            yes == self.is_success(),
    {
        match self {
            Outcome::Created { .. } => true,
            Outcome::Applied { .. } => true,
            _ => false,
        }
    }
}

impl Controller {
    /// Whether `reply` is of the kind that answers the pending call.
    pub open spec fn accepts(self, reply: Reply) -> bool {
        match self {
            Controller::Creating => reply is Created,
            Controller::Diagnosing => reply is ErrorCode,
            Controller::Opening { .. } => reply is Opened || reply is NotOpened,
            Controller::Acting { action: Action::Terminate, .. } => reply is Flag,
            Controller::Acting { .. } => reply is Count,
            Controller::Closing { .. } => reply is Flag,
            Controller::Finished { .. } => false,
        }
    }

    /// The state after `reply`, and what the caller is told.
    pub open spec fn next(self, reply: Reply) -> (Controller, StepView) {
        if !self.accepts(reply) {
            (self, StepView::Rejected)
        } else {
            match self {
                Controller::Creating => {
                    if flag_set(reply->flag) {
                        finish(Outcome::Created { info: reply->info })
                    } else {
                        (Controller::Diagnosing, StepView::Call(RequestView::LastError))
                    }
                },
                Controller::Diagnosing => finish(Outcome::NotCreated { code: reply->code }),
                Controller::Opening { action } => {
                    if reply is NotOpened {
                        finish(Outcome::NotOpened { action })
                    } else if !usable(reply->handle) {
                        finish(Outcome::InvalidHandle { action })
                    } else {
                        (
                            Controller::Acting { action, handle: reply->handle },
                            StepView::Call(action_request(action, reply->handle)),
                        )
                    }
                },
                Controller::Acting { action, handle } => (
                    Controller::Closing { action, applied: carried_out(action, reply) },
                    StepView::Call(RequestView::Close { handle }),
                ),
                Controller::Closing { action, applied } => {
                    if applied {
                        finish(Outcome::Applied { action })
                    } else {
                        finish(Outcome::NotApplied { action })
                    }
                },
                Controller::Finished { .. } => (self, StepView::Rejected),
            }
        }
    }

    /// The outcome, once the operation is over.
    pub open spec fn result(self) -> Option<Outcome> {
        match self {
            Controller::Finished { outcome } => Some(outcome),
            _ => None,
        }
    }

    /// Begins `operation`: the state to keep and the first call to make.
    pub fn start(operation: &Operation) -> (begun: (Controller, Request))
        ensures
            begun.0 == first_state(operation@),
            begun.1@ == first_request(operation@),
    {
        match operation {
            Operation::Create { path } => {
                let command_line = wide_null(path.as_str());
                (
                    Controller::Creating,
                    Request::Create { command_line, inherit_handles: false, creation_flags: 0 },
                )
            },
            Operation::Apply { action, pid } => {
                let access = process_all_access();
                (
                    Controller::Opening { action: *action },
                    Request::Open { access, inherit: false, pid: *pid },
                )
            },
        }
    }

    /// Takes the system's answer to the pending call and says what comes
    /// next. A reply of the wrong kind is rejected and changes nothing.
    pub fn step(self, reply: Reply) -> (moved: (Controller, Step))
        ensures
            moved.0 == self.next(reply).0,
            moved.1@ == self.next(reply).1,
    {
        match (self, reply) {
            (Controller::Creating, Reply::Created { flag, info }) => {
                if flag_is_set(flag) {
                    done(Outcome::Created { info })
                } else {
                    (Controller::Diagnosing, Step::Call(Request::LastError))
                }
            },
            (Controller::Diagnosing, Reply::ErrorCode { code }) => done(
                Outcome::NotCreated { code },
            ),
            (Controller::Opening { action }, Reply::NotOpened) => done(
                Outcome::NotOpened { action },
            ),
            (Controller::Opening { action }, Reply::Opened { handle }) => {
                if handle_is_invalid(handle) {
                    done(Outcome::InvalidHandle { action })
                } else {
                    (Controller::Acting { action, handle }, Step::Call(act(action, handle)))
                }
            },
            (Controller::Acting { action: Action::Terminate, handle }, Reply::Flag { value }) => {
                let applied = flag_is_set(value);
                (
                    Controller::Closing { action: Action::Terminate, applied },
                    Step::Call(Request::Close { handle }),
                )
            },
            (Controller::Acting { action: Action::Suspend, handle }, Reply::Count { previous }) => (
                Controller::Closing { action: Action::Suspend, applied: previous != u32::MAX },
                Step::Call(Request::Close { handle }),
            ),
            (Controller::Acting { action: Action::Resume, handle }, Reply::Count { previous }) => (
                Controller::Closing { action: Action::Resume, applied: previous != u32::MAX },
                Step::Call(Request::Close { handle }),
            ),
            (Controller::Closing { action, applied }, Reply::Flag { .. }) => {
                if applied {
                    done(Outcome::Applied { action })
                } else {
                    done(Outcome::NotApplied { action })
                }
            },
            _ => (self, Step::Rejected),
        }
    }

    /// The outcome, once the operation is over.
    pub fn outcome(&self) -> (outcome: Option<Outcome>)
        ensures
            outcome == self.result(),
    {
        match self {
            Controller::Finished { outcome } => Some(*outcome),
            _ => None,
        }
    }
}

/// The end of an operation, as a state and a step.
pub open spec fn finish(outcome: Outcome) -> (Controller, StepView) {
    (Controller::Finished { outcome }, StepView::Done(outcome))
}

fn done(outcome: Outcome) -> (ended: (Controller, Step))
    ensures
        ended.0 == finish(outcome).0,
        ended.1@ == finish(outcome).1,
{
    (Controller::Finished { outcome }, Step::Done(outcome))
}

fn act(action: Action, handle: isize) -> (request: Request)
    ensures
        request@ == action_request(action, handle),
{
    match action {
        Action::Terminate => Request::Terminate { handle, exit_code: 1 },
        Action::Suspend => Request::Suspend { handle },
        Action::Resume => Request::Resume { handle },
    }
}

} // verus!
