//! Whole runs of the controller: what it asks for, and where it ends, for
//! every sequence of replies the system may give.

use vstd::prelude::*;

use crate::control::{
    action_request, carried_out, first_state, flag_set, usable, Action, Controller, OperationView,
    Outcome, Reply, RequestView, StepView,
};

verus! {

/// The call that a step asks for, if it asks for one.
pub open spec fn asked(step: StepView) -> Seq<RequestView> {
    match step {
        StepView::Call(request) => seq![request],
        _ => Seq::empty(),
    }
}

/// The state reached from `state` once `replies` have come in, in order.
pub open spec fn state_after(state: Controller, replies: Seq<Reply>) -> Controller
    decreases replies.len(),
{
    if replies.len() == 0 {
        state
    } else {
        state_after(state.next(replies[0]).0, replies.drop_first())
    }
}

/// The calls asked for, in order, while `replies` come in.
pub open spec fn calls_after(state: Controller, replies: Seq<Reply>) -> Seq<RequestView>
    decreases replies.len(),
{
    if replies.len() == 0 {
        Seq::empty()
    } else {
        asked(state.next(replies[0]).1) + calls_after(
            state.next(replies[0]).0,
            replies.drop_first(),
        )
    }
}

/// How many replies an operation in `state` still waits for at most.
pub open spec fn calls_left(state: Controller) -> nat {
    match state {
        Controller::Creating => 2,
        Controller::Diagnosing => 1,
        Controller::Opening { .. } => 3,
        Controller::Acting { .. } => 2,
        Controller::Closing { .. } => 1,
        Controller::Finished { .. } => 0,
    }
}

/// The handle that a call works on; 0, which is no handle, for a call
/// that works on none.
pub open spec fn handle_in(request: RequestView) -> isize {
    match request {
        RequestView::Terminate { handle, .. } => handle,
        RequestView::Suspend { handle } => handle,
        RequestView::Resume { handle } => handle,
        RequestView::Close { handle } => handle,
        _ => 0,
    }
}

/// What holds of an action on a process at any moment after the process
/// was asked to be opened, `calls` being what was asked for since and
/// `now` the state reached.
///
/// Nothing was asked for: the operation still waits for the handle, or it
/// is over and has failed for want of one. One call was asked for: it is
/// the action, on a usable handle, which is still open. Two calls: the
/// second closes the handle of the first, and the operation is over or
/// waits for the close to be confirmed. There is never a third.
pub open spec fn in_order(action: Action, calls: Seq<RequestView>, now: Controller) -> bool {
    if calls.len() == 0 {
        ||| now == (Controller::Opening { action })
        ||| now == (Controller::Finished { outcome: Outcome::NotOpened { action } })
        ||| now == (Controller::Finished { outcome: Outcome::InvalidHandle { action } })
    } else if calls.len() == 1 {
        &&& usable(handle_in(calls[0]))
        &&& calls[0] == action_request(action, handle_in(calls[0]))
        &&& now == (Controller::Acting { action, handle: handle_in(calls[0]) })
    } else {
        &&& calls.len() == 2
        &&& usable(handle_in(calls[0]))
        &&& calls[0] == action_request(action, handle_in(calls[0]))
        &&& calls[1] == (RequestView::Close { handle: handle_in(calls[0]) })
        &&& {
            ||| now matches Controller::Closing { action: a, .. } && a == action
            ||| now == (Controller::Finished { outcome: Outcome::Applied { action } })
            ||| now == (Controller::Finished { outcome: Outcome::NotApplied { action } })
        }
    }
}

/// An operation that is over stays over: it asks for nothing more and
/// keeps its outcome, whatever arrives.
pub proof fn finished_is_final(outcome: Outcome, replies: Seq<Reply>)
    ensures
        state_after(Controller::Finished { outcome }, replies) == (Controller::Finished {
            outcome,
        }),
        calls_after(Controller::Finished { outcome }, replies) == Seq::<RequestView>::empty(),
    decreases replies.len(),
{
    if replies.len() > 0 {
        finished_is_final(outcome, replies.drop_first());
    }
}

/// A reply that does not answer the pending call might as well not have
/// come: the run goes on as if it had been left out.
pub proof fn rejected_reply_is_ignored(state: Controller, reply: Reply, rest: Seq<Reply>)
    requires
        !state.accepts(reply),
    ensures
        state.next(reply) == (state, StepView::Rejected),
        state_after(state, seq![reply] + rest) == state_after(state, rest),
        calls_after(state, seq![reply] + rest) == calls_after(state, rest),
{
    let all = seq![reply] + rest;
    assert(all[0] == reply);
    assert(all.drop_first() == rest);
}

/// Every reply that answers the pending call brings the end nearer, and
/// no operation waits for more than three: a caller that answers each call
/// is done after at most four system calls.
pub proof fn accepted_reply_advances(state: Controller, reply: Reply)
    requires
        state.accepts(reply),
    ensures
        calls_left(state.next(reply).0) < calls_left(state),
        calls_left(state) <= 3,
        calls_left(state) == 0 <==> state is Finished,
        state.next(reply).1 is Done <==> state.next(reply).0 is Finished,
{
}

proof fn closing_runs(action: Action, applied: bool, replies: Seq<Reply>)
    ensures
        calls_after(Controller::Closing { action, applied }, replies) == Seq::<
            RequestView,
        >::empty(),
        ({
            let now = state_after(Controller::Closing { action, applied }, replies);
            ||| now == (Controller::Closing { action, applied })
            ||| applied && now == (Controller::Finished { outcome: Outcome::Applied { action } })
            ||| !applied && now == (Controller::Finished {
                outcome: Outcome::NotApplied { action },
            })
        }),
    decreases replies.len(),
{
    if replies.len() > 0 {
        let state = Controller::Closing { action, applied };
        let next = state.next(replies[0]).0;
        if state.accepts(replies[0]) {
            let outcome = if applied {
                Outcome::Applied { action }
            } else {
                Outcome::NotApplied { action }
            };
            assert(next == (Controller::Finished { outcome }));
            finished_is_final(outcome, replies.drop_first());
        } else {
            closing_runs(action, applied, replies.drop_first());
        }
    }
}

proof fn acting_runs(action: Action, handle: isize, replies: Seq<Reply>)
    ensures
        ({
            let state = Controller::Acting { action, handle };
            let calls = calls_after(state, replies);
            let now = state_after(state, replies);
            ||| calls.len() == 0 && now == state
            ||| {
                &&& calls == seq![RequestView::Close { handle }]
                &&& {
                    ||| now matches Controller::Closing { action: a, .. } && a == action
                    ||| now == (Controller::Finished { outcome: Outcome::Applied { action } })
                    ||| now == (Controller::Finished { outcome: Outcome::NotApplied { action } })
                }
            }
        }),
    decreases replies.len(),
{
    if replies.len() > 0 {
        let state = Controller::Acting { action, handle };
        if state.accepts(replies[0]) {
            let applied = carried_out(action, replies[0]);
            assert(state.next(replies[0]).0 == (Controller::Closing { action, applied }));
            closing_runs(action, applied, replies.drop_first());
            assert(calls_after(state, replies) =~= seq![RequestView::Close { handle }]);
        } else {
            acting_runs(action, handle, replies.drop_first());
        }
    }
}

/// The order of calls on a process, for every run. Whatever the system
/// answers, and whatever else is handed in as a reply: once a process was
/// asked to be opened the controller acts on a usable handle only, asks
/// for the action at most once, then closes that same handle, and is not
/// over while the handle is open.
pub proof fn calls_keep_order(action: Action, replies: Seq<Reply>)
    ensures
        in_order(
            action,
            calls_after(Controller::Opening { action }, replies),
            state_after(Controller::Opening { action }, replies),
        ),
    decreases replies.len(),
{
    if replies.len() > 0 {
        let state = Controller::Opening { action };
        let reply = replies[0];
        let rest = replies.drop_first();
        if !state.accepts(reply) {
            calls_keep_order(action, rest);
        } else if reply is NotOpened {
            finished_is_final(Outcome::NotOpened { action }, rest);
        } else if !usable(reply->handle) {
            finished_is_final(Outcome::InvalidHandle { action }, rest);
        } else {
            let handle = reply->handle;
            acting_runs(action, handle, rest);
            let tail = calls_after(Controller::Acting { action, handle }, rest);
            let calls = calls_after(state, replies);
            assert(calls =~= seq![action_request(action, handle)] + tail);
            assert(handle_in(action_request(action, handle)) == handle);
            assert(calls[0] == action_request(action, handle));
            if tail.len() > 0 {
                assert(calls[1] == tail[0]);
            }
        }
    }
}

/// A process that could not be opened is left alone. Where the system
/// hands out no handle, or one that is not valid, the operation is over at
/// once, it has failed, and no further call is ever asked for.
pub proof fn unopened_process_is_left_alone(action: Action, reply: Reply, later: Seq<Reply>)
    requires
        reply is NotOpened || (reply matches Reply::Opened { handle } && !usable(handle)),
    ensures
        (Controller::Opening { action }).next(reply).1 matches StepView::Done(outcome)
            && !outcome.is_success(),
        state_after(Controller::Opening { action }, seq![reply] + later)
            matches Controller::Finished { outcome } && !outcome.is_success(),
        calls_after(Controller::Opening { action }, seq![reply] + later) == Seq::<
            RequestView,
        >::empty(),
{
    let all = seq![reply] + later;
    assert(all[0] == reply);
    assert(all.drop_first() == later);
    if reply is NotOpened {
        finished_is_final(Outcome::NotOpened { action }, later);
    } else {
        finished_is_final(Outcome::InvalidHandle { action }, later);
    }
}

/// A handle that was opened is closed again, whether the action succeeds
/// or fails; and the operation succeeds exactly when the action did.
pub proof fn opened_handle_is_closed(action: Action, handle: isize, acted: Reply, closed: Reply)
    requires
        usable(handle),
        (Controller::Acting { action, handle }).accepts(acted),
        closed is Flag,
    ensures
        calls_after(
            Controller::Opening { action },
            seq![Reply::Opened { handle }, acted, closed],
        ) == seq![action_request(action, handle), RequestView::Close { handle }],
        state_after(Controller::Opening { action }, seq![Reply::Opened { handle }, acted, closed])
            == (Controller::Finished {
            outcome: if carried_out(action, acted) {
                Outcome::Applied { action }
            } else {
                Outcome::NotApplied { action }
            },
        }),
{
    let replies = seq![Reply::Opened { handle }, acted, closed];
    let opening = Controller::Opening { action };
    let acting = Controller::Acting { action, handle };
    let closing = Controller::Closing { action, applied: carried_out(action, acted) };
    assert(replies.drop_first() =~= seq![acted, closed]);
    assert(seq![acted, closed].drop_first() =~= seq![closed]);
    assert(seq![closed].drop_first() =~= Seq::<Reply>::empty());
    assert(opening.next(replies[0]).0 == acting);
    assert(acting.next(acted).0 == closing);
    reveal_with_fuel(state_after, 4);
    reveal_with_fuel(calls_after, 4);
    assert(calls_after(closing, seq![closed]) =~= Seq::<RequestView>::empty());
    assert(calls_after(acting, seq![acted, closed]) =~= seq![RequestView::Close { handle }]);
    assert(calls_after(opening, replies) =~= seq![
        action_request(action, handle),
        RequestView::Close { handle },
    ]);
}

/// Suspending and resuming never ask for a process to be terminated, in
/// any run.
pub proof fn suspend_and_resume_never_terminate(action: Action, replies: Seq<Reply>, i: int)
    requires
        action != Action::Terminate,
        0 <= i < calls_after(Controller::Opening { action }, replies).len(),
    ensures
        !(calls_after(Controller::Opening { action }, replies)[i] is Terminate),
{
    calls_keep_order(action, replies);
}

proof fn diagnosing_runs(replies: Seq<Reply>)
    ensures
        calls_after(Controller::Diagnosing, replies) == Seq::<RequestView>::empty(),
        ({
            let now = state_after(Controller::Diagnosing, replies);
            now is Diagnosing || (now matches Controller::Finished { outcome } && outcome
                is NotCreated)
        }),
    decreases replies.len(),
{
    if replies.len() > 0 {
        let state = Controller::Diagnosing;
        if state.accepts(replies[0]) {
            finished_is_final(Outcome::NotCreated { code: replies[0]->code }, replies.drop_first());
        } else {
            diagnosing_runs(replies.drop_first());
        }
    }
}

/// Creating a process touches no handle, in any run: the one call that
/// may follow the creation is the question for the error code, and it
/// follows only where the creation failed.
pub proof fn creation_asks_for_the_error_only(replies: Seq<Reply>)
    ensures
        ({
            let calls = calls_after(Controller::Creating, replies);
            let now = state_after(Controller::Creating, replies);
            ||| calls.len() == 0 && (now is Creating || (now matches Controller::Finished {
                outcome,
            } && outcome is Created))
            ||| calls == seq![RequestView::LastError] && (now is Diagnosing || (
            now matches Controller::Finished { outcome } && outcome is NotCreated))
        }),
    decreases replies.len(),
{
    if replies.len() > 0 {
        let state = Controller::Creating;
        let reply = replies[0];
        let rest = replies.drop_first();
        if !state.accepts(reply) {
            creation_asks_for_the_error_only(rest);
        } else if flag_set(reply->flag) {
            finished_is_final(Outcome::Created { info: reply->info }, rest);
        } else {
            diagnosing_runs(rest);
            assert(calls_after(state, replies) =~= seq![RequestView::LastError]);
        }
    }
}

/// What a creation reports. Where the system sets the result flag, the
/// outcome is the record that the system filled in, unchanged; where it
/// does not, the outcome is the error code that the system gives when
/// asked, unchanged.
pub proof fn creation_reports_what_the_system_said(
    path: Seq<char>,
    flag: i32,
    info: crate::control::ProcessInfo,
    code: u32,
)
    ensures
        first_state(OperationView::Create { path }) == Controller::Creating,
        flag_set(flag) ==> state_after(Controller::Creating, seq![Reply::Created { flag, info }])
            == (Controller::Finished { outcome: Outcome::Created { info } }),
        !flag_set(flag) ==> state_after(
            Controller::Creating,
            seq![Reply::Created { flag, info }, Reply::ErrorCode { code }],
        ) == (Controller::Finished { outcome: Outcome::NotCreated { code } }),
{
    let one = seq![Reply::Created { flag, info }];
    let two = seq![Reply::Created { flag, info }, Reply::ErrorCode { code }];
    assert(one.drop_first() =~= Seq::<Reply>::empty());
    assert(two.drop_first() =~= seq![Reply::ErrorCode { code }]);
    assert(seq![Reply::ErrorCode { code }].drop_first() =~= Seq::<Reply>::empty());
    reveal_with_fuel(state_after, 3);
}

} // verus!
