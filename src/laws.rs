use vstd::prelude::*;
use crate::supervisor::{
    start_next, start_reply, status_next, status_reply, stop_next, stop_reply, SupervisorError,
    WorkerStatus,
};

verus! {

/// One operation on the supervisor, together with what the OS answered to
/// whatever the operation asked of it. An answer that the operation does not
/// ask for (a spawn on an occupied slot, a poll of an empty one) is ignored.
pub enum Call {
    Start { spawned: Result<u32, String> },
    Stop { terminated: Result<(), String>, reaped: Result<(), String> },
    Status { polled: Result<bool, String> },
}

/// What one operation returns to its caller.
pub enum Answer {
    Start(Result<u32, SupervisorError>),
    Stop(Result<(), SupervisorError>),
    Status(Result<WorkerStatus, SupervisorError>),
}

/// The slot after one call.
pub open spec fn after(s: Option<u32>, c: Call) -> Option<u32> {
    match c {
        Call::Start { spawned } => start_next(s, spawned),
        Call::Stop { .. } => stop_next(s),
        Call::Status { polled } => status_next(s, polled),
    }
}

/// The answer to one call.
pub open spec fn answer(s: Option<u32>, c: Call) -> Answer {
    match c {
        Call::Start { spawned } => Answer::Start(start_reply(s, spawned)),
        Call::Stop { terminated, reaped } => Answer::Stop(stop_reply(s, terminated, reaped)),
        Call::Status { polled } => Answer::Status(status_reply(s, polled)),
    }
}

/// The slot after a sequence of calls, one after the other.
pub open spec fn run(s: Option<u32>, calls: Seq<Call>) -> Option<u32>
    decreases calls.len(),
{
    if calls.len() == 0 {
        s
    } else {
        after(run(s, calls.drop_last()), calls.last())
    }
}

/// The answers to a sequence of calls, one after the other.
pub open spec fn answers(s: Option<u32>, calls: Seq<Call>) -> Seq<Answer>
    decreases calls.len(),
{
    if calls.len() == 0 {
        Seq::empty()
    } else {
        answers(s, calls.drop_last()).push(answer(run(s, calls.drop_last()), calls.last()))
    }
}

/// Each call gets exactly one answer.
pub proof fn answers_len(s: Option<u32>, calls: Seq<Call>)
    ensures
        answers(s, calls).len() == calls.len(),
    decreases calls.len(),
{
    if calls.len() > 0 {
        answers_len(s, calls.drop_last());
    }
}

/// A successful transition of the slot: `Some(true)` for a `start` that
/// filled it, `Some(false)` for a `stop` that succeeded or a `status` that
/// found the worker gone, `None` for any other call.
pub open spec fn transition(s: Option<u32>, c: Call) -> Option<bool> {
    match c {
        Call::Start { spawned } => if s is None && spawned is Ok {
            Some(true)
        } else {
            None
        },
        Call::Stop { terminated, reaped } => if stop_reply(s, terminated, reaped) is Ok {
            Some(false)
        } else {
            None
        },
        Call::Status { polled } => if s is Some && polled == Ok::<bool, String>(true) {
            Some(false)
        } else {
            None
        },
    }
}

/// Whether the most recent successful transition in `calls`, made from an
/// empty slot, was a `start`.
pub open spec fn last_transition_is_start(calls: Seq<Call>) -> bool
    decreases calls.len(),
{
    if calls.len() == 0 {
        false
    } else {
        match transition(run(None, calls.drop_last()), calls.last()) {
            Some(b) => b,
            None => last_transition_is_start(calls.drop_last()),
        }
    }
}

/// Whether a `stop` in `calls`, made from an empty slot, found a worker and
/// then failed to signal or to reap it. Such a call empties the slot without
/// being a successful transition.
pub open spec fn has_failed_stop(calls: Seq<Call>) -> bool
    decreases calls.len(),
{
    if calls.len() == 0 {
        false
    } else {
        has_failed_stop(calls.drop_last()) || {
            let s = run(None, calls.drop_last());
            match calls.last() {
                Call::Stop { terminated, reaped } => s is Some && stop_reply(
                    s,
                    terminated,
                    reaped,
                ) is Err,
                _ => false,
            }
        }
    }
}

/// For every sequence of calls from the initial empty slot, the slot holds a
/// worker exactly when the most recent successful transition was a `start`.
/// A `stop` that claims the worker and then fails also empties the slot, so
/// sequences holding one are left out.
pub proof fn occupied_iff_last_transition_is_start(calls: Seq<Call>)
    requires
        !has_failed_stop(calls),
    ensures
        run(None, calls) is Some <==> last_transition_is_start(calls),
    decreases calls.len(),
{
    if calls.len() > 0 {
        occupied_iff_last_transition_is_start(calls.drop_last());
    }
}

/// A `start` right after a `start` that filled the slot, or that found it
/// already filled, is refused with `AlreadyRunning`.
pub proof fn second_start_refused(
    s: Option<u32>,
    first: Result<u32, String>,
    second: Result<u32, String>,
)
    requires
        s is Some || first is Ok,
    ensures
        start_reply(start_next(s, first), second) == Err::<u32, SupervisorError>(
            SupervisorError::AlreadyRunning,
        ),
        start_next(start_next(s, first), second) == start_next(s, first),
{
}

/// `stop` on an empty slot is refused with `NotRunning` whatever the OS would
/// have answered, since it asks the OS nothing, and the slot stays empty.
pub proof fn stop_on_empty_refused(terminated: Result<(), String>, reaped: Result<(), String>)
    ensures
        stop_reply(None, terminated, reaped) == Err::<(), SupervisorError>(
            SupervisorError::NotRunning,
        ),
        stop_next(None) == None::<u32>,
{
}

/// `status` on a slot whose worker has exited empties it and reports
/// `Stopped`; a second `status` then reports `Stopped` whatever a poll would
/// have answered, since an empty slot is not polled.
pub proof fn status_clears_exited_worker(pid: u32, later: Result<bool, String>)
    ensures
        status_reply(Some(pid), Ok(true)) == Ok::<WorkerStatus, SupervisorError>(
            WorkerStatus::Stopped,
        ),
        status_next(Some(pid), Ok(true)) == None::<u32>,
        status_reply(status_next(Some(pid), Ok(true)), later) == Ok::<
            WorkerStatus,
            SupervisorError,
        >(WorkerStatus::Stopped),
        status_next(status_next(Some(pid), Ok(true)), later) == None::<u32>,
{
}

/// A run of `start` calls, serialized by the caller's lock, from an empty
/// slot: the first succeeds with the identifier it spawned and every later one
/// gets `AlreadyRunning`. A first spawn that fails is left out, since then the
/// first call fails too.
pub proof fn racing_starts_one_wins(calls: Seq<Call>)
    requires
        calls.len() > 0,
        forall|i: int| 0 <= i < calls.len() ==> #[trigger] calls[i] is Start,
        calls[0]->spawned is Ok,
    ensures
        answers(None, calls).len() == calls.len(),
        answers(None, calls)[0] == Answer::Start(Ok(calls[0]->spawned->Ok_0)),
        forall|i: int|
            0 < i < calls.len() ==> #[trigger] answers(None, calls)[i] == Answer::Start(
                Err(SupervisorError::AlreadyRunning),
            ),
        run(None, calls) == Some(calls[0]->spawned->Ok_0),
    decreases calls.len(),
{
    answers_len(None, calls);
    if calls.len() > 1 {
        let prefix = calls.drop_last();
        assert(prefix[0] == calls[0]);
        assert forall|i: int| 0 <= i < prefix.len() implies #[trigger] prefix[i] is Start by {
            assert(prefix[i] == calls[i]);
        }
        racing_starts_one_wins(prefix);
        assert(calls.last() == calls[calls.len() - 1]);
    } else {
        assert(calls.drop_last().len() == 0);
        assert(calls.last() == calls[0]);
    }
}

/// `start`, then `stop`, then `status` reports `Stopped` and leaves the slot
/// empty, whatever the slot held before and whatever the OS answered.
pub proof fn start_stop_status_reports_stopped(
    s: Option<u32>,
    spawned: Result<u32, String>,
    terminated: Result<(), String>,
    reaped: Result<(), String>,
    polled: Result<bool, String>,
)
    ensures
        ({
            let calls = seq![
                Call::Start { spawned },
                Call::Stop { terminated, reaped },
                Call::Status { polled },
            ];
            &&& answers(s, calls)[2] == Answer::Status(Ok(WorkerStatus::Stopped))
            &&& run(s, calls) == None::<u32>
        }),
{
    let calls = seq![
        Call::Start { spawned },
        Call::Stop { terminated, reaped },
        Call::Status { polled },
    ];
    let one = seq![Call::Start { spawned }];
    let two = seq![Call::Start { spawned }, Call::Stop { terminated, reaped }];
    assert(one.drop_last() =~= Seq::<Call>::empty());
    assert(two.drop_last() =~= one);
    assert(calls.drop_last() =~= two);
    assert(run(s, one.drop_last()) == s);
    assert(one.last() == Call::Start { spawned });
    assert(run(s, one) == start_next(s, spawned));
    assert(run(s, two) == None::<u32>);
    answers_len(s, two);
    assert(answers(s, calls) == answers(s, two).push(answer(None, Call::Status { polled })));
}

/// `start`, then a poll that finds the worker killed from outside, reports
/// `Stopped` and empties the slot.
pub proof fn status_after_outside_kill(s: Option<u32>, spawned: Result<u32, String>)
    ensures
        ({
            let calls = seq![Call::Start { spawned }, Call::Status { polled: Ok(true) }];
            &&& answers(s, calls)[1] == Answer::Status(Ok(WorkerStatus::Stopped))
            &&& run(s, calls) == None::<u32>
        }),
{
    let calls = seq![Call::Start { spawned }, Call::Status { polled: Ok(true) }];
    let one = seq![Call::Start { spawned }];
    assert(one.drop_last() =~= Seq::<Call>::empty());
    assert(calls.drop_last() =~= one);
    assert(run(s, one.drop_last()) == s);
    assert(one.last() == Call::Start { spawned });
    assert(run(s, one) == start_next(s, spawned));
    answers_len(s, one);
    assert(answers(s, calls) == answers(s, one).push(
        answer(start_next(s, spawned), Call::Status { polled: Ok(true) }),
    ));
}

} // verus!
