//! A mathematical model of complete runs of the adapter, and the laws
//! proved over it.

use vstd::prelude::*;

use crate::adapter::idle_verdict;
use crate::adapter::task_verdict;
use crate::adapter::Advance;
use crate::adapter::IdleStep;
use crate::adapter::StreamPoll;
use crate::adapter::TaskPoll;
use crate::adapter::TaskStep;

verus! {

/// What one resolved classification contributes to the output sequence:
/// a kept value is mapped, a dropped item is omitted, a failure passes
/// through.
pub open spec fn settled_outputs<U, E>(r: Result<Option<U>, E>) -> Seq<Result<U, E>> {
    match r {
        Ok(Some(v)) => seq![Ok(v)],
        Ok(None) => Seq::empty(),
        Err(e) => seq![Err(e)],
    }
}

/// The declarative statement of what the adapter computes: the
/// order-preserving projection of the upstream sequence `s` through the
/// classification `c`.  Upstream errors pass through positionally;
/// successful items contribute what their classification settles to.
pub open spec fn projection<T, U, E>(
    s: Seq<Result<T, E>>,
    c: spec_fn(T) -> Result<Option<U>, E>,
) -> Seq<Result<U, E>>
    decreases s.len(),
{
    if s.len() == 0 {
        Seq::empty()
    } else {
        (match s.first() {
            Ok(x) => settled_outputs(c(x)),
            Err(e) => seq![Err(e)],
        }) + projection(s.drop_first(), c)
    }
}

/// Whether the task slot is empty or holds the task built from a given
/// upstream item.  This is the adapter's state as the run model sees
/// it: the executable adapter stores the task itself, the model keeps
/// the item the task was built from.
pub enum MachineState<T> {
    Idle,
    InFlight(T),
}

/// One poll observed by the scheduler while driving the adapter: either
/// a pull from upstream or a poll of the in-flight task.
pub enum PollEvent<T, U, E> {
    Upstream(StreamPoll<T, E>),
    Task(TaskPoll<U, E>),
}

/// How many unresolved tasks a state holds.
pub open spec fn tasks_in_flight<T>(st: MachineState<T>) -> nat {
    match st {
        MachineState::Idle => 0,
        MachineState::InFlight(_) => 1,
    }
}

/// The outputs still owed by the current state: nothing while idle, the
/// settled contribution of the in-flight item otherwise.
pub open spec fn state_outputs<T, U, E>(
    st: MachineState<T>,
    c: spec_fn(T) -> Result<Option<U>, E>,
) -> Seq<Result<U, E>> {
    match st {
        MachineState::Idle => Seq::empty(),
        MachineState::InFlight(x) => settled_outputs(c(x)),
    }
}

/// Runs the adapter's transition table over a schedule of observed
/// polls, starting at upstream position `i` in state `st`, and collects
/// every item the adapter yields.  The result is `None` unless the
/// schedule is a well-formed complete run: polls match the state (a
/// task is polled exactly while one is in flight), upstream reports its
/// items in order and `Done` only once exhausted, each task settles to
/// the classification `c` of its item, and the run ends idle with
/// upstream fully consumed.  Suspensions may be interleaved anywhere:
/// they change no state and yield nothing.
pub open spec fn run_events<T, U, E>(
    s: Seq<Result<T, E>>,
    c: spec_fn(T) -> Result<Option<U>, E>,
    evs: Seq<PollEvent<T, U, E>>,
    i: int,
    st: MachineState<T>,
) -> Option<Seq<Result<U, E>>>
    decreases evs.len(),
{
    if evs.len() == 0 {
        if i == s.len() && st is Idle {
            Some(Seq::empty())
        } else {
            None
        }
    } else {
        let rest = evs.drop_first();
        match (st, evs.first()) {
            (MachineState::Idle, PollEvent::Upstream(p)) => match p {
                StreamPoll::Suspend => run_events(s, c, rest, i, MachineState::Idle),
                StreamPoll::Done => if i == s.len() {
                    run_events(s, c, rest, i, MachineState::Idle)
                } else {
                    None
                },
                StreamPoll::Item(res) => if 0 <= i < s.len() && res == s[i] {
                    match res {
                        Ok(x) => run_events(s, c, rest, i + 1, MachineState::InFlight(x)),
                        Err(e) => match run_events(s, c, rest, i + 1, MachineState::Idle) {
                            Some(out) => Some(seq![Err(e)] + out),
                            None => None,
                        },
                    }
                } else {
                    None
                },
            },
            (MachineState::InFlight(x), PollEvent::Task(p)) => match p {
                TaskPoll::Suspend => run_events(s, c, rest, i, MachineState::InFlight(x)),
                TaskPoll::Ready(r) => if r == c(x) {
                    match run_events(s, c, rest, i, MachineState::Idle) {
                        Some(out) => Some(settled_outputs(r) + out),
                        None => None,
                    }
                } else {
                    None
                },
            },
            _ => None,
        }
    }
}

proof fn lemma_run_events_general<T, U, E>(
    s: Seq<Result<T, E>>,
    c: spec_fn(T) -> Result<Option<U>, E>,
    evs: Seq<PollEvent<T, U, E>>,
    i: int,
    st: MachineState<T>,
)
    requires
        0 <= i <= s.len(),
        run_events(s, c, evs, i, st) is Some,
    ensures
        run_events(s, c, evs, i, st).unwrap() == state_outputs(st, c) + projection(
            s.skip(i),
            c,
        ),
    decreases evs.len(),
{
    if evs.len() == 0 {
        assert(s.skip(i).len() == 0);
        assert(run_events(s, c, evs, i, st).unwrap() =~= state_outputs(st, c) + projection(
            s.skip(i),
            c,
        ));
    } else {
        let rest = evs.drop_first();
        match (st, evs.first()) {
            (MachineState::Idle, PollEvent::Upstream(p)) => match p {
                StreamPoll::Suspend => {
                    lemma_run_events_general(s, c, rest, i, MachineState::Idle);
                },
                StreamPoll::Done => {
                    lemma_run_events_general(s, c, rest, i, MachineState::Idle);
                },
                StreamPoll::Item(res) => {
                    assert(s.skip(i).first() == s[i]);
                    assert(s.skip(i).drop_first() =~= s.skip(i + 1));
                    match res {
                        Ok(x) => {
                            lemma_run_events_general(s, c, rest, i + 1, MachineState::InFlight(x));
                            assert(run_events(s, c, evs, i, st).unwrap() =~= state_outputs(st, c)
                                + projection(s.skip(i), c));
                        },
                        Err(e) => {
                            lemma_run_events_general(s, c, rest, i + 1, MachineState::Idle);
                            assert(run_events(s, c, evs, i, st).unwrap() =~= state_outputs(st, c)
                                + projection(s.skip(i), c));
                        },
                    }
                },
            },
            (MachineState::InFlight(x), PollEvent::Task(p)) => match p {
                TaskPoll::Suspend => {
                    lemma_run_events_general(s, c, rest, i, MachineState::InFlight(x));
                },
                TaskPoll::Ready(r) => {
                    lemma_run_events_general(s, c, rest, i, MachineState::Idle);
                    assert(run_events(s, c, evs, i, st).unwrap() =~= state_outputs(st, c)
                        + projection(s.skip(i), c));
                },
            },
            _ => {
                assert(false);
            },
        }
    }
}

/// Law: for every finite upstream sequence `s` and classification `c`,
/// every complete run of the adapter — whatever suspensions the
/// upstream sequence and the tasks interleave — outputs exactly the
/// order-preserving projection of `s` through `c`: errors pass through
/// positionally, drops are omitted, keeps are mapped.
pub proof fn lemma_complete_run_is_projection<T, U, E>(
    s: Seq<Result<T, E>>,
    c: spec_fn(T) -> Result<Option<U>, E>,
    evs: Seq<PollEvent<T, U, E>>,
)
    requires
        run_events(s, c, evs, 0, MachineState::Idle) is Some,
    ensures
        run_events(s, c, evs, 0, MachineState::Idle).unwrap() == projection(s, c),
{
    lemma_run_events_general(s, c, evs, 0, MachineState::Idle);
    assert(s.skip(0) =~= s);
    assert(state_outputs(MachineState::<T>::Idle, c) + projection(s, c) =~= projection(s, c));
}

/// The machine state in force at each point of a run, i.e. before each
/// observed poll.  The final arm is never reached in a well-formed run.
pub open spec fn run_states<T, U, E>(
    s: Seq<Result<T, E>>,
    c: spec_fn(T) -> Result<Option<U>, E>,
    evs: Seq<PollEvent<T, U, E>>,
    i: int,
    st: MachineState<T>,
) -> Seq<MachineState<T>>
    decreases evs.len(),
{
    if evs.len() == 0 {
        Seq::empty()
    } else {
        let rest = evs.drop_first();
        seq![st] + (match (st, evs.first()) {
            (MachineState::Idle, PollEvent::Upstream(p)) => match p {
                StreamPoll::Suspend => run_states(s, c, rest, i, MachineState::Idle),
                StreamPoll::Done => run_states(s, c, rest, i, MachineState::Idle),
                StreamPoll::Item(res) => match res {
                    Ok(x) => run_states(s, c, rest, i + 1, MachineState::InFlight(x)),
                    Err(_) => run_states(s, c, rest, i + 1, MachineState::Idle),
                },
            },
            (MachineState::InFlight(x), PollEvent::Task(p)) => match p {
                TaskPoll::Suspend => run_states(s, c, rest, i, MachineState::InFlight(x)),
                TaskPoll::Ready(_) => run_states(s, c, rest, i, MachineState::Idle),
            },
            _ => Seq::empty(),
        })
    }
}

/// Law: the adapter never holds two unresolved tasks.  At every point
/// of a well-formed run the state holds at most one in-flight item,
/// and upstream is pulled only at points where none is in flight — a
/// second task can never start before the first resolves.  The
/// executable adapter mirrors this with its single `Option` slot, and
/// `on_stream_poll` — the only way a task is created — demands that
/// the slot be empty.
pub proof fn lemma_never_two_tasks<T, U, E>(
    s: Seq<Result<T, E>>,
    c: spec_fn(T) -> Result<Option<U>, E>,
    evs: Seq<PollEvent<T, U, E>>,
    i: int,
    st: MachineState<T>,
)
    requires
        run_events(s, c, evs, i, st) is Some,
    ensures
        run_states(s, c, evs, i, st).len() == evs.len(),
        forall|k: int| 0 <= k < evs.len() ==> tasks_in_flight(
            #[trigger] run_states(s, c, evs, i, st)[k],
        ) <= 1,
        forall|k: int|
            (0 <= k < evs.len() && (#[trigger] evs[k]) matches PollEvent::Upstream(_))
                ==> tasks_in_flight(run_states(s, c, evs, i, st)[k]) == 0,
    decreases evs.len(),
{
    if evs.len() == 0 {
    } else {
        let rest = evs.drop_first();
        let states = run_states(s, c, evs, i, st);
        match (st, evs.first()) {
            (MachineState::Idle, PollEvent::Upstream(p)) => {
                let (i2, st2): (int, MachineState<T>) = match p {
                    StreamPoll::Suspend => (i, MachineState::Idle),
                    StreamPoll::Done => (i, MachineState::Idle),
                    StreamPoll::Item(res) => match res {
                        Ok(x) => (i + 1, MachineState::InFlight(x)),
                        Err(_) => (i + 1, MachineState::Idle),
                    },
                };
                lemma_never_two_tasks(s, c, rest, i2, st2);
                let tail = run_states(s, c, rest, i2, st2);
                assert(states =~= seq![st] + tail);
                assert forall|k: int| 0 < k < evs.len() implies tasks_in_flight(
                    #[trigger] states[k],
                ) <= 1 && ((evs[k] matches PollEvent::Upstream(_)) ==> tasks_in_flight(states[k])
                    == 0) by {
                    assert(states[k] == tail[k - 1]);
                    assert(evs[k] == rest[k - 1]);
                }
            },
            (MachineState::InFlight(x), PollEvent::Task(p)) => {
                let st2: MachineState<T> = match p {
                    TaskPoll::Suspend => MachineState::InFlight(x),
                    TaskPoll::Ready(_) => MachineState::Idle,
                };
                lemma_never_two_tasks(s, c, rest, i, st2);
                let tail = run_states(s, c, rest, i, st2);
                assert(states =~= seq![st] + tail);
                assert forall|k: int| 0 < k < evs.len() implies tasks_in_flight(
                    #[trigger] states[k],
                ) <= 1 && ((evs[k] matches PollEvent::Upstream(_)) ==> tasks_in_flight(states[k])
                    == 0) by {
                    assert(states[k] == tail[k - 1]);
                    assert(evs[k] == rest[k - 1]);
                }
            },
            _ => {
                assert(false);
            },
        }
    }
}

/// What an idle step means for the caller of an advance: either the
/// call returns with an outcome, or — after starting a task — the
/// adapter keeps looping without yielding anything.
pub open spec fn idle_outcome<U, E>(step: IdleStep<E>) -> Option<Advance<U, E>> {
    match step {
        IdleStep::Suspend => Some(Advance::Suspend),
        IdleStep::Done => Some(Advance::Done),
        IdleStep::Fail(e) => Some(Advance::Item(Err(e))),
        IdleStep::Started => None,
    }
}

/// What a task step means for the caller of an advance: either the
/// call returns with an outcome, or — after a dropped item — the
/// adapter pulls upstream again without yielding anything.
pub open spec fn task_outcome<U, E>(step: TaskStep<U, E>) -> Option<Advance<U, E>> {
    match step {
        TaskStep::Suspend => Some(Advance::Suspend),
        TaskStep::Yield(v) => Some(Advance::Item(Ok(v))),
        TaskStep::Fail(e) => Some(Advance::Item(Err(e))),
        TaskStep::Resume => None,
    }
}

/// Law: a drop never yields anything to the caller, and never returns
/// empty-handed either.  The only polls whose step does not end the
/// advance with a suspension, end-of-sequence or an item are the start
/// of a task and a task settling to a drop — in both the adapter keeps
/// looping; whenever an advance does return, its outcome is by type one
/// of suspend, done or item.
pub proof fn lemma_no_empty_yield<T, U, E>(ps: StreamPoll<T, E>, pt: TaskPoll<U, E>)
    ensures
        idle_outcome::<U, E>(idle_verdict(ps)) is None <==> ps matches StreamPoll::Item(Ok(_)),
        task_outcome(task_verdict(pt)) is None <==> pt == TaskPoll::<U, E>::Ready(Ok(None)),
{
}

/// Law: an item whose task settles to a drop is invisible in the
/// output: the projection of the upstream sequence equals the
/// projection with that item removed.
pub proof fn lemma_dropped_item_invisible<T, U, E>(
    s: Seq<Result<T, E>>,
    c: spec_fn(T) -> Result<Option<U>, E>,
    i: int,
)
    requires
        0 <= i < s.len(),
        s[i] matches Ok(x) && c(x) == Ok::<Option<U>, E>(None),
    ensures
        projection(s, c) == projection(s.remove(i), c),
    decreases i,
{
    if i == 0 {
        assert(s.remove(0) =~= s.drop_first());
        assert(projection(s, c) =~= projection(s.drop_first(), c));
    } else {
        assert(s.drop_first()[i - 1] == s[i]);
        lemma_dropped_item_invisible(s.drop_first(), c, i - 1);
        assert(s.remove(i).first() == s.first());
        assert(s.remove(i).drop_first() =~= s.drop_first().remove(i - 1));
    }
}

/// Law: a yielded error does not end the run.  A complete run over an
/// upstream sequence that starts with an error still consumes every
/// later item: the error is forwarded exactly once and is followed by
/// the projection of the rest of the sequence.
pub proof fn lemma_error_does_not_stop<T, U, E>(
    s: Seq<Result<T, E>>,
    c: spec_fn(T) -> Result<Option<U>, E>,
    evs: Seq<PollEvent<T, U, E>>,
)
    requires
        s.len() > 0,
        s.first() is Err,
        run_events(s, c, evs, 0, MachineState::Idle) is Some,
    ensures
        s.first() matches Err(e) ==> run_events(s, c, evs, 0, MachineState::Idle).unwrap()
            == seq![Err::<U, E>(e)] + projection(s.drop_first(), c),
{
    lemma_complete_run_is_projection(s, c, evs);
}

} // verus!
