//! The filter-map adapter: owned state and verified step decisions.
//!
//! The adapter owns the upstream sequence, the callback, and an optional
//! slot for the single in-flight task.  An external scheduler drives it:
//! it polls the upstream sequence or the in-flight task (whichever the
//! adapter's state calls for), and reports what it observed through
//! [`TryFilterMap::on_stream_poll`] or [`TryFilterMap::on_task_poll`].
//! Those methods perform the adapter's state transition and answer with
//! the step to take next; their contracts pin the transition table down
//! exactly.

use vstd::prelude::*;

verus! {

/// What one poll of the upstream sequence reported.
#[derive(Debug, PartialEq, Eq)]
pub enum StreamPoll<T, E> {
    /// The upstream sequence cannot produce anything yet.
    Suspend,
    /// The upstream sequence is exhausted.
    Done,
    /// The upstream sequence produced an item or an error.
    Item(Result<T, E>),
}

/// What one poll of the in-flight task reported.
#[derive(Debug, PartialEq, Eq)]
pub enum TaskPoll<U, E> {
    /// The task cannot resolve yet.
    Suspend,
    /// The task resolved: keep a mapped value, drop the item, or fail.
    Ready(Result<Option<U>, E>),
}

/// The caller-visible outcome of one advance of the combined sequence.
///
/// There is no empty outcome: every advance ends in a suspension, the
/// end of the sequence, or exactly one item.
#[derive(Debug, PartialEq, Eq)]
pub enum Advance<U, E> {
    /// Neither upstream nor the task could make progress.
    Suspend,
    /// The combined sequence is over.
    Done,
    /// One mapped value or one forwarded error.
    Item(Result<U, E>),
}

/// The adapter's reaction to an upstream poll, taken while the task
/// slot is empty.
#[derive(Debug, PartialEq, Eq)]
pub enum IdleStep<E> {
    /// Hand a suspension to the caller.
    Suspend,
    /// Hand end-of-sequence to the caller.
    Done,
    /// Forward the upstream error to the caller.
    Fail(E),
    /// A task was created and stored; poll it next, without returning.
    Started,
}

/// The adapter's reaction to a task poll, taken while the task slot is
/// full.
#[derive(Debug, PartialEq, Eq)]
pub enum TaskStep<U, E> {
    /// Hand a suspension to the caller; the task stays in its slot.
    Suspend,
    /// The task kept the item: yield the mapped value.
    Yield(U),
    /// The task failed: forward its error.
    Fail(E),
    /// The task dropped the item: pull upstream again, without returning.
    Resume,
}

/// The step the adapter takes for each possible upstream poll.
pub open spec fn idle_verdict<T, E>(p: StreamPoll<T, E>) -> IdleStep<E> {
    match p {
        StreamPoll::Suspend => IdleStep::Suspend,
        StreamPoll::Done => IdleStep::Done,
        StreamPoll::Item(res) => match res {
            Ok(_) => IdleStep::Started,
            Err(e) => IdleStep::Fail(e),
        },
    }
}

/// The step the adapter takes for each possible task poll.
pub open spec fn task_verdict<U, E>(p: TaskPoll<U, E>) -> TaskStep<U, E> {
    match p {
        TaskPoll::Suspend => TaskStep::Suspend,
        TaskPoll::Ready(res) => match res {
            Ok(Some(v)) => TaskStep::Yield(v),
            Ok(None) => TaskStep::Resume,
            Err(e) => TaskStep::Fail(e),
        },
    }
}

/// An adapter that filters the results of a fallible sequence and
/// simultaneously maps them to a different type.
///
/// `St` is the upstream sequence, `F` the pure callback turning each
/// upstream item into a task, and `Fut` the task type itself.  The
/// `pending` slot holds the single in-flight task: it is non-empty
/// exactly from the moment a task is created until that task resolves,
/// and it is always empty when the adapter is about to pull upstream.
#[derive(Debug)]
#[must_use]
pub struct TryFilterMap<St, Fut, F> {
    stream: St,
    f: F,
    pending: Option<Fut>,
}

impl<St, Fut, F> TryFilterMap<St, Fut, F> {
    /// The upstream sequence the adapter owns.
    pub closed spec fn upstream(&self) -> St {
        self.stream
    }

    /// The callback the adapter owns.
    pub closed spec fn callback(&self) -> F {
        self.f
    }

    /// The optional in-flight task slot.
    pub closed spec fn task_slot(&self) -> Option<Fut> {
        self.pending
    }

    /// Wraps an upstream sequence and a callback; the task slot starts
    /// empty.
    pub fn new(stream: St, f: F) -> (r: Self)
        ensures
            r.upstream() == stream,
            r.callback() == f,
            r.task_slot() is None,
    {
        TryFilterMap { stream, f, pending: None }
    }

    /// Acquires a reference to the underlying stream that this adapter
    /// is pulling from.
    pub fn get_ref(&self) -> (r: &St)
        ensures
            *r == self.upstream(),
    {
        &self.stream
    }

    /// Acquires a mutable reference to the underlying stream that this
    /// adapter is pulling from.
    ///
    /// Note that care must be taken to avoid tampering with the state of
    /// the stream which may otherwise confuse this adapter.  Only the
    /// stream can change through the returned reference: the callback
    /// and the task slot are untouched.
    pub fn get_mut(&mut self) -> (r: &mut St)
        ensures
            *r == old(self).upstream(),
            final(self).upstream() == *final(r),
            final(self).callback() == old(self).callback(),
            final(self).task_slot() == old(self).task_slot(),
    {
        &mut self.stream
    }

    /// Consumes this adapter, returning the underlying stream.
    ///
    /// Any outstanding task is discarded with the adapter, so resources
    /// that task held are released without being awaited.
    pub fn into_inner(self) -> (r: St)
        ensures
            r == self.upstream(),
    {
        self.stream
    }

    /// Whether a task is in flight, i.e. whether the scheduler should
    /// poll the task rather than pull upstream.
    pub fn has_pending(&self) -> (r: bool)
        ensures
            r == (self.task_slot() is Some),
    {
        self.pending.is_some()
    }

    /// A mutable reference to the in-flight task, for the scheduler to
    /// poll.  The task stays in its slot: the slot itself cannot be
    /// emptied or replaced through the returned reference, and the rest
    /// of the adapter is untouched.
    pub fn task_mut(&mut self) -> (r: &mut Fut)
        requires
            old(self).task_slot() is Some,
        ensures
            *r == old(self).task_slot().unwrap(),
            final(self).task_slot() == Some(*final(r)),
            final(self).upstream() == old(self).upstream(),
            final(self).callback() == old(self).callback(),
    {
        match self.pending.as_mut() {
            Some(fut) => fut,
            None => vstd::pervasive::unreached(),
        }
    }

    /// Performs the adapter's transition for one observed upstream poll.
    ///
    /// Only legal while the task slot is empty: the adapter never pulls
    /// upstream while a task is in flight, so it can never come to hold
    /// two tasks.  On `Item(Ok(x))` the callback runs once on `x` and
    /// the task it built is stored in the slot; every other poll leaves
    /// the slot empty.
    pub fn on_stream_poll<T, E>(&mut self, p: StreamPoll<T, E>) -> (r: IdleStep<E>) where
        F: Fn(T) -> Fut,

        requires
            old(self).task_slot() is None,
            p matches StreamPoll::Item(Ok(x)) ==> call_requires(old(self).callback(), (x,)),
        ensures
            r == idle_verdict(p),
            final(self).upstream() == old(self).upstream(),
            final(self).callback() == old(self).callback(),
            !(p matches StreamPoll::Item(Ok(_))) ==> final(self).task_slot() is None,
            p matches StreamPoll::Item(Ok(x)) ==> (final(self).task_slot() matches Some(fut)
                && call_ensures(old(self).callback(), (x,), fut)),
    {
        match p {
            StreamPoll::Suspend => IdleStep::Suspend,
            StreamPoll::Done => IdleStep::Done,
            StreamPoll::Item(res) => match res {
                Ok(x) => {
                    let fut = (self.f)(x);
                    self.pending = Some(fut);
                    IdleStep::Started
                },
                Err(e) => IdleStep::Fail(e),
            },
        }
    }

    /// Performs the adapter's transition for one observed poll of the
    /// in-flight task.
    ///
    /// Only legal while a task is in flight.  A suspension leaves the
    /// task in its slot; any resolution clears the slot, so the next
    /// step pulls upstream again — also after a failure, which is
    /// forwarded exactly once and does not disable the adapter.
    pub fn on_task_poll<U, E>(&mut self, p: TaskPoll<U, E>) -> (r: TaskStep<U, E>)
        requires
            old(self).task_slot() is Some,
        ensures
            r == task_verdict(p),
            final(self).upstream() == old(self).upstream(),
            final(self).callback() == old(self).callback(),
            p is Suspend ==> final(self).task_slot() == old(self).task_slot(),
            p is Ready ==> final(self).task_slot() is None,
    {
        match p {
            TaskPoll::Suspend => TaskStep::Suspend,
            TaskPoll::Ready(res) => {
                self.pending = None;
                match res {
                    Ok(Some(v)) => TaskStep::Yield(v),
                    Ok(None) => TaskStep::Resume,
                    Err(e) => TaskStep::Fail(e),
                }
            },
        }
    }
}

} // verus!
