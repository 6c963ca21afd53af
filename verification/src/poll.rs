//! The vocabulary shared by every suspendable operation.

use vstd::prelude::*;

verus! {

/// The result of one poll of an operation that may suspend.
#[derive(Debug, PartialEq, Eq)]
pub enum Poll<T> {
    /// The operation is complete.
    Ready(T),
    /// The operation is not complete; the task is woken when polling again
    /// may make progress.
    Pending,
}

impl<T> Poll<T> {
    /// Whether the operation is complete.
    pub fn is_ready(&self) -> (b: bool)
        ensures
            b == (*self is Ready),
    {
        match self {
            Poll::Ready(_) => true,
            Poll::Pending => false,
        }
    }

    /// Whether the operation is not complete.
    pub fn is_pending(&self) -> (b: bool)
        ensures
            b == (*self is Pending),
    {
        match self {
            Poll::Ready(_) => false,
            Poll::Pending => true,
        }
    }
}

/// One of the two directions in which the reactor tracks readiness.
#[derive(Clone, Copy, Debug, PartialEq, Eq, Structural)]
pub enum Direction {
    Read,
    Write,
}

/// Which halves of a connection a shutdown closes.
#[derive(Clone, Copy, Debug, PartialEq, Eq, Structural)]
pub enum Shutdown {
    Read,
    Write,
    Both,
}

/// Something to ask of the socket or of the reactor on behalf of a poll.
#[derive(Clone, Copy, Debug, PartialEq, Eq, Structural)]
pub enum Request {
    /// Ask the reactor whether the socket is ready in the given direction,
    /// and have the polling task woken when that changes.
    PollReady(Direction),
    /// Have the reactor forget that the socket was ready in the given
    /// direction, so that only a new readiness event counts.
    ClearReady(Direction),
    /// Accept one connection without blocking.
    Accept,
    /// Read once into the caller's buffer without blocking.
    Read,
    /// Write once from the caller's buffer without blocking.
    Write,
    /// Take the socket's pending error.
    TakeError,
    /// Close the given halves of the connection.
    Shutdown(Shutdown),
}

impl Request {
    /// Whether the request is a system call on the socket, as opposed to a
    /// question to the reactor.
    pub open spec fn is_syscall(self) -> bool {
        !(self is PollReady) && !(self is ClearReady)
    }

    /// The direction whose readiness the request asks about, changes or
    /// relies on; `None` for a request that is bound to neither.
    pub open spec fn direction(self) -> Option<Direction> {
        match self {
            Request::PollReady(d) => Some(d),
            Request::ClearReady(d) => Some(d),
            Request::Accept => Some(Direction::Read),
            Request::Read => Some(Direction::Read),
            Request::Write => Some(Direction::Write),
            Request::TakeError => None,
            Request::Shutdown(_) => None,
        }
    }
}

/// What a poll does next.
#[derive(Debug, PartialEq, Eq)]
pub enum Step<Q, T> {
    /// The poll cannot go on before the request has been carried out and its
    /// outcome reported.
    Perform(Q),
    /// The poll is over, with this result.
    Finish(Poll<T>),
}

/// The course of a poll: the requests that it made, in order, and its
/// result; no result where the poll was cut short.
pub struct Course<M, Q, T> {
    pub state: M,
    pub requests: Seq<Q>,
    pub result: Option<Poll<T>>,
}

/// The course that a poll takes when it is driven by `step` from `state`
/// and `event`, in a world that answers a request `q` with the event
/// `reply(q)`. The poll is cut short after `fuel` answers.
pub open spec fn course<M, E, Q, T>(
    step: spec_fn(M, E) -> (M, Step<Q, T>),
    reply: spec_fn(Q) -> E,
    state: M,
    event: E,
    fuel: nat,
) -> Course<M, Q, T>
    decreases fuel,
{
    let (next, s) = step(state, event);
    match s {
        Step::Finish(p) => Course { state: next, requests: Seq::empty(), result: Some(p) },
        Step::Perform(q) => if fuel == 0 {
            Course { state: next, requests: seq![q], result: None }
        } else {
            let rest = course(step, reply, next, reply(q), (fuel - 1) as nat);
            Course { state: rest.state, requests: seq![q] + rest.requests, result: rest.result }
        },
    }
}

} // verus!
