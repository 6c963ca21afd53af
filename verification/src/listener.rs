//! A listening socket and what accepting on it decides.

use crate::error::{Cause, Error};
use crate::incoming::Incoming;
use crate::poll::{course, Course, Direction, Poll, Request, Step};
use crate::stream::UnixStream;
use vstd::prelude::*;

verus! {

/// A socket that is bound to a path and listens on it.
///
/// The listener owns the registered socket handle `L` and never looks
/// inside it. Dropping the listener does not remove the path.
#[derive(Debug, PartialEq, Eq)]
pub struct UnixListener<L> {
    io: L,
}

/// What the socket or the reactor reports to a poll that accepts a
/// connection: `R` is the accepted socket as the system hands it out, `A`
/// the address of its peer.
#[derive(Debug, PartialEq, Eq)]
pub enum AcceptStdEvent<R, A> {
    /// The caller polls; nothing has been asked yet.
    Polled,
    /// The reactor's answer to `Request::PollReady`.
    Readiness(Poll<Result<(), Cause>>),
    /// The socket's answer to `Request::Accept`: a connection, none for
    /// now, or a failure.
    Accepted(Result<Option<(R, A)>, Cause>),
    /// The reactor's answer to `Request::ClearReady`.
    Cleared(Result<(), Cause>),
}

/// What is reported to a poll that accepts a connection and makes a stream
/// of it: `S` is the accepted socket once it is registered.
#[derive(Debug, PartialEq, Eq)]
pub enum AcceptEvent<R, S, A> {
    /// What the accepting itself is told.
    Std(AcceptStdEvent<R, A>),
    /// The answer to `AcceptRequest::Adopt`: the registered handle of the
    /// accepted socket, or why there is none; and the peer's address as the
    /// request gave it.
    Adopted(Result<S, Cause>, A),
}

/// What a poll that accepts a connection and makes a stream of it asks for.
#[derive(Debug, PartialEq, Eq)]
pub enum AcceptRequest<R, A> {
    /// A request on the listening socket or to the reactor.
    Io(Request),
    /// Put the accepted socket into non-blocking mode and register it with
    /// the reactor; the address goes back with the answer.
    Adopt(R, A),
}

/// What a poll that accepts a connection does on `event`.
///
/// The poll suspends until the reactor has answered for readability, then
/// makes one accept call, even if the reactor's answer was a failure. No
/// connection for now, or "would block", is no failure: the readiness is
/// cleared and the poll suspends. Any failure of the accept call, or of the
/// clearing, ends the sequence of connections: it is not handed out.
pub open spec fn accept_std_step<R, A>(event: AcceptStdEvent<R, A>) -> Step<
    Request,
    Option<(R, A)>,
> {
    match event {
        AcceptStdEvent::Polled => Step::Perform(Request::PollReady(Direction::Read)),
        AcceptStdEvent::Readiness(Poll::Pending) => Step::Finish(Poll::Pending),
        AcceptStdEvent::Readiness(Poll::Ready(_)) => Step::Perform(Request::Accept),
        AcceptStdEvent::Accepted(Ok(Some(connection))) => Step::Finish(
            Poll::Ready(Some(connection)),
        ),
        AcceptStdEvent::Accepted(Ok(None)) => Step::Perform(
            Request::ClearReady(Direction::Read),
        ),
        AcceptStdEvent::Accepted(Err(cause)) => if cause.would_block() {
            Step::Perform(Request::ClearReady(Direction::Read))
        } else {
            Step::Finish(Poll::Ready(None))
        },
        AcceptStdEvent::Cleared(Ok(())) => Step::Finish(Poll::Pending),
        AcceptStdEvent::Cleared(Err(_)) => Step::Finish(Poll::Ready(None)),
    }
}

/// What a poll that accepts a connection and makes a stream of it does on
/// `event`.
///
/// It accepts as `accept_std_step` says. An accepted socket is then
/// adopted, and the stream that owns it is the result, with the peer's
/// address. If the socket cannot be adopted the sequence of connections
/// ends.
pub open spec fn accept_step<R, S, A>(event: AcceptEvent<R, S, A>) -> Step<
    AcceptRequest<R, A>,
    Option<(UnixStream<S>, A)>,
> {
    match event {
        AcceptEvent::Std(e) => match accept_std_step(e) {
            Step::Perform(q) => Step::Perform(AcceptRequest::Io(q)),
            Step::Finish(Poll::Pending) => Step::Finish(Poll::Pending),
            Step::Finish(Poll::Ready(None)) => Step::Finish(Poll::Ready(None)),
            Step::Finish(Poll::Ready(Some((raw, addr)))) => Step::Perform(
                AcceptRequest::Adopt(raw, addr),
            ),
        },
        AcceptEvent::Adopted(Ok(io), addr) => Step::Finish(
            Poll::Ready(Some((UnixStream::new(io), addr))),
        ),
        AcceptEvent::Adopted(Err(_), _) => Step::Finish(Poll::Ready(None)),
    }
}

/// What the socket and the reactor would answer to a poll that accepts a
/// connection.
pub struct AcceptStdWorld<R, A> {
    pub readiness: Poll<Result<(), Cause>>,
    pub accepted: Result<Option<(R, A)>, Cause>,
    pub cleared: Result<(), Cause>,
}

impl<R, A> AcceptStdWorld<R, A> {
    /// The answer of this world to each request.
    pub open spec fn reply(self) -> spec_fn(Request) -> AcceptStdEvent<R, A> {
        |q: Request|
            match q {
                Request::PollReady(_) => AcceptStdEvent::Readiness(self.readiness),
                Request::ClearReady(_) => AcceptStdEvent::Cleared(self.cleared),
                _ => AcceptStdEvent::Accepted(self.accepted),
            }
    }

    /// Whether the accept call finds no connection to hand out for now.
    pub open spec fn nothing_yet(self) -> bool {
        match self.accepted {
            Ok(Some(_)) => false,
            Ok(None) => true,
            Err(cause) => cause.would_block(),
        }
    }

    /// The result of a poll that accepts a connection in this world.
    pub open spec fn outcome(self) -> Poll<Option<(R, A)>> {
        if self.readiness is Pending {
            Poll::Pending
        } else {
            match self.accepted {
                Ok(Some(connection)) => Poll::Ready(Some(connection)),
                _ => if self.nothing_yet() && self.cleared is Ok {
                    Poll::Pending
                } else {
                    Poll::Ready(None)
                },
            }
        }
    }
}

/// The course of one poll that accepts a connection in `world`.
pub open spec fn accept_std_course<R, A>(world: AcceptStdWorld<R, A>) -> Course<
    (),
    Request,
    Option<(R, A)>,
> {
    course(
        |m: (), e: AcceptStdEvent<R, A>| ((), accept_std_step(e)),
        world.reply(),
        (),
        AcceptStdEvent::Polled,
        3,
    )
}

/// A poll that accepts a connection asks the reactor for readability,
/// makes at most one accept call, and clears the readiness before it
/// suspends for want of a connection: in every world its requests are the
/// first few of these three, in this order. Its result is
/// `world.outcome()`: a failure is never handed out, it ends the sequence.
/// The last thing that a suspending poll has done is to ask the reactor,
/// which is what has the task woken.
pub proof fn lemma_accept_std_course<R, A>(world: AcceptStdWorld<R, A>)
    ensures
        ({
            let c = accept_std_course(world);
            let all = seq![
                Request::PollReady(Direction::Read),
                Request::Accept,
                Request::ClearReady(Direction::Read),
            ];
            &&& c.result == Some(world.outcome())
            &&& c.requests.len() <= 3
            &&& c.requests == all.take(c.requests.len() as int)
            &&& c.requests.len() == 3 <==> !(world.readiness is Pending) && world.nothing_yet()
            &&& forall|k: int|
                0 <= k < c.requests.len() ==> ((#[trigger] c.requests[k]).is_syscall() <==> k == 1)
            &&& c.result == Some(Poll::<Option<(R, A)>>::Pending) ==> c.requests.len() > 0
                && !c.requests.last().is_syscall()
        }),
{
    reveal_with_fuel(course, 4);
    let c = accept_std_course(world);
    let all = seq![
        Request::PollReady(Direction::Read),
        Request::Accept,
        Request::ClearReady(Direction::Read),
    ];
    assert(c.requests =~= all.take(c.requests.len() as int));
}

/// What the socket and the reactor would answer to a poll that accepts a
/// connection and makes a stream of it.
pub struct AcceptWorld<R, S, A> {
    pub std: AcceptStdWorld<R, A>,
    pub adopted: Result<S, Cause>,
}

impl<R, S, A> AcceptWorld<R, S, A> {
    /// The answer of this world to each request.
    pub open spec fn reply(self) -> spec_fn(AcceptRequest<R, A>) -> AcceptEvent<R, S, A> {
        |q: AcceptRequest<R, A>|
            match q {
                AcceptRequest::Io(q) => AcceptEvent::Std((self.std.reply())(q)),
                AcceptRequest::Adopt(_, addr) => AcceptEvent::Adopted(self.adopted, addr),
            }
    }

    /// The result of a poll that accepts a connection and makes a stream
    /// of it in this world.
    pub open spec fn outcome(self) -> Poll<Option<(UnixStream<S>, A)>> {
        match self.std.outcome() {
            Poll::Pending => Poll::Pending,
            Poll::Ready(None) => Poll::Ready(None),
            Poll::Ready(Some((_, addr))) => match self.adopted {
                Ok(io) => Poll::Ready(Some((UnixStream::new(io), addr))),
                Err(_) => Poll::Ready(None),
            },
        }
    }
}

/// The course of one poll that accepts a connection and makes a stream of
/// it in `world`.
pub open spec fn accept_course<R, S, A>(world: AcceptWorld<R, S, A>) -> Course<
    (),
    AcceptRequest<R, A>,
    Option<(UnixStream<S>, A)>,
> {
    course(
        |m: (), e: AcceptEvent<R, S, A>| ((), accept_step(e)),
        world.reply(),
        (),
        AcceptEvent::Std(AcceptStdEvent::Polled),
        3,
    )
}

/// A poll that accepts a connection and makes a stream of it goes the way
/// of `lemma_accept_std_course` and then, where a connection was accepted,
/// has the accepted socket adopted, with the address that came with it.
/// Its result is `world.outcome()`: the stream owns the adopted socket, and
/// a socket that cannot be adopted ends the sequence.
pub proof fn lemma_accept_course<R, S, A>(world: AcceptWorld<R, S, A>)
    ensures
        ({
            let c = accept_course(world);
            let first = seq![
                AcceptRequest::<R, A>::Io(Request::PollReady(Direction::Read)),
                AcceptRequest::Io(Request::Accept),
            ];
            let all = first.push(
                match world.std.accepted {
                    Ok(Some((raw, addr))) => AcceptRequest::Adopt(raw, addr),
                    _ => AcceptRequest::Io(Request::ClearReady(Direction::Read)),
                },
            );
            &&& c.result == Some(world.outcome())
            &&& c.requests.len() <= 3
            &&& c.requests == all.take(c.requests.len() as int)
        }),
{
    reveal_with_fuel(course, 4);
    let c = accept_course(world);
    let first = seq![
        AcceptRequest::<R, A>::Io(Request::PollReady(Direction::Read)),
        AcceptRequest::Io(Request::Accept),
    ];
    let all = first.push(
        match world.std.accepted {
            Ok(Some((raw, addr))) => AcceptRequest::Adopt(raw, addr),
            _ => AcceptRequest::Io(Request::ClearReady(Direction::Read)),
        },
    );
    assert(c.requests =~= all.take(c.requests.len() as int));
}

impl<L> UnixListener<L> {
    /// The socket handle that the listener owns.
    pub closed spec fn handle(&self) -> L {
        self.io
    }

    /// The listener that owns `io`.
    pub closed spec fn spec_new(io: L) -> UnixListener<L> {
        UnixListener { io }
    }

    /// A listener is the socket handle that it owns, and nothing else.
    pub proof fn lemma_owns_its_handle(self)
        ensures
            self == Self::spec_new(self.handle()),
            forall|io: L| #[trigger] Self::spec_new(io).handle() == io,
    {
    }

    /// Makes a listener of the outcome of binding a socket to a path and
    /// registering it with the reactor: the registered handle, or why the
    /// path could not be bound or the socket not registered.
    pub fn bind(outcome: Result<L, Cause>) -> (r: Result<UnixListener<L>, Error>)
        ensures
            r == match outcome {
                Ok(io) => Ok(Self::spec_new(io)),
                Err(cause) => Err(Error::Bind(cause)),
            },
    {
        match outcome {
            Ok(io) => Ok(UnixListener { io }),
            Err(cause) => Err(Error::Bind(cause)),
        }
    }

    /// Makes a listener of the outcome of taking over a listening socket
    /// that was made elsewhere: its registered handle, or why it could not
    /// be put into non-blocking mode or registered.
    pub fn from_std(outcome: Result<L, Cause>) -> (r: Result<UnixListener<L>, Error>)
        ensures
            r == match outcome {
                Ok(io) => Ok(Self::spec_new(io)),
                Err(cause) => Err(Error::Io(cause)),
            },
    {
        match outcome {
            Ok(io) => Ok(UnixListener { io }),
            Err(cause) => Err(Error::Io(cause)),
        }
    }

    /// The socket handle, for the calls that read or change nothing here.
    pub fn get_ref(&self) -> (io: &L)
        ensures
            *io == self.handle(),
    {
        &self.io
    }

    /// The socket handle, for the calls that need it whole.
    pub fn get_mut(&mut self) -> (io: &mut L)
        ensures
            *io == old(self).handle(),
            final(self).handle() == *final(io),
    {
        &mut self.io
    }

    /// One step of a poll that accepts a connection and hands the accepted
    /// socket out as the system made it.
    pub fn poll_accept_std<R, A>(&self, event: AcceptStdEvent<R, A>) -> (step: Step<
        Request,
        Option<(R, A)>,
    >)
        ensures
            step == accept_std_step(event),
    {
        match event {
            AcceptStdEvent::Polled => Step::Perform(Request::PollReady(Direction::Read)),
            AcceptStdEvent::Readiness(Poll::Pending) => Step::Finish(Poll::Pending),
            AcceptStdEvent::Readiness(Poll::Ready(_)) => Step::Perform(Request::Accept),
            AcceptStdEvent::Accepted(Ok(Some(connection))) => Step::Finish(
                Poll::Ready(Some(connection)),
            ),
            AcceptStdEvent::Accepted(Ok(None)) => Step::Perform(
                Request::ClearReady(Direction::Read),
            ),
            AcceptStdEvent::Accepted(Err(cause)) => {
                if cause.is_would_block() {
                    Step::Perform(Request::ClearReady(Direction::Read))
                } else {
                    Step::Finish(Poll::Ready(None))
                }
            },
            AcceptStdEvent::Cleared(Ok(())) => Step::Finish(Poll::Pending),
            AcceptStdEvent::Cleared(Err(_)) => Step::Finish(Poll::Ready(None)),
        }
    }

    /// One step of a poll that accepts a connection and hands out the
    /// stream that owns it.
    pub fn poll_accept<R, S, A>(&self, event: AcceptEvent<R, S, A>) -> (step: Step<
        AcceptRequest<R, A>,
        Option<(UnixStream<S>, A)>,
    >)
        ensures
            step == accept_step(event),
    {
        match event {
            AcceptEvent::Std(e) => match self.poll_accept_std(e) {
                Step::Perform(q) => Step::Perform(AcceptRequest::Io(q)),
                Step::Finish(Poll::Pending) => Step::Finish(Poll::Pending),
                Step::Finish(Poll::Ready(None)) => Step::Finish(Poll::Ready(None)),
                Step::Finish(Poll::Ready(Some((raw, addr)))) => Step::Perform(
                    AcceptRequest::Adopt(raw, addr),
                ),
            },
            AcceptEvent::Adopted(Ok(io), addr) => Step::Finish(
                Poll::Ready(Some((UnixStream::new(io), addr))),
            ),
            AcceptEvent::Adopted(Err(_), _) => Step::Finish(Poll::Ready(None)),
        }
    }

    /// Gives the listener up for the sequence of the connections that it
    /// accepts.
    pub fn incoming(self) -> (incoming: Incoming<L>)
        ensures
            incoming.listener() == self,
            !incoming.ended(),
    {
        Incoming::new(self)
    }
}

} // verus!
