//! A connected socket, and the operation that connects one.

use crate::error::{Cause, Error};
use crate::poll::{course, Course, Direction, Poll, Request, Shutdown, Step};
use vstd::pervasive::unreached;
use vstd::prelude::*;

verus! {

/// A connected socket.
///
/// The stream owns the registered socket handle `S` and never looks inside
/// it. Reading and writing are independent of each other: each works on the
/// readiness of its own direction.
#[derive(Debug, PartialEq, Eq)]
pub struct UnixStream<S> {
    io: S,
}

/// What the socket or the reactor reports to a poll of a read or a write.
#[derive(Debug, PartialEq, Eq)]
pub enum TransferEvent {
    /// The caller polls; nothing has been asked yet.
    Polled,
    /// The reactor's answer to `Request::PollReady`.
    Readiness(Poll<Result<(), Cause>>),
    /// The socket's answer to `Request::Read` or `Request::Write`: the
    /// number of bytes moved, or why none were.
    Transferred(Result<usize, Cause>),
    /// The reactor's answer to `Request::ClearReady`.
    Cleared(Result<(), Cause>),
}

/// The system call that moves bytes in a direction.
pub open spec fn transfer_request(dir: Direction) -> Request {
    match dir {
        Direction::Read => Request::Read,
        Direction::Write => Request::Write,
    }
}

/// What a poll of a transfer in direction `dir` does on `event`.
///
/// The poll suspends until the reactor reports the direction ready, then
/// makes one system call. "Would block" from that call is no failure: the
/// readiness is cleared and the poll suspends. Every other outcome of the
/// call is the result of the poll as it stands.
pub open spec fn transfer_step(dir: Direction, event: TransferEvent) -> Step<
    Request,
    Result<usize, Error>,
> {
    match event {
        TransferEvent::Polled => Step::Perform(Request::PollReady(dir)),
        TransferEvent::Readiness(Poll::Pending) => Step::Finish(Poll::Pending),
        TransferEvent::Readiness(Poll::Ready(Err(cause))) => Step::Finish(
            Poll::Ready(Err(Error::Io(cause))),
        ),
        TransferEvent::Readiness(Poll::Ready(Ok(()))) => Step::Perform(transfer_request(dir)),
        TransferEvent::Transferred(Ok(n)) => Step::Finish(Poll::Ready(Ok(n))),
        TransferEvent::Transferred(Err(cause)) => if cause.would_block() {
            Step::Perform(Request::ClearReady(dir))
        } else {
            Step::Finish(Poll::Ready(Err(Error::Io(cause))))
        },
        TransferEvent::Cleared(Ok(())) => Step::Finish(Poll::Pending),
        TransferEvent::Cleared(Err(cause)) => Step::Finish(Poll::Ready(Err(Error::Io(cause)))),
    }
}

/// What the socket and the reactor would answer to a poll of a transfer.
pub struct TransferWorld {
    pub readiness: Poll<Result<(), Cause>>,
    pub transferred: Result<usize, Cause>,
    pub cleared: Result<(), Cause>,
}

impl TransferWorld {
    /// The answer of this world to each request.
    pub open spec fn reply(self) -> spec_fn(Request) -> TransferEvent {
        |q: Request|
            match q {
                Request::PollReady(_) => TransferEvent::Readiness(self.readiness),
                Request::ClearReady(_) => TransferEvent::Cleared(self.cleared),
                _ => TransferEvent::Transferred(self.transferred),
            }
    }

    /// The result of a poll of a transfer in this world.
    pub open spec fn outcome(self) -> Poll<Result<usize, Error>> {
        match self.readiness {
            Poll::Pending => Poll::Pending,
            Poll::Ready(Err(cause)) => Poll::Ready(Err(Error::Io(cause))),
            Poll::Ready(Ok(())) => match self.transferred {
                Ok(n) => Poll::Ready(Ok(n)),
                Err(cause) => if !cause.would_block() {
                    Poll::Ready(Err(Error::Io(cause)))
                } else {
                    match self.cleared {
                        Ok(()) => Poll::Pending,
                        Err(cause) => Poll::Ready(Err(Error::Io(cause))),
                    }
                },
            },
        }
    }
}

/// The course of one poll of a transfer in direction `dir`, in `world`.
pub open spec fn transfer_course(dir: Direction, world: TransferWorld) -> Course<
    (),
    Request,
    Result<usize, Error>,
> {
    course(
        |m: (), e: TransferEvent| ((), transfer_step(dir, e)),
        world.reply(),
        (),
        TransferEvent::Polled,
        3,
    )
}

/// A poll of a transfer asks the reactor for readiness, makes at most one
/// system call, and clears the readiness before it suspends on "would
/// block": in every world its requests are the first few of these three,
/// in this order, and they concern no direction but its own. Its result is
/// `world.outcome()`. The last thing that a suspending poll has done is to
/// ask the reactor, which is what has the task woken: no poll suspends on
/// the word of the socket alone.
pub proof fn lemma_transfer_course(dir: Direction, world: TransferWorld)
    ensures
        ({
            let c = transfer_course(dir, world);
            let all = seq![
                Request::PollReady(dir),
                transfer_request(dir),
                Request::ClearReady(dir),
            ];
            &&& c.result == Some(world.outcome())
            &&& c.requests.len() <= 3
            &&& c.requests == all.take(c.requests.len() as int)
            &&& forall|k: int|
                0 <= k < c.requests.len() ==> (#[trigger] c.requests[k]).direction() == Some(dir)
            &&& forall|k: int|
                0 <= k < c.requests.len() ==> ((#[trigger] c.requests[k]).is_syscall() <==> k == 1)
            &&& c.result == Some(Poll::<Result<usize, Error>>::Pending) ==> c.requests.len() > 0
                && !c.requests.last().is_syscall()
        }),
{
    reveal_with_fuel(course, 4);
    let c = transfer_course(dir, world);
    let all = seq![Request::PollReady(dir), transfer_request(dir), Request::ClearReady(dir)];
    assert(c.requests =~= all.take(c.requests.len() as int));
}

/// A poll of a transfer reports the bytes that its one system call moved,
/// no more and no fewer: it reports a count if and only if the direction
/// was ready and the call moved that many, and it has then made that call
/// and no other.
pub proof fn lemma_transfer_is_transparent(dir: Direction, world: TransferWorld, n: usize)
    ensures
        transfer_course(dir, world).result == Some(Poll::Ready(Ok::<usize, Error>(n)))
            <==> (world.readiness matches Poll::Ready(Ok(_))) && world.transferred == Ok::<
            usize,
            Cause,
        >(n),
        transfer_course(dir, world).result == Some(Poll::Ready(Ok::<usize, Error>(n)))
            ==> transfer_course(dir, world).requests == seq![
            Request::PollReady(dir),
            transfer_request(dir),
        ],
{
    lemma_transfer_course(dir, world);
    let c = transfer_course(dir, world);
    if c.result == Some(Poll::Ready(Ok::<usize, Error>(n))) {
        assert(c.requests.len() == 2) by {
            reveal_with_fuel(course, 4);
        }
        assert(c.requests =~= seq![Request::PollReady(dir), transfer_request(dir)]);
    }
}

fn poll_transfer(dir: Direction, event: TransferEvent) -> (step: Step<Request, Result<usize, Error>>)
    ensures
        step == transfer_step(dir, event),
{
    match event {
        TransferEvent::Polled => Step::Perform(Request::PollReady(dir)),
        TransferEvent::Readiness(Poll::Pending) => Step::Finish(Poll::Pending),
        TransferEvent::Readiness(Poll::Ready(Err(cause))) => Step::Finish(
            Poll::Ready(Err(Error::Io(cause))),
        ),
        TransferEvent::Readiness(Poll::Ready(Ok(()))) => match dir {
            Direction::Read => Step::Perform(Request::Read),
            Direction::Write => Step::Perform(Request::Write),
        },
        TransferEvent::Transferred(Ok(n)) => Step::Finish(Poll::Ready(Ok(n))),
        TransferEvent::Transferred(Err(cause)) => {
            if cause.is_would_block() {
                Step::Perform(Request::ClearReady(dir))
            } else {
                Step::Finish(Poll::Ready(Err(Error::Io(cause))))
            }
        },
        TransferEvent::Cleared(Ok(())) => Step::Finish(Poll::Pending),
        TransferEvent::Cleared(Err(cause)) => Step::Finish(Poll::Ready(Err(Error::Io(cause)))),
    }
}

/// What the socket reports to a shutdown.
#[derive(Debug, PartialEq, Eq)]
pub enum ShutdownEvent {
    /// The caller asks for the shutdown; nothing has been asked of the
    /// socket yet.
    Polled,
    /// The socket's answer to `Request::Shutdown`.
    Closed(Result<(), Cause>),
}

/// What a shutdown of the halves `how` does on `event`: it asks the socket
/// at once, never suspends, and its result is the socket's answer.
pub open spec fn shutdown_step(how: Shutdown, event: ShutdownEvent) -> Step<
    Request,
    Result<(), Error>,
> {
    match event {
        ShutdownEvent::Polled => Step::Perform(Request::Shutdown(how)),
        ShutdownEvent::Closed(Ok(())) => Step::Finish(Poll::Ready(Ok(()))),
        ShutdownEvent::Closed(Err(cause)) => Step::Finish(Poll::Ready(Err(Error::Io(cause)))),
    }
}

/// The course of a shutdown of the halves `how` where the socket answers
/// `closed`.
pub open spec fn shutdown_course(how: Shutdown, closed: Result<(), Cause>) -> Course<
    (),
    Request,
    Result<(), Error>,
> {
    course(
        |m: (), e: ShutdownEvent| ((), shutdown_step(how, e)),
        |q: Request| ShutdownEvent::Closed(closed),
        (),
        ShutdownEvent::Polled,
        1,
    )
}

/// A shutdown is one request to the socket, and the socket's answer is its
/// result. The stream keeps no record of it: a second shutdown is asked of
/// the socket as the first was, and what comes of it is the socket's to
/// say.
pub proof fn lemma_shutdown_course(how: Shutdown, closed: Result<(), Cause>)
    ensures
        shutdown_course(how, closed).requests == seq![Request::Shutdown(how)],
        shutdown_course(how, closed).result == Some(
            Poll::Ready(
                match closed {
                    Ok(_) => Ok(()),
                    Err(cause) => Err(Error::Io(cause)),
                },
            ),
        ),
{
    reveal_with_fuel(course, 2);
    assert(shutdown_course(how, closed).requests =~= seq![Request::Shutdown(how)]);
}

impl<S> UnixStream<S> {
    /// The socket handle that the stream owns.
    pub closed spec fn handle(&self) -> S {
        self.io
    }

    /// The stream that owns `io`.
    pub closed spec fn spec_new(io: S) -> UnixStream<S> {
        UnixStream { io }
    }

    /// A stream is the socket handle that it owns, and nothing else.
    pub proof fn lemma_owns_its_handle(self)
        ensures
            self == Self::spec_new(self.handle()),
            forall|io: S| #[trigger] Self::spec_new(io).handle() == io,
    {
    }

    /// Wraps a socket handle that is connected, or connecting, and
    /// registered with the reactor.
    #[verifier::when_used_as_spec(spec_new)]
    pub fn new(io: S) -> (stream: UnixStream<S>)
        ensures
            stream == Self::spec_new(io),
            stream.handle() == io,
    {
        UnixStream { io }
    }

    /// The socket handle, for the calls that read or change nothing here.
    pub fn get_ref(&self) -> (io: &S)
        ensures
            *io == self.handle(),
    {
        &self.io
    }

    /// The socket handle, for the calls that need it whole.
    pub fn get_mut(&mut self) -> (io: &mut S)
        ensures
            *io == old(self).handle(),
            final(self).handle() == *final(io),
    {
        &mut self.io
    }

    /// Gives up the socket handle.
    pub fn into_inner(self) -> (io: S)
        ensures
            io == self.handle(),
    {
        self.io
    }

    /// Makes a stream of the outcome of taking over a connected socket that
    /// was made elsewhere: its registered handle, or why it could not be
    /// put into non-blocking mode or registered.
    pub fn from_std(outcome: Result<S, Cause>) -> (r: Result<UnixStream<S>, Error>)
        ensures
            r == match outcome {
                Ok(io) => Ok(Self::spec_new(io)),
                Err(cause) => Err(Error::Io(cause)),
            },
    {
        match outcome {
            Ok(io) => Ok(UnixStream { io }),
            Err(cause) => Err(Error::Io(cause)),
        }
    }

    /// One step of a poll that reads into the caller's buffer.
    pub fn poll_read(&self, event: TransferEvent) -> (step: Step<Request, Result<usize, Error>>)
        ensures
            step == transfer_step(Direction::Read, event),
    {
        poll_transfer(Direction::Read, event)
    }

    /// One step of a poll that writes from the caller's buffer.
    pub fn poll_write(&self, event: TransferEvent) -> (step: Step<Request, Result<usize, Error>>)
        ensures
            step == transfer_step(Direction::Write, event),
    {
        poll_transfer(Direction::Write, event)
    }

    /// A poll that flushes: the stream holds no bytes back, so there is
    /// never anything to do.
    pub fn poll_flush(&self) -> (r: Poll<Result<(), Error>>)
        ensures
            r == Poll::<Result<(), Error>>::Ready(Ok(())),
    {
        Poll::Ready(Ok(()))
    }

    /// One step of closing the halves `how` of the connection.
    pub fn shutdown(&self, how: Shutdown, event: ShutdownEvent) -> (step: Step<
        Request,
        Result<(), Error>,
    >)
        ensures
            step == shutdown_step(how, event),
    {
        match event {
            ShutdownEvent::Polled => Step::Perform(Request::Shutdown(how)),
            ShutdownEvent::Closed(Ok(())) => Step::Finish(Poll::Ready(Ok(()))),
            ShutdownEvent::Closed(Err(cause)) => Step::Finish(
                Poll::Ready(Err(Error::Io(cause))),
            ),
        }
    }

    /// One step of a poll that closes the writing half of the connection.
    pub fn poll_shutdown(&self, event: ShutdownEvent) -> (step: Step<Request, Result<(), Error>>)
        ensures
            step == shutdown_step(Shutdown::Write, event),
    {
        self.shutdown(Shutdown::Write, event)
    }

    /// Begins a connect operation from the outcome of the non-blocking
    /// connect: the registered handle of the connecting socket, or why the
    /// socket could not be made, connected or registered. A failure is kept
    /// for the first poll; it is not the caller's to handle here.
    pub fn connect(outcome: Result<S, Cause>) -> (op: ConnectFuture<S>)
        ensures
            op.state() == match outcome {
                Ok(io) => State::Waiting(UnixStream::new(io)),
                Err(cause) => State::Error(cause),
            },
    {
        match outcome {
            Ok(io) => ConnectFuture { inner: State::Waiting(UnixStream { io }) },
            Err(cause) => ConnectFuture { inner: State::Error(cause) },
        }
    }
}

/// What the socket or the reactor reports to a poll of a connect operation.
#[derive(Debug, PartialEq, Eq)]
pub enum ConnectEvent {
    /// The caller polls; nothing has been asked yet.
    Polled,
    /// The reactor's answer to `Request::PollReady`.
    Readiness(Poll<Result<(), Cause>>),
    /// The socket's answer to `Request::TakeError`: the error that is
    /// pending on it, if any, or why that could not be found out.
    PendingError(Result<Option<Cause>, Cause>),
}

/// Where a connect operation stands.
#[derive(Debug, PartialEq, Eq)]
pub enum State<S> {
    /// The connection is being established on this stream.
    Waiting(UnixStream<S>),
    /// The connection failed at once; the failure has yet to be handed out.
    Error(Cause),
    /// The operation has handed out its result.
    Empty,
}

/// A connect operation: resolves once, to the connected stream or to the
/// reason why there is none.
#[derive(Debug, PartialEq, Eq)]
pub struct ConnectFuture<S> {
    inner: State<S>,
}

/// What a poll of a connect operation in `state` does on `event`, and the
/// state it leaves.
///
/// A connection that is being established is complete when the socket is
/// writable; whether it succeeded is then read off the socket's pending
/// error. Whatever ends the poll with a result, a stream or a failure,
/// leaves the operation `Empty`.
pub open spec fn connect_step<S>(state: State<S>, event: ConnectEvent) -> (
    State<S>,
    Step<Request, Result<UnixStream<S>, Error>>,
)
    recommends
        !(state is Empty),
{
    match state {
        State::Waiting(stream) => match event {
            ConnectEvent::Polled => (state, Step::Perform(Request::PollReady(Direction::Write))),
            ConnectEvent::Readiness(Poll::Pending) => (state, Step::Finish(Poll::Pending)),
            ConnectEvent::Readiness(Poll::Ready(Ok(()))) => (
                state,
                Step::Perform(Request::TakeError),
            ),
            ConnectEvent::PendingError(Ok(None)) => (
                State::Empty,
                Step::Finish(Poll::Ready(Ok(stream))),
            ),
            ConnectEvent::Readiness(Poll::Ready(Err(cause)))
            | ConnectEvent::PendingError(Ok(Some(cause)))
            | ConnectEvent::PendingError(Err(cause)) => (
                State::Empty,
                Step::Finish(Poll::Ready(Err(Error::Connect(cause)))),
            ),
        },
        State::Error(cause) => (
            State::Empty,
            Step::Finish(Poll::Ready(Err(Error::Connect(cause)))),
        ),
        State::Empty => arbitrary(),
    }
}

/// What the socket and the reactor would answer to a poll of a connect
/// operation.
pub struct ConnectWorld {
    pub readiness: Poll<Result<(), Cause>>,
    pub pending_error: Result<Option<Cause>, Cause>,
}

impl ConnectWorld {
    /// The answer of this world to each request.
    pub open spec fn reply(self) -> spec_fn(Request) -> ConnectEvent {
        |q: Request|
            match q {
                Request::PollReady(_) => ConnectEvent::Readiness(self.readiness),
                _ => ConnectEvent::PendingError(self.pending_error),
            }
    }

    /// The result of a poll, in this world, of a connect operation in
    /// `state`.
    pub open spec fn outcome<S>(self, state: State<S>) -> Poll<Result<UnixStream<S>, Error>>
        recommends
            !(state is Empty),
    {
        match state {
            State::Error(cause) => Poll::Ready(Err(Error::Connect(cause))),
            State::Waiting(stream) => match self.readiness {
                Poll::Pending => Poll::Pending,
                Poll::Ready(Err(cause)) => Poll::Ready(Err(Error::Connect(cause))),
                Poll::Ready(Ok(())) => match self.pending_error {
                    Ok(None) => Poll::Ready(Ok(stream)),
                    Ok(Some(cause)) => Poll::Ready(Err(Error::Connect(cause))),
                    Err(cause) => Poll::Ready(Err(Error::Connect(cause))),
                },
            },
            State::Empty => arbitrary(),
        }
    }
}

/// The course of one poll of a connect operation in `state`, in `world`.
pub open spec fn connect_course<S>(state: State<S>, world: ConnectWorld) -> Course<
    State<S>,
    Request,
    Result<UnixStream<S>, Error>,
> {
    course(
        |s: State<S>, e: ConnectEvent| connect_step(s, e),
        world.reply(),
        state,
        ConnectEvent::Polled,
        2,
    )
}

/// A poll of a connect operation asks the reactor whether the socket is
/// writable and then, at most once, the socket for its pending error. Its
/// result is `world.outcome(state)`. A poll that suspends leaves the
/// operation as it was; a poll with a result leaves it `Empty`.
pub proof fn lemma_connect_course<S>(state: State<S>, world: ConnectWorld)
    requires
        !(state is Empty),
    ensures
        ({
            let c = connect_course(state, world);
            let all = seq![Request::PollReady(Direction::Write), Request::TakeError];
            &&& c.result == Some(world.outcome(state))
            &&& c.requests.len() <= 2
            &&& c.requests == all.take(c.requests.len() as int)
            &&& c.state == if world.outcome(state) is Pending {
                state
            } else {
                State::Empty
            }
            &&& c.result == Some(Poll::<Result<UnixStream<S>, Error>>::Pending)
                ==> c.requests.len() > 0 && !c.requests.last().is_syscall()
        }),
{
    reveal_with_fuel(course, 3);
    let c = connect_course(state, world);
    let all = seq![Request::PollReady(Direction::Write), Request::TakeError];
    assert(c.requests =~= all.take(c.requests.len() as int));
}

/// A connect operation does not stall by itself: its poll suspends only
/// when the reactor reports that the socket is not yet writable. Once the
/// reactor reports it writable, the poll hands out the stream that the
/// operation was begun with if no error is pending on the socket, and
/// otherwise the reason why there is no connection. An operation that was
/// begun from a failure hands that failure out at its first poll.
pub proof fn lemma_connect_resolves<S>(state: State<S>, world: ConnectWorld)
    requires
        !(state is Empty),
    ensures
        connect_course(state, world).result == Some(
            Poll::<Result<UnixStream<S>, Error>>::Pending,
        ) <==> state is Waiting && world.readiness is Pending,
        state matches State::Waiting(stream) ==> ((world.readiness matches Poll::Ready(Ok(_)))
            && world.pending_error == Ok::<Option<Cause>, Cause>(None) ==> connect_course(
            state,
            world,
        ).result == Some(Poll::Ready(Ok::<UnixStream<S>, Error>(stream)))),
        state matches State::Error(cause) ==> connect_course(state, world).result == Some(
            Poll::Ready(Err::<UnixStream<S>, Error>(Error::Connect(cause))),
        ),
{
    lemma_connect_course(state, world);
}

/// A connect operation hands out one result. The poll that hands it out
/// leaves the operation `Empty`, whatever the result is, and every other
/// poll leaves it pollable; an `Empty` operation is one that `poll` does
/// not accept, so no second result, and no stream twice, can come of it.
pub proof fn lemma_connect_resolves_once<S>(state: State<S>, world: ConnectWorld)
    requires
        !(state is Empty),
    ensures
        ({
            let c = connect_course(state, world);
            &&& c.result matches Some(r)
            &&& r is Ready <==> c.state is Empty
            &&& r is Pending <==> c.state == state
        }),
{
    lemma_connect_course(state, world);
}

/// The results of polling a connect operation in `state` once in each of
/// `worlds`, in turn, for as long as it may be polled.
pub open spec fn connect_results<S>(state: State<S>, worlds: Seq<ConnectWorld>) -> Seq<
    Poll<Result<UnixStream<S>, Error>>,
>
    decreases worlds.len(),
{
    if worlds.len() == 0 || state is Empty {
        Seq::empty()
    } else {
        seq![worlds[0].outcome(state)] + connect_results(
            connect_course(state, worlds[0]).state,
            worlds.drop_first(),
        )
    }
}

/// However often a connect operation is polled, and whatever the socket
/// and the reactor answer, nothing comes after its result: every poll
/// before the one that hands out a stream or a failure has suspended, and
/// after that one the operation may not be polled.
pub proof fn lemma_connect_result_is_last<S>(state: State<S>, worlds: Seq<ConnectWorld>, i: int)
    requires
        0 <= i < connect_results(state, worlds).len(),
        connect_results(state, worlds)[i] is Ready,
    ensures
        i == connect_results(state, worlds).len() - 1,
    decreases worlds.len(),
{
    lemma_connect_course(state, worlds[0]);
    let next = connect_course(state, worlds[0]).state;
    let rest = connect_results(next, worlds.drop_first());
    assert(connect_results(state, worlds) == seq![worlds[0].outcome(state)] + rest);
    if i > 0 {
        assert(rest[i - 1] == connect_results(state, worlds)[i]);
        lemma_connect_result_is_last(next, worlds.drop_first(), i - 1);
    } else {
        assert(next is Empty);
        assert(rest.len() == 0);
    }
}

/// A connect operation resolves at the first poll that the reactor does not
/// answer with "not yet writable": if that is the poll in `worlds[k]`, then
/// the polls before it have suspended, this one hands out the result, and
/// no poll comes after it.
pub proof fn lemma_connect_resolves_at_first_answer<S>(
    state: State<S>,
    worlds: Seq<ConnectWorld>,
    k: int,
)
    requires
        state is Waiting,
        0 <= k < worlds.len(),
        forall|i: int| 0 <= i < k ==> (#[trigger] worlds[i]).readiness is Pending,
        !(worlds[k].readiness is Pending),
    ensures
        connect_results(state, worlds).len() == k + 1,
        forall|i: int| 0 <= i < k ==> (#[trigger] connect_results(state, worlds)[i]) is Pending,
        connect_results(state, worlds)[k] == worlds[k].outcome(state),
        connect_results(state, worlds)[k] is Ready,
    decreases worlds.len(),
{
    lemma_connect_course(state, worlds[0]);
    let next = connect_course(state, worlds[0]).state;
    let rest = connect_results(next, worlds.drop_first());
    assert(connect_results(state, worlds) == seq![worlds[0].outcome(state)] + rest);
    if k == 0 {
        assert(next is Empty);
        assert(rest.len() == 0);
    } else {
        assert(worlds[0].readiness is Pending);
        assert(next == state);
        let tail = worlds.drop_first();
        assert(forall|i: int| 0 <= i < k - 1 ==> (#[trigger] tail[i]) == worlds[i + 1]);
        lemma_connect_resolves_at_first_answer(state, tail, k - 1);
        assert forall|i: int| 0 <= i < k implies (#[trigger] connect_results(state, worlds)[i])
            is Pending by {
            if i > 0 {
                assert(connect_results(state, worlds)[i] == rest[i - 1]);
            }
        }
    }
}

impl<S> ConnectFuture<S> {
    /// Where the operation stands.
    pub closed spec fn state(&self) -> State<S> {
        self.inner
    }

    /// An operation is where it stands, and nothing else.
    pub proof fn lemma_is_its_state(self, other: Self)
        requires
            self.state() == other.state(),
        ensures
            self == other,
    {
    }

    /// Whether the operation has handed out its result.
    pub open spec fn resolved(&self) -> bool {
        self.state() is Empty
    }

    /// Whether the operation has handed out its result. Such an operation
    /// must not be polled again.
    #[verifier::when_used_as_spec(resolved)]
    pub fn is_resolved(&self) -> (b: bool)
        ensures
            b == self.resolved(),
    {
        match self.inner {
            State::Empty => true,
            _ => false,
        }
    }

    /// The stream on which the connection is being established, while the
    /// operation waits for it.
    pub fn get_ref(&self) -> (stream: Option<&UnixStream<S>>)
        ensures
            match self.state() {
                State::Waiting(s) => stream == Some(&s),
                _ => stream is None,
            },
    {
        match &self.inner {
            State::Waiting(s) => Some(s),
            _ => None,
        }
    }

    /// One step of a poll of the operation.
    pub fn poll(&mut self, event: ConnectEvent) -> (step: Step<
        Request,
        Result<UnixStream<S>, Error>,
    >)
        requires
            !old(self).resolved(),
        ensures
            (final(self).state(), step) == connect_step(old(self).state(), event),
    {
        let mut state = State::Empty;
        std::mem::swap(&mut self.inner, &mut state);
        match state {
            State::Waiting(stream) => match event {
                ConnectEvent::Polled => {
                    self.inner = State::Waiting(stream);
                    Step::Perform(Request::PollReady(Direction::Write))
                },
                ConnectEvent::Readiness(Poll::Pending) => {
                    self.inner = State::Waiting(stream);
                    Step::Finish(Poll::Pending)
                },
                ConnectEvent::Readiness(Poll::Ready(Ok(()))) => {
                    self.inner = State::Waiting(stream);
                    Step::Perform(Request::TakeError)
                },
                ConnectEvent::PendingError(Ok(None)) => Step::Finish(Poll::Ready(Ok(stream))),
                ConnectEvent::Readiness(Poll::Ready(Err(cause))) => Step::Finish(
                    Poll::Ready(Err(Error::Connect(cause))),
                ),
                ConnectEvent::PendingError(Ok(Some(cause))) => Step::Finish(
                    Poll::Ready(Err(Error::Connect(cause))),
                ),
                ConnectEvent::PendingError(Err(cause)) => Step::Finish(
                    Poll::Ready(Err(Error::Connect(cause))),
                ),
            },
            State::Error(cause) => Step::Finish(Poll::Ready(Err(Error::Connect(cause)))),
            State::Empty => unreached(),
        }
    }
}

} // verus!
