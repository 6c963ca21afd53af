//! One listener and one stream for two kinds of socket: the emulated one
//! of `listener` and `stream`, and the one that the platform supplies.

use crate::error::{Cause, Error};
use crate::incoming::Incoming;
use crate::listener::{
    accept_course, accept_step, lemma_accept_course, AcceptEvent, AcceptRequest, AcceptStdEvent,
    AcceptWorld,
};
use crate::poll::{Direction, Shutdown};
use crate::poll::{course, Course, Poll, Request, Step};
use crate::stream::{shutdown_step, transfer_step, ShutdownEvent, TransferEvent};
use vstd::prelude::*;

verus! {

/// One of the two kinds of socket, or something that belongs to one of
/// them.
#[derive(Debug, PartialEq, Eq)]
pub enum Backend<E, N> {
    /// The socket that this crate drives through the reactor.
    Emulated(E),
    /// The socket that the platform supplies together with its own polls.
    Native(N),
}

/// A poll of a native socket, asked for as a whole.
#[derive(Clone, Copy, Debug, PartialEq, Eq, Structural)]
pub enum NativeRequest {
    Read,
    Write,
    Flush,
    Shutdown,
}

/// What a native stream reports to a poll.
#[derive(Debug, PartialEq, Eq)]
pub enum NativeEvent<T> {
    /// The caller polls; nothing has been asked yet.
    Polled,
    /// The result of the native poll that was asked for.
    Done(Poll<Result<T, Cause>>),
}

/// What a poll of a native listener asks for: `NS` is the native stream.
#[derive(Debug, PartialEq, Eq)]
pub enum NativeAcceptRequest<NS> {
    /// The native poll that accepts a connection.
    Accept,
    /// The address of the peer of this accepted stream; the stream goes
    /// back with the answer.
    PeerAddr(NS),
}

/// What a native listener reports to a poll.
#[derive(Debug, PartialEq, Eq)]
pub enum NativeAcceptEvent<NS, A> {
    /// The caller polls; nothing has been asked yet.
    Polled,
    /// The result of the native poll that accepts a connection.
    Accepted(Poll<Result<NS, Cause>>),
    /// The answer to `NativeAcceptRequest::PeerAddr`.
    PeerAddr(NS, Result<A, Cause>),
}

/// A connected socket of either kind.
#[derive(Debug, PartialEq, Eq)]
pub struct UnixStream<S, NS> {
    inner: Backend<crate::stream::UnixStream<S>, NS>,
}

/// A listening socket of either kind, as the sequence of the connections
/// that it accepts. An ended sequence stays ended.
#[derive(Debug, PartialEq, Eq)]
pub struct UnixListener<L, NL> {
    inner: Backend<crate::listener::UnixListener<L>, NL>,
    ended: bool,
}

/// What is reported to a poll of a listener of either kind.
pub type ListenerEvent<R, S, NS, A> = Backend<AcceptEvent<R, S, A>, NativeAcceptEvent<NS, A>>;

/// What a poll of a listener of either kind asks for.
pub type ListenerRequest<R, NS, A> = Backend<AcceptRequest<R, A>, NativeAcceptRequest<NS>>;

/// What the sequence of connections yields: the stream, and the address of
/// its peer where it has one.
pub type Connection<S, NS, A> = (UnixStream<S, NS>, Option<A>);

/// The end of the sequence of connections, as the result of a poll.
pub open spec fn end_of_connections<R, S, NS, A>() -> Step<
    ListenerRequest<R, NS, A>,
    Option<Connection<S, NS, A>>,
> {
    Step::Finish(Poll::Ready(None))
}

/// What a poll for the next connection does on `event` while the sequence
/// has not ended.
///
/// On the emulated socket it accepts as `accept_step` says, and the peer's
/// address is always there. The native poll hands out a stream alone: its
/// peer's address is asked for and is absent where that fails. A failure
/// of the native poll is not handed out: as on the emulated socket, it
/// ends the sequence.
pub open spec fn connection_step<R, S, NS, A>(event: ListenerEvent<R, S, NS, A>) -> Step<
    ListenerRequest<R, NS, A>,
    Option<Connection<S, NS, A>>,
> {
    match event {
        Backend::Emulated(e) => match accept_step(e) {
            Step::Perform(q) => Step::Perform(Backend::Emulated(q)),
            Step::Finish(Poll::Pending) => Step::Finish(Poll::Pending),
            Step::Finish(Poll::Ready(None)) => Step::Finish(Poll::Ready(None)),
            Step::Finish(Poll::Ready(Some((stream, addr)))) => Step::Finish(
                Poll::Ready(Some((UnixStream::spec_new(Backend::Emulated(stream)), Some(addr)))),
            ),
        },
        Backend::Native(NativeAcceptEvent::Polled) => Step::Perform(
            Backend::Native(NativeAcceptRequest::Accept),
        ),
        Backend::Native(NativeAcceptEvent::Accepted(Poll::Pending)) => Step::Finish(Poll::Pending),
        Backend::Native(NativeAcceptEvent::Accepted(Poll::Ready(Ok(stream)))) => Step::Perform(
            Backend::Native(NativeAcceptRequest::PeerAddr(stream)),
        ),
        Backend::Native(NativeAcceptEvent::Accepted(Poll::Ready(Err(_)))) => Step::Finish(
            Poll::Ready(None),
        ),
        Backend::Native(NativeAcceptEvent::PeerAddr(stream, addr)) => Step::Finish(
            Poll::Ready(
                Some(
                    (
                        UnixStream::spec_new(Backend::Native(stream)),
                        match addr {
                            Ok(a) => Some(a),
                            Err(_) => None,
                        },
                    ),
                ),
            ),
        ),
    }
}

/// What a poll for the next connection does on `event`, and whether the
/// sequence has ended after it.
pub open spec fn listener_step<R, S, NS, A>(ended: bool, event: ListenerEvent<R, S, NS, A>) -> (
    bool,
    Step<ListenerRequest<R, NS, A>, Option<Connection<S, NS, A>>>,
) {
    if ended {
        (true, end_of_connections())
    } else {
        let step = connection_step(event);
        (step == end_of_connections::<R, S, NS, A>(), step)
    }
}

/// What a native listener would answer to a poll.
pub struct NativeAcceptWorld<NS, A> {
    pub accepted: Poll<Result<NS, Cause>>,
    pub peer_addr: Result<A, Cause>,
}

impl<NS, A> NativeAcceptWorld<NS, A> {
    /// The answer of this world to each request.
    pub open spec fn reply(self) -> spec_fn(NativeAcceptRequest<NS>) -> NativeAcceptEvent<NS, A> {
        |q: NativeAcceptRequest<NS>|
            match q {
                NativeAcceptRequest::Accept => NativeAcceptEvent::Accepted(self.accepted),
                NativeAcceptRequest::PeerAddr(stream) => NativeAcceptEvent::PeerAddr(
                    stream,
                    self.peer_addr,
                ),
            }
    }
}

/// What the socket of a listener of either kind would answer to a poll.
pub type ListenerWorld<R, S, NS, A> = Backend<AcceptWorld<R, S, A>, NativeAcceptWorld<NS, A>>;

/// The events that open a poll of a listener, one for each kind of socket.
pub open spec fn listener_polled_events<R, S, NS, A>() -> (
    AcceptEvent<R, S, A>,
    NativeAcceptEvent<NS, A>,
) {
    (AcceptEvent::Std(AcceptStdEvent::Polled), NativeAcceptEvent::Polled)
}

/// The event that opens a poll of a listener of the kind of `world`.
pub open spec fn listener_polled<R, S, NS, A>(world: ListenerWorld<R, S, NS, A>) -> ListenerEvent<
    R,
    S,
    NS,
    A,
> {
    match world {
        Backend::Emulated(_) => Backend::Emulated(AcceptEvent::Std(AcceptStdEvent::Polled)),
        Backend::Native(_) => Backend::Native(NativeAcceptEvent::Polled),
    }
}

/// The answers of `world` to the requests of its kind.
pub open spec fn listener_reply<R, S, NS, A>(world: ListenerWorld<R, S, NS, A>) -> spec_fn(
    ListenerRequest<R, NS, A>,
) -> ListenerEvent<R, S, NS, A> {
    |q: ListenerRequest<R, NS, A>|
        match (world, q) {
            (Backend::Emulated(w), Backend::Emulated(q)) => Backend::Emulated((w.reply())(q)),
            (Backend::Native(w), Backend::Native(q)) => Backend::Native((w.reply())(q)),
            _ => listener_polled(world),
        }
}

/// The result, in `world`, of a poll for the next connection.
pub open spec fn listener_outcome<R, S, NS, A>(
    ended: bool,
    world: ListenerWorld<R, S, NS, A>,
) -> Poll<Option<Connection<S, NS, A>>> {
    if ended {
        Poll::Ready(None)
    } else {
        match world {
            Backend::Emulated(w) => match w.outcome() {
                Poll::Pending => Poll::Pending,
                Poll::Ready(None) => Poll::Ready(None),
                Poll::Ready(Some((stream, addr))) => Poll::Ready(
                    Some((UnixStream::spec_new(Backend::Emulated(stream)), Some(addr))),
                ),
            },
            Backend::Native(w) => match w.accepted {
                Poll::Pending => Poll::Pending,
                Poll::Ready(Err(_)) => Poll::Ready(None),
                Poll::Ready(Ok(stream)) => Poll::Ready(
                    Some(
                        (
                            UnixStream::spec_new(Backend::Native(stream)),
                            match w.peer_addr {
                                Ok(a) => Some(a),
                                Err(_) => None,
                            },
                        ),
                    ),
                ),
            },
        }
    }
}

/// The course of one poll for the next connection, of a listener of the
/// kind of `world`, in `world`.
pub open spec fn listener_course<R, S, NS, A>(
    ended: bool,
    world: ListenerWorld<R, S, NS, A>,
) -> Course<bool, ListenerRequest<R, NS, A>, Option<Connection<S, NS, A>>> {
    course(
        |ended: bool, e: ListenerEvent<R, S, NS, A>|
            listener_step(ended, own_event(world is Emulated, e, listener_polled_events())),
        listener_reply(world),
        ended,
        listener_polled(world),
        3,
    )
}

/// The results of polling for the next connection once in each of
/// `worlds`, in turn.
pub open spec fn listener_results<R, S, NS, A>(
    ended: bool,
    worlds: Seq<ListenerWorld<R, S, NS, A>>,
) -> Seq<Poll<Option<Connection<S, NS, A>>>>
    decreases worlds.len(),
{
    if worlds.len() == 0 {
        Seq::empty()
    } else {
        seq![listener_outcome(ended, worlds[0])] + listener_results(
            listener_course(ended, worlds[0]).state,
            worlds.drop_first(),
        )
    }
}

/// A poll for the next connection ends with `listener_outcome`, and the
/// sequence has ended after it if and only if the poll says so. A poll of
/// an ended sequence asks for nothing. A native listener is asked to
/// accept and then, where it did, for the peer's address.
pub proof fn lemma_listener_course<R, S, NS, A>(ended: bool, world: ListenerWorld<R, S, NS, A>)
    ensures
        ({
            let c = listener_course(ended, world);
            &&& c.result == Some(listener_outcome(ended, world))
            &&& c.state == (listener_outcome(ended, world) == Poll::<
                Option<Connection<S, NS, A>>,
            >::Ready(None))
            &&& c.requests.len() <= 3
            &&& ended ==> c.requests.len() == 0
            &&& !ended ==> match world {
                Backend::Emulated(w) => c.requests == accept_course(
                    w,
                ).requests.map_values(
                    |q: AcceptRequest<R, A>| Backend::<_, NativeAcceptRequest<NS>>::Emulated(q),
                ),
                Backend::Native(w) => match w.accepted {
                    Poll::Ready(Ok(stream)) => c.requests == seq![
                        Backend::<AcceptRequest<R, A>, _>::Native(NativeAcceptRequest::Accept),
                        Backend::Native(NativeAcceptRequest::PeerAddr(stream)),
                    ],
                    _ => c.requests == seq![
                        Backend::<AcceptRequest<R, A>, _>::Native(
                            NativeAcceptRequest::<NS>::Accept,
                        ),
                    ],
                },
            }
        }),
{
    reveal_with_fuel(course, 4);
    let c = listener_course(ended, world);
    if !ended {
        match world {
            Backend::Emulated(w) => {
                lemma_accept_course(w);
                let inner = accept_course(w).requests;
                assert(c.requests =~= inner.map_values(
                    |q: AcceptRequest<R, A>| Backend::<_, NativeAcceptRequest<NS>>::Emulated(q),
                ));
            },
            Backend::Native(w) => {
                match w.accepted {
                    Poll::Ready(Ok(stream)) => {
                        assert(c.requests =~= seq![
                            Backend::<AcceptRequest<R, A>, _>::Native(NativeAcceptRequest::Accept),
                            Backend::Native(NativeAcceptRequest::PeerAddr(stream)),
                        ]);
                    },
                    _ => {
                        assert(c.requests =~= seq![
                            Backend::<AcceptRequest<R, A>, _>::Native(
                                NativeAcceptRequest::<NS>::Accept,
                            ),
                        ]);
                    },
                }
            },
        }
    }
}

/// Both kinds of listener end the sequence where accepting fails: the
/// emulated one on a failure of the accept call other than "would block",
/// the native one on a failure of its poll. In neither case is the failure
/// handed out.
pub proof fn lemma_failure_ends_the_sequence<R, S, NS, A>(world: ListenerWorld<R, S, NS, A>)
    requires
        match world {
            Backend::Emulated(w) => !(w.std.readiness is Pending) && (w.std.accepted matches Err(
                cause,
            ) && !cause.would_block()),
            Backend::Native(w) => w.accepted matches Poll::Ready(Err(_)),
        },
    ensures
        listener_course(false, world).result == Some(
            Poll::<Option<Connection<S, NS, A>>>::Ready(None),
        ),
        listener_course(false, world).state,
{
    lemma_listener_course(false, world);
}

/// Once a poll for the next connection has said that the sequence has
/// ended, every later poll says so too, on either kind of socket and
/// whatever it would answer by then.
pub proof fn lemma_ended_stays_ended<R, S, NS, A>(
    ended: bool,
    worlds: Seq<ListenerWorld<R, S, NS, A>>,
    i: int,
    j: int,
)
    requires
        0 <= i <= j < worlds.len(),
        listener_results(ended, worlds)[i] == Poll::<Option<Connection<S, NS, A>>>::Ready(None),
    ensures
        listener_results(ended, worlds).len() == worlds.len(),
        listener_results(ended, worlds)[j] == Poll::<Option<Connection<S, NS, A>>>::Ready(None),
    decreases worlds.len(),
{
    lemma_listener_results_len(ended, worlds);
    lemma_listener_course(ended, worlds[0]);
    let next = listener_course(ended, worlds[0]).state;
    let rest = worlds.drop_first();
    lemma_listener_results_len(next, rest);
    if i == 0 {
        if j > 0 {
            lemma_ended_results(rest, j - 1);
        }
    } else {
        lemma_ended_stays_ended(next, rest, i - 1, j - 1);
    }
}

proof fn lemma_listener_results_len<R, S, NS, A>(
    ended: bool,
    worlds: Seq<ListenerWorld<R, S, NS, A>>,
)
    ensures
        listener_results(ended, worlds).len() == worlds.len(),
    decreases worlds.len(),
{
    if worlds.len() > 0 {
        lemma_listener_results_len(listener_course(ended, worlds[0]).state, worlds.drop_first());
    }
}

proof fn lemma_ended_results<R, S, NS, A>(worlds: Seq<ListenerWorld<R, S, NS, A>>, j: int)
    requires
        0 <= j < worlds.len(),
    ensures
        listener_results(true, worlds)[j] == Poll::<Option<Connection<S, NS, A>>>::Ready(None),
    decreases worlds.len(),
{
    lemma_listener_course(true, worlds[0]);
    lemma_listener_results_len(true, worlds.drop_first());
    if j > 0 {
        lemma_ended_results(worlds.drop_first(), j - 1);
    }
}

/// An event as a socket takes it. An event of the other kind of socket
/// says nothing to this one: it is taken for the beginning of a poll,
/// which is `polled` of the socket's own kind.
pub open spec fn own_event<E, N>(emulated: bool, event: Backend<E, N>, polled: (E, N)) -> Backend<
    E,
    N,
> {
    match event {
        Backend::Emulated(_) => if emulated {
            event
        } else {
            Backend::Native(polled.1)
        },
        Backend::Native(_) => if emulated {
            Backend::Emulated(polled.0)
        } else {
            event
        },
    }
}

fn take_event<E, N>(emulated: bool, event: Backend<E, N>, polled: (E, N)) -> (own: Backend<E, N>)
    ensures
        own == own_event(emulated, event, polled),
        own is Emulated <==> emulated,
{
    match event {
        Backend::Emulated(e) => {
            if emulated {
                Backend::Emulated(e)
            } else {
                Backend::Native(polled.1)
            }
        },
        Backend::Native(e) => {
            if emulated {
                Backend::Emulated(polled.0)
            } else {
                Backend::Native(e)
            }
        },
    }
}

/// The failure of a native call as a failure of the stream.
pub open spec fn native_result<T>(p: Poll<Result<T, Cause>>) -> Poll<Result<T, Error>> {
    match p {
        Poll::Pending => Poll::Pending,
        Poll::Ready(Ok(v)) => Poll::Ready(Ok(v)),
        Poll::Ready(Err(cause)) => Poll::Ready(Err(Error::Io(cause))),
    }
}

/// What a poll of a native stream does on `event`: it asks for the native
/// poll `request` and its result is the result of that poll, as it is.
pub open spec fn native_step<Q, T>(request: Q, event: NativeEvent<T>) -> Step<
    Q,
    Result<T, Error>,
> {
    match event {
        NativeEvent::Polled => Step::Perform(request),
        NativeEvent::Done(p) => Step::Finish(native_result(p)),
    }
}

/// A step of the emulated stream, as a step of the stream of either kind.
pub open spec fn emulated_step<T>(step: Step<Request, T>) -> Step<
    Backend<Request, NativeRequest>,
    T,
> {
    match step {
        Step::Perform(q) => Step::Perform(Backend::Emulated(q)),
        Step::Finish(p) => Step::Finish(p),
    }
}

fn forward_native<Q, T>(request: Q, event: NativeEvent<T>) -> (step: Step<Q, Result<T, Error>>)
    ensures
        step == native_step(request, event),
{
    match event {
        NativeEvent::Polled => Step::Perform(request),
        NativeEvent::Done(Poll::Pending) => Step::Finish(Poll::Pending),
        NativeEvent::Done(Poll::Ready(Ok(v))) => Step::Finish(Poll::Ready(Ok(v))),
        NativeEvent::Done(Poll::Ready(Err(cause))) => Step::Finish(
            Poll::Ready(Err(Error::Io(cause))),
        ),
    }
}

fn forward_emulated<T>(step: Step<Request, T>) -> (r: Step<Backend<Request, NativeRequest>, T>)
    ensures
        r == emulated_step(step),
{
    match step {
        Step::Perform(q) => Step::Perform(Backend::Emulated(q)),
        Step::Finish(p) => Step::Finish(p),
    }
}

impl<S, NS> UnixStream<S, NS> {
    /// The socket that the stream owns, by its kind.
    pub closed spec fn backend(&self) -> Backend<crate::stream::UnixStream<S>, NS> {
        self.inner
    }

    /// The stream that owns `inner`.
    pub closed spec fn spec_new(inner: Backend<crate::stream::UnixStream<S>, NS>) -> UnixStream<
        S,
        NS,
    > {
        UnixStream { inner }
    }

    /// A stream is the socket that it owns, and nothing else.
    pub proof fn lemma_owns_its_backend(self)
        ensures
            self == Self::spec_new(self.backend()),
            forall|inner: Backend<crate::stream::UnixStream<S>, NS>| #[trigger]
                Self::spec_new(inner).backend() == inner,
    {
    }

    /// Whether the socket is of the emulated kind.
    pub open spec fn emulated(&self) -> bool {
        self.backend() is Emulated
    }

    /// Whether the stream is of the emulated kind.
    #[verifier::when_used_as_spec(emulated)]
    pub fn is_emulated(&self) -> (b: bool)
        ensures
            b == self.emulated(),
    {
        match self.inner {
            Backend::Emulated(_) => true,
            Backend::Native(_) => false,
        }
    }

    /// The socket, for the calls that read or change nothing here.
    pub fn get_ref(&self) -> (inner: &Backend<crate::stream::UnixStream<S>, NS>)
        ensures
            *inner == self.backend(),
    {
        &self.inner
    }

    /// The socket, for the calls that need it whole.
    pub fn get_mut(&mut self) -> (inner: &mut Backend<crate::stream::UnixStream<S>, NS>)
        ensures
            *inner == old(self).backend(),
            final(self).backend() == *final(inner),
    {
        &mut self.inner
    }

    /// Makes a stream of the outcome of connecting: on the emulated socket
    /// what the connect operation resolved to, on the native one what the
    /// platform's connect returned.
    pub fn connect(
        outcome: Backend<Result<crate::stream::UnixStream<S>, Error>, Result<NS, Cause>>,
    ) -> (r: Result<UnixStream<S, NS>, Error>)
        ensures
            r == match outcome {
                Backend::Emulated(Ok(stream)) => Ok(Self::spec_new(Backend::Emulated(stream))),
                Backend::Emulated(Err(e)) => Err(e),
                Backend::Native(Ok(stream)) => Ok(Self::spec_new(Backend::Native(stream))),
                Backend::Native(Err(cause)) => Err(Error::Connect(cause)),
            },
    {
        match outcome {
            Backend::Emulated(Ok(stream)) => Ok(UnixStream { inner: Backend::Emulated(stream) }),
            Backend::Emulated(Err(e)) => Err(e),
            Backend::Native(Ok(stream)) => Ok(UnixStream { inner: Backend::Native(stream) }),
            Backend::Native(Err(cause)) => Err(Error::Connect(cause)),
        }
    }

    /// One step of a poll that reads into the caller's buffer. The stream
    /// holds no bytes of its own: the count is the socket's. The event is
    /// taken as `own_event` says.
    pub fn poll_read(&self, event: Backend<TransferEvent, NativeEvent<usize>>) -> (step: Step<
        Backend<Request, NativeRequest>,
        Result<usize, Error>,
    >)
        ensures
            step == match own_event(
                self.emulated(),
                event,
                (TransferEvent::Polled, NativeEvent::Polled),
            ) {
                Backend::Emulated(e) => emulated_step(
                    transfer_step(Direction::Read, e),
                ),
                Backend::Native(e) => native_step(Backend::Native(NativeRequest::Read), e),
            },
    {
        let polled = (TransferEvent::Polled, NativeEvent::Polled);
        match take_event(self.is_emulated(), event, polled) {
            Backend::Emulated(e) => match &self.inner {
                Backend::Emulated(stream) => forward_emulated(stream.poll_read(e)),
                Backend::Native(_) => vstd::pervasive::unreached(),
            },
            Backend::Native(e) => forward_native(Backend::Native(NativeRequest::Read), e),
        }
    }

    /// One step of a poll that writes from the caller's buffer. The stream
    /// holds no bytes of its own: the count is the socket's. The event is
    /// taken as `own_event` says.
    pub fn poll_write(&self, event: Backend<TransferEvent, NativeEvent<usize>>) -> (step: Step<
        Backend<Request, NativeRequest>,
        Result<usize, Error>,
    >)
        ensures
            step == match own_event(
                self.emulated(),
                event,
                (TransferEvent::Polled, NativeEvent::Polled),
            ) {
                Backend::Emulated(e) => emulated_step(
                    transfer_step(Direction::Write, e),
                ),
                Backend::Native(e) => native_step(Backend::Native(NativeRequest::Write), e),
            },
    {
        let polled = (TransferEvent::Polled, NativeEvent::Polled);
        match take_event(self.is_emulated(), event, polled) {
            Backend::Emulated(e) => match &self.inner {
                Backend::Emulated(stream) => forward_emulated(stream.poll_write(e)),
                Backend::Native(_) => vstd::pervasive::unreached(),
            },
            Backend::Native(e) => forward_native(Backend::Native(NativeRequest::Write), e),
        }
    }

    /// One step of a poll that flushes. The emulated stream has nothing to
    /// flush, whatever the event; the native one is asked.
    pub fn poll_flush(&self, event: NativeEvent<()>) -> (step: Step<
        NativeRequest,
        Result<(), Error>,
    >)
        ensures
            step == if self.emulated() {
                Step::Finish(Poll::Ready(Ok(())))
            } else {
                native_step(NativeRequest::Flush, event)
            },
    {
        match &self.inner {
            Backend::Emulated(stream) => Step::Finish(stream.poll_flush()),
            Backend::Native(_) => forward_native(NativeRequest::Flush, event),
        }
    }

    /// One step of a poll that closes the writing half of the connection.
    /// The event is taken as `own_event` says.
    pub fn poll_shutdown(&self, event: Backend<ShutdownEvent, NativeEvent<()>>) -> (step: Step<
        Backend<Request, NativeRequest>,
        Result<(), Error>,
    >)
        ensures
            step == match own_event(
                self.emulated(),
                event,
                (ShutdownEvent::Polled, NativeEvent::Polled),
            ) {
                Backend::Emulated(e) => emulated_step(
                    shutdown_step(Shutdown::Write, e),
                ),
                Backend::Native(e) => native_step(Backend::Native(NativeRequest::Shutdown), e),
            },
    {
        let polled = (ShutdownEvent::Polled, NativeEvent::Polled);
        match take_event(self.is_emulated(), event, polled) {
            Backend::Emulated(e) => match &self.inner {
                Backend::Emulated(stream) => forward_emulated(stream.poll_shutdown(e)),
                Backend::Native(_) => vstd::pervasive::unreached(),
            },
            Backend::Native(e) => forward_native(Backend::Native(NativeRequest::Shutdown), e),
        }
    }
}

impl<L, NL> UnixListener<L, NL> {
    /// The socket that the listener owns, by its kind.
    pub closed spec fn backend(&self) -> Backend<crate::listener::UnixListener<L>, NL> {
        self.inner
    }

    /// Whether the sequence of connections has ended.
    pub closed spec fn ended(&self) -> bool {
        self.ended
    }

    /// A listener is the socket that it owns and whether its sequence has
    /// ended, and nothing else.
    pub proof fn lemma_owns_its_backend(self, other: Self)
        requires
            self.backend() == other.backend(),
            self.ended() == other.ended(),
        ensures
            self == other,
    {
    }

    /// Whether the socket is of the emulated kind.
    pub open spec fn emulated(&self) -> bool {
        self.backend() is Emulated
    }

    /// Whether the listener is of the emulated kind.
    #[verifier::when_used_as_spec(emulated)]
    pub fn is_emulated(&self) -> (b: bool)
        ensures
            b == self.emulated(),
    {
        match self.inner {
            Backend::Emulated(_) => true,
            Backend::Native(_) => false,
        }
    }

    /// Whether the sequence of connections has ended.
    #[verifier::when_used_as_spec(ended)]
    pub fn is_ended(&self) -> (b: bool)
        ensures
            b == self.ended(),
    {
        self.ended
    }

    /// The socket, for the calls that read or change nothing here.
    pub fn get_ref(&self) -> (inner: &Backend<crate::listener::UnixListener<L>, NL>)
        ensures
            *inner == self.backend(),
    {
        &self.inner
    }

    /// The socket, for the calls that need it whole.
    pub fn get_mut(&mut self) -> (inner: &mut Backend<crate::listener::UnixListener<L>, NL>)
        ensures
            *inner == old(self).backend(),
            final(self).backend() == *final(inner),
            final(self).ended() == old(self).ended(),
    {
        &mut self.inner
    }

    /// Makes a listener of the outcome of binding a socket to a path: on
    /// the emulated socket what `listener::UnixListener::bind` returned, on
    /// the native one what the platform's bind returned.
    pub fn bind(
        outcome: Backend<Result<crate::listener::UnixListener<L>, Error>, Result<NL, Cause>>,
    ) -> (r: Result<UnixListener<L, NL>, Error>)
        ensures
            match outcome {
                Backend::Emulated(Ok(listener)) => r matches Ok(l) && l.backend()
                    == Backend::<crate::listener::UnixListener<L>, NL>::Emulated(listener)
                    && !l.ended(),
                Backend::Emulated(Err(e)) => r matches Err(f) && f == e,
                Backend::Native(Ok(listener)) => r matches Ok(l) && l.backend()
                    == Backend::<crate::listener::UnixListener<L>, NL>::Native(listener)
                    && !l.ended(),
                Backend::Native(Err(cause)) => r matches Err(f) && f == Error::Bind(cause),
            },
    {
        match outcome {
            Backend::Emulated(Ok(listener)) => Ok(
                UnixListener { inner: Backend::Emulated(listener), ended: false },
            ),
            Backend::Emulated(Err(e)) => Err(e),
            Backend::Native(Ok(listener)) => Ok(
                UnixListener { inner: Backend::Native(listener), ended: false },
            ),
            Backend::Native(Err(cause)) => Err(Error::Bind(cause)),
        }
    }

    /// Gives the listener up for its socket: for the sequence of the
    /// connections that the emulated listener accepts, ended if this one
    /// has ended; or for the native listener, which has a sequence of its
    /// own.
    pub fn incoming(self) -> (r: Backend<Incoming<L>, NL>)
        ensures
            match self.backend() {
                Backend::Emulated(listener) => r matches Backend::Emulated(incoming)
                    && incoming.listener() == listener && incoming.ended() == self.ended(),
                Backend::Native(listener) => r == Backend::<Incoming<L>, NL>::Native(listener),
            },
    {
        match self.inner {
            Backend::Emulated(listener) => {
                let mut incoming = Incoming::new(listener);
                if self.ended {
                    incoming.end();
                }
                Backend::Emulated(incoming)
            },
            Backend::Native(listener) => Backend::Native(listener),
        }
    }

    /// One step of a poll for the next connection. The event is taken as
    /// `own_event` says.
    pub fn poll_next<R, S, NS, A>(&mut self, event: ListenerEvent<R, S, NS, A>) -> (step: Step<
        ListenerRequest<R, NS, A>,
        Option<Connection<S, NS, A>>,
    >)
        ensures
            (final(self).ended(), step) == listener_step(
                old(self).ended(),
                own_event(old(self).emulated(), event, listener_polled_events()),
            ),
            final(self).backend() == old(self).backend(),
    {
        if self.ended {
            return Step::Finish(Poll::Ready(None));
        }
        let polled = (AcceptEvent::Std(AcceptStdEvent::Polled), NativeAcceptEvent::Polled);
        let step = match take_event(self.is_emulated(), event, polled) {
            Backend::Emulated(e) => match &self.inner {
                Backend::Emulated(listener) => match listener.poll_accept(e) {
                    Step::Perform(q) => Step::Perform(Backend::Emulated(q)),
                    Step::Finish(Poll::Pending) => Step::Finish(Poll::Pending),
                    Step::Finish(Poll::Ready(None)) => Step::Finish(Poll::Ready(None)),
                    Step::Finish(Poll::Ready(Some((stream, addr)))) => Step::Finish(
                        Poll::Ready(
                            Some((UnixStream { inner: Backend::Emulated(stream) }, Some(addr))),
                        ),
                    ),
                },
                Backend::Native(_) => vstd::pervasive::unreached(),
            },
            Backend::Native(NativeAcceptEvent::Polled) => Step::Perform(
                Backend::Native(NativeAcceptRequest::Accept),
            ),
            Backend::Native(NativeAcceptEvent::Accepted(Poll::Pending)) => Step::Finish(
                Poll::Pending,
            ),
            Backend::Native(NativeAcceptEvent::Accepted(Poll::Ready(Ok(stream)))) => Step::Perform(
                Backend::Native(NativeAcceptRequest::PeerAddr(stream)),
            ),
            Backend::Native(NativeAcceptEvent::Accepted(Poll::Ready(Err(_)))) => Step::Finish(
                Poll::Ready(None),
            ),
            Backend::Native(NativeAcceptEvent::PeerAddr(stream, addr)) => Step::Finish(
                Poll::Ready(Some((UnixStream { inner: Backend::Native(stream) }, addr.ok()))),
            ),
        };
        match &step {
            Step::Finish(Poll::Ready(None)) => {
                self.ended = true;
            },
            _ => {},
        }
        step
    }
}

} // verus!
