//! The connections that a listener accepts, as a sequence.

use crate::listener::{
    accept_course, accept_step, lemma_accept_course, AcceptEvent, AcceptRequest, AcceptStdEvent,
    AcceptWorld, UnixListener,
};
use crate::poll::{course, Course, Poll, Step};
use crate::stream::UnixStream;
use vstd::prelude::*;

verus! {

/// The sequence of the connections that a listener accepts: one for each
/// poll that finds one, until accepting ends it. An ended sequence stays
/// ended.
#[derive(Debug, PartialEq, Eq)]
pub struct Incoming<L> {
    inner: UnixListener<L>,
    ended: bool,
}

/// What a poll of the sequence does on `event`, and whether the sequence
/// has ended after it.
pub open spec fn incoming_step<R, S, A>(ended: bool, event: AcceptEvent<R, S, A>) -> (
    bool,
    Step<AcceptRequest<R, A>, Option<(UnixStream<S>, A)>>,
) {
    if ended {
        (true, Step::Finish(Poll::Ready(None)))
    } else {
        let step = accept_step(event);
        let end = Step::<AcceptRequest<R, A>, Option<(UnixStream<S>, A)>>::Finish(
            Poll::Ready(None),
        );
        (step == end, step)
    }
}

/// The course of one poll of the sequence in `world`.
pub open spec fn incoming_course<R, S, A>(ended: bool, world: AcceptWorld<R, S, A>) -> Course<
    bool,
    AcceptRequest<R, A>,
    Option<(UnixStream<S>, A)>,
> {
    course(
        |ended: bool, e: AcceptEvent<R, S, A>| incoming_step(ended, e),
        world.reply(),
        ended,
        AcceptEvent::Std(AcceptStdEvent::Polled),
        3,
    )
}

/// The result of one poll of the sequence in `world`.
pub open spec fn incoming_outcome<R, S, A>(ended: bool, world: AcceptWorld<R, S, A>) -> Poll<
    Option<(UnixStream<S>, A)>,
> {
    if ended {
        Poll::Ready(None)
    } else {
        world.outcome()
    }
}

/// The results of polling the sequence once in each of `worlds`, in turn.
pub open spec fn incoming_results<R, S, A>(ended: bool, worlds: Seq<AcceptWorld<R, S, A>>) -> Seq<
    Poll<Option<(UnixStream<S>, A)>>,
>
    decreases worlds.len(),
{
    if worlds.len() == 0 {
        Seq::empty()
    } else {
        seq![incoming_outcome(ended, worlds[0])] + incoming_results(
            incoming_course(ended, worlds[0]).state,
            worlds.drop_first(),
        )
    }
}

/// A poll of the sequence that has not ended is a poll that accepts a
/// connection and makes a stream of it; the sequence has ended after it if
/// and only if the poll says so. A poll of an ended sequence asks for
/// nothing and says that the sequence has ended.
pub proof fn lemma_incoming_course<R, S, A>(ended: bool, world: AcceptWorld<R, S, A>)
    ensures
        ({
            let c = incoming_course(ended, world);
            &&& c.result == Some(incoming_outcome(ended, world))
            &&& c.state == (incoming_outcome(ended, world) == Poll::<
                Option<(UnixStream<S>, A)>,
            >::Ready(None))
            &&& ended ==> c.requests.len() == 0
            &&& !ended ==> c.requests == accept_course(world).requests
        }),
{
    reveal_with_fuel(course, 4);
    lemma_accept_course(world);
    let c = incoming_course(ended, world);
    if !ended {
        assert(c.requests =~= accept_course(world).requests);
    }
}

/// Once a poll of the sequence has said that the sequence has ended, every
/// later poll says so too, whatever the socket and the reactor would
/// answer by then.
pub proof fn lemma_ended_stays_ended<R, S, A>(
    ended: bool,
    worlds: Seq<AcceptWorld<R, S, A>>,
    i: int,
    j: int,
)
    requires
        0 <= i <= j < worlds.len(),
        incoming_results(ended, worlds)[i] == Poll::<Option<(UnixStream<S>, A)>>::Ready(None),
    ensures
        incoming_results(ended, worlds).len() == worlds.len(),
        incoming_results(ended, worlds)[j] == Poll::<Option<(UnixStream<S>, A)>>::Ready(None),
    decreases worlds.len(),
{
    lemma_incoming_results_len(ended, worlds);
    lemma_incoming_course(ended, worlds[0]);
    let next = incoming_course(ended, worlds[0]).state;
    let rest = worlds.drop_first();
    lemma_incoming_results_len(next, rest);
    if i == 0 {
        if j > 0 {
            lemma_ended_results(rest, j - 1);
        }
    } else {
        lemma_ended_stays_ended(next, rest, i - 1, j - 1);
    }
}

proof fn lemma_incoming_results_len<R, S, A>(ended: bool, worlds: Seq<AcceptWorld<R, S, A>>)
    ensures
        incoming_results(ended, worlds).len() == worlds.len(),
    decreases worlds.len(),
{
    if worlds.len() > 0 {
        lemma_incoming_results_len(incoming_course(ended, worlds[0]).state, worlds.drop_first());
    }
}

proof fn lemma_ended_results<R, S, A>(worlds: Seq<AcceptWorld<R, S, A>>, j: int)
    requires
        0 <= j < worlds.len(),
    ensures
        incoming_results(true, worlds)[j] == Poll::<Option<(UnixStream<S>, A)>>::Ready(None),
    decreases worlds.len(),
{
    lemma_incoming_course(true, worlds[0]);
    lemma_incoming_results_len(true, worlds.drop_first());
    if j > 0 {
        lemma_ended_results(worlds.drop_first(), j - 1);
    }
}

impl<L> Incoming<L> {
    /// The listener whose connections these are.
    pub closed spec fn listener(&self) -> UnixListener<L> {
        self.inner
    }

    /// Whether the sequence has ended.
    pub closed spec fn ended(&self) -> bool {
        self.ended
    }

    /// A sequence is the listener that it owns and whether it has ended,
    /// and nothing else.
    pub proof fn lemma_owns_its_listener(self, other: Self)
        requires
            self.listener() == other.listener(),
            self.ended() == other.ended(),
        ensures
            self == other,
    {
    }

    /// The sequence of the connections that `listener` accepts from now on.
    pub fn new(listener: UnixListener<L>) -> (incoming: Incoming<L>)
        ensures
            incoming.listener() == listener,
            !incoming.ended(),
    {
        Incoming { inner: listener, ended: false }
    }

    /// Ends the sequence.
    pub fn end(&mut self)
        ensures
            final(self).ended(),
            final(self).listener() == old(self).listener(),
    {
        self.ended = true;
    }

    /// The listener, for the calls that read or change nothing here.
    pub fn get_ref(&self) -> (listener: &UnixListener<L>)
        ensures
            *listener == self.listener(),
    {
        &self.inner
    }

    /// Whether the sequence has ended.
    #[verifier::when_used_as_spec(ended)]
    pub fn is_ended(&self) -> (b: bool)
        ensures
            b == self.ended(),
    {
        self.ended
    }

    /// One step of a poll for the next connection.
    pub fn poll_next<R, S, A>(&mut self, event: AcceptEvent<R, S, A>) -> (step: Step<
        AcceptRequest<R, A>,
        Option<(UnixStream<S>, A)>,
    >)
        ensures
            (final(self).ended(), step) == incoming_step(old(self).ended(), event),
            final(self).listener() == old(self).listener(),
    {
        if self.ended {
            return Step::Finish(Poll::Ready(None));
        }
        let step = self.inner.poll_accept(event);
        match &step {
            Step::Finish(Poll::Ready(None)) => {
                self.ended = true;
            },
            _ => {},
        }
        step
    }
}

} // verus!
