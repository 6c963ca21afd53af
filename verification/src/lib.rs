//! A readiness-driven adapter for local byte-stream sockets.
//!
//! A listener accepts connections and a stream reads and writes on one, on
//! sockets that never block: an operation that cannot go on suspends, and
//! the reactor wakes its task when the socket is ready again.
//!
//! The crate holds the decisions of the adapter and none of its I/O. Every
//! operation that may suspend is a step function. A poll begins with the
//! event `Polled`; the step function answers with a request, something to
//! ask of the socket or of the reactor, and is then handed what they said,
//! as the next event; and so on, until it answers with the result of the
//! poll. Whoever drives a poll carries out each request as it comes and
//! makes no decision of its own.
//!
//! What a step decides is stated with each step function. What follows for
//! a poll as a whole is stated over its course, the requests that it makes
//! in a world that answers them in a given way: a poll makes one system
//! call at most, it suspends on the word of the reactor only, "would block"
//! is never a failure, a connect operation hands out one result, and a
//! sequence of connections that has ended stays ended.
//!
//! `listener` and `stream` drive a socket through the reactor by hand;
//! `merge` puts them and the sockets that a platform supplies behind one
//! listener and one stream.

pub mod error;
pub mod incoming;
pub mod listener;
pub mod merge;
pub mod poll;
pub mod stream;

pub use merge::{UnixListener, UnixStream};
