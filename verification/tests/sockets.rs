//! The decisions of the crate, carried out on sockets of the machine that
//! runs the tests.

use std::future::Future;
use std::io;
use std::io::{Read, Write};
use std::path::Path;
use std::pin::Pin;
use std::task::{Context, Poll as TaskPoll};

use futures::future::{join, join_all, poll_fn};
use mio::Ready;
use tokio::io::{AsyncRead, AsyncWrite, PollEvented};

use tokio_agnostic_uds::error::{Cause, Error, ErrorKind};
use tokio_agnostic_uds::incoming::Incoming;
use tokio_agnostic_uds::listener::{AcceptEvent, AcceptRequest, AcceptStdEvent};
use tokio_agnostic_uds::merge::{
    Backend, NativeAcceptEvent, NativeAcceptRequest, NativeEvent, NativeRequest,
};
use tokio_agnostic_uds::poll::{Direction, Poll, Request, Step};
use tokio_agnostic_uds::stream::{ConnectEvent, ConnectFuture, TransferEvent};

type ListenerIo = PollEvented<mio_uds::UnixListener>;
type StreamIo = PollEvented<mio_uds::UnixStream>;
type Listener = tokio_agnostic_uds::listener::UnixListener<ListenerIo>;
type Stream = tokio_agnostic_uds::stream::UnixStream<StreamIo>;
type NativeListener = tokio_agnostic_uds::UnixListener<ListenerIo, tokio::net::UnixListener>;
type NativeStream = tokio_agnostic_uds::UnixStream<StreamIo, tokio::net::UnixStream>;

fn kind(kind: io::ErrorKind) -> ErrorKind {
    match kind {
        io::ErrorKind::NotFound => ErrorKind::NotFound,
        io::ErrorKind::PermissionDenied => ErrorKind::PermissionDenied,
        io::ErrorKind::ConnectionRefused => ErrorKind::ConnectionRefused,
        io::ErrorKind::ConnectionReset => ErrorKind::ConnectionReset,
        io::ErrorKind::ConnectionAborted => ErrorKind::ConnectionAborted,
        io::ErrorKind::NotConnected => ErrorKind::NotConnected,
        io::ErrorKind::AddrInUse => ErrorKind::AddrInUse,
        io::ErrorKind::AddrNotAvailable => ErrorKind::AddrNotAvailable,
        io::ErrorKind::BrokenPipe => ErrorKind::BrokenPipe,
        io::ErrorKind::AlreadyExists => ErrorKind::AlreadyExists,
        io::ErrorKind::WouldBlock => ErrorKind::WouldBlock,
        io::ErrorKind::InvalidInput => ErrorKind::InvalidInput,
        io::ErrorKind::InvalidData => ErrorKind::InvalidData,
        io::ErrorKind::TimedOut => ErrorKind::TimedOut,
        io::ErrorKind::WriteZero => ErrorKind::WriteZero,
        io::ErrorKind::Interrupted => ErrorKind::Interrupted,
        io::ErrorKind::UnexpectedEof => ErrorKind::UnexpectedEof,
        _ => ErrorKind::Other,
    }
}

fn outcome<T>(r: io::Result<T>) -> Result<T, Cause> {
    r.map_err(|e| Cause { kind: kind(e.kind()), code: e.raw_os_error() })
}

fn readiness(p: TaskPoll<io::Result<Ready>>) -> Poll<Result<(), Cause>> {
    match p {
        TaskPoll::Pending => Poll::Pending,
        TaskPoll::Ready(r) => Poll::Ready(outcome(r).map(|_| ())),
    }
}

fn native<T>(p: TaskPoll<io::Result<T>>) -> Poll<Result<T, Cause>> {
    match p {
        TaskPoll::Pending => Poll::Pending,
        TaskPoll::Ready(r) => Poll::Ready(outcome(r)),
    }
}

fn task<T>(p: Poll<T>) -> TaskPoll<T> {
    match p {
        Poll::Pending => TaskPoll::Pending,
        Poll::Ready(v) => TaskPoll::Ready(v),
    }
}

fn poll_ready(io: &StreamIo, cx: &mut Context<'_>, d: Direction) -> Poll<Result<(), Cause>> {
    readiness(match d {
        Direction::Read => io.poll_read_ready(cx, Ready::readable()),
        Direction::Write => io.poll_write_ready(cx),
    })
}

fn clear_ready(io: &StreamIo, cx: &mut Context<'_>, d: Direction) -> Result<(), Cause> {
    outcome(match d {
        Direction::Read => io.clear_read_ready(cx, Ready::readable()),
        Direction::Write => io.clear_write_ready(cx),
    })
}

/// Carries out the requests of one poll that reads, and counts them.
fn poll_read(
    stream: &Stream,
    cx: &mut Context<'_>,
    buf: &mut [u8],
    asked: &mut Vec<Request>,
) -> TaskPoll<Result<usize, Error>> {
    let io = stream.get_ref();
    let mut event = TransferEvent::Polled;
    loop {
        event = match stream.poll_read(event) {
            Step::Finish(result) => return task(result),
            Step::Perform(request) => {
                asked.push(request);
                match request {
                    Request::PollReady(d) => TransferEvent::Readiness(poll_ready(io, cx, d)),
                    Request::ClearReady(d) => TransferEvent::Cleared(clear_ready(io, cx, d)),
                    Request::Read => {
                        let mut socket = io.get_ref();
                        TransferEvent::Transferred(outcome(socket.read(buf)))
                    }
                    other => panic!("a read asked for {:?}", other),
                }
            }
        };
    }
}

/// Carries out the requests of one poll that writes, and counts them.
fn poll_write(
    stream: &Stream,
    cx: &mut Context<'_>,
    buf: &[u8],
    asked: &mut Vec<Request>,
) -> TaskPoll<Result<usize, Error>> {
    let io = stream.get_ref();
    let mut event = TransferEvent::Polled;
    loop {
        event = match stream.poll_write(event) {
            Step::Finish(result) => return task(result),
            Step::Perform(request) => {
                asked.push(request);
                match request {
                    Request::PollReady(d) => TransferEvent::Readiness(poll_ready(io, cx, d)),
                    Request::ClearReady(d) => TransferEvent::Cleared(clear_ready(io, cx, d)),
                    Request::Write => {
                        let mut socket = io.get_ref();
                        TransferEvent::Transferred(outcome(socket.write(buf)))
                    }
                    other => panic!("a write asked for {:?}", other),
                }
            }
        };
    }
}

/// Carries out the requests of one poll of a connect operation.
fn poll_connect(
    op: &mut ConnectFuture<StreamIo>,
    cx: &mut Context<'_>,
) -> TaskPoll<Result<Stream, Error>> {
    let mut event = ConnectEvent::Polled;
    loop {
        assert!(!op.is_resolved());
        let request = match op.poll(event) {
            Step::Finish(result) => return task(result),
            Step::Perform(request) => request,
        };
        let io = op.get_ref().expect("only a waiting operation asks for anything").get_ref();
        event = match request {
            Request::PollReady(d) => ConnectEvent::Readiness(poll_ready(io, cx, d)),
            Request::TakeError => ConnectEvent::PendingError(match io.get_ref().take_error() {
                Ok(None) => Ok(None),
                Ok(Some(pending)) => match outcome::<()>(Err(pending)) {
                    Err(cause) => Ok(Some(cause)),
                    Ok(()) => Ok(None),
                },
                Err(e) => outcome(Err(e)),
            }),
            other => panic!("a connect operation asked for {:?}", other),
        };
    }
}

fn answer_accept(
    io: &ListenerIo,
    cx: &mut Context<'_>,
    request: AcceptRequest<mio_uds::UnixStream, String>,
) -> AcceptEvent<mio_uds::UnixStream, StreamIo, String> {
    match request {
        AcceptRequest::Io(Request::PollReady(_)) => AcceptEvent::Std(AcceptStdEvent::Readiness(
            readiness(io.poll_read_ready(cx, Ready::readable())),
        )),
        AcceptRequest::Io(Request::ClearReady(_)) => AcceptEvent::Std(AcceptStdEvent::Cleared(
            outcome(io.clear_read_ready(cx, Ready::readable())),
        )),
        AcceptRequest::Io(Request::Accept) => AcceptEvent::Std(AcceptStdEvent::Accepted(
            outcome(io.get_ref().accept())
                .map(|found| found.map(|(socket, addr)| (socket, format!("{:?}", addr)))),
        )),
        AcceptRequest::Io(other) => panic!("a listener was asked for {:?}", other),
        AcceptRequest::Adopt(raw, addr) => AcceptEvent::Adopted(outcome(PollEvented::new(raw)), addr),
    }
}

/// Carries out the requests of one poll for the next connection.
fn poll_next(
    incoming: &mut Incoming<ListenerIo>,
    cx: &mut Context<'_>,
) -> TaskPoll<Option<(Stream, String)>> {
    let mut event = AcceptEvent::Std(AcceptStdEvent::Polled);
    loop {
        event = match incoming.poll_next(event) {
            Step::Finish(result) => return task(result),
            Step::Perform(request) => answer_accept(incoming.get_ref().get_ref(), cx, request),
        };
    }
}

fn bind(path: &Path) -> Result<Listener, Error> {
    Listener::bind(outcome(mio_uds::UnixListener::bind(path).and_then(PollEvented::new)))
}

fn connect(path: &Path) -> ConnectFuture<StreamIo> {
    Stream::connect(outcome(mio_uds::UnixStream::connect(path).and_then(PollEvented::new)))
}

async fn connected(path: &Path) -> Result<Stream, Error> {
    let mut op = connect(path);
    poll_fn(|cx| poll_connect(&mut op, cx)).await
}

async fn accepted(incoming: &mut Incoming<ListenerIo>) -> Option<(Stream, String)> {
    poll_fn(|cx| poll_next(incoming, cx)).await
}

async fn write_all(stream: &Stream, mut bytes: &[u8]) -> Result<(), Error> {
    while !bytes.is_empty() {
        let mut asked = Vec::new();
        let n = poll_fn(|cx| poll_write(stream, cx, bytes, &mut asked)).await?;
        assert!(n <= bytes.len());
        bytes = &bytes[n..];
    }
    Ok(())
}

/// Reads until `wanted` bytes have come or the stream has ended.
async fn read_up_to(stream: &Stream, wanted: usize) -> Result<Vec<u8>, Error> {
    let mut got = Vec::new();
    while got.len() < wanted {
        let mut buf = vec![0u8; wanted - got.len()];
        let mut asked = Vec::new();
        let n = poll_fn(|cx| poll_read(stream, cx, &mut buf, &mut asked)).await?;
        if n == 0 {
            break;
        }
        got.extend_from_slice(&buf[..n]);
    }
    Ok(got)
}

fn runtime() -> tokio::runtime::Runtime {
    tokio::runtime::Builder::new().basic_scheduler().enable_io().build().unwrap()
}

fn directory() -> tempfile::TempDir {
    tempfile::Builder::new().prefix("tokio-uds-tests").tempdir().unwrap()
}

/// Runs `test` on the runtime, and not for ever.
fn run<F: Future<Output = ()>>(test: F) {
    runtime().block_on(test)
}

#[test]
fn echo() {
    let dir = directory();
    let path = dir.path().join("connect.sock");
    run(async {
        let mut incoming = bind(&path).unwrap().incoming();
        let connecting = tokio::net::UnixStream::connect(&path);
        let (connected, accepted) = join(connecting, accepted(&mut incoming)).await;
        let mut client = NativeStream::connect(Backend::Native(outcome(connected))).unwrap();
        let (server, _addr) = accepted.unwrap();

        let n = poll_fn(|cx| write_of_either(&mut client, cx, &[0x01, 0x02, 0x03])).await;
        assert_eq!(n, Ok(3));
        assert_eq!(read_up_to(&server, 3).await.unwrap(), vec![0x01, 0x02, 0x03]);

        write_all(&server, b"Hello from server!").await.unwrap();
        let mut buf = [0u8; 32];
        let n = poll_fn(|cx| read_of_either(&mut client, cx, &mut buf)).await.unwrap();
        assert_eq!(&buf[..n], &b"Hello from server!"[..]);

        // The client closes its writing half: the server reads the end of
        // the stream, which is no failure.
        assert_eq!(poll_fn(|cx| shutdown_of_either(&mut client, cx)).await, Ok(()));
        let mut buf = [0u8; 8];
        let mut asked = Vec::new();
        let n = poll_fn(|cx| poll_read(&server, cx, &mut buf, &mut asked)).await;
        assert_eq!(n, Ok(0));
        assert!(!incoming.is_ended());
    });
}

#[test]
fn bytes_arrive_in_order_and_none_is_lost() {
    let dir = directory();
    let path = dir.path().join("order.sock");
    let sent: Vec<u8> = (0..200_000u32).map(|i| (i % 251) as u8).collect();
    run(async {
        let mut incoming = bind(&path).unwrap().incoming();
        let client = connected(&path).await.unwrap();
        let (server, _) = accepted(&mut incoming).await.unwrap();
        let writing = async {
            write_all(&client, &sent).await.unwrap();
            drop(client);
        };
        // One byte more is asked for than was sent: the end of the stream
        // is found where the bytes end.
        let reading = read_up_to(&server, sent.len() + 1);
        let ((), received) = join(writing, reading).await;
        assert_eq!(received.unwrap(), sent);
    });
}

#[test]
fn connecting_where_nobody_listens_is_refused() {
    let dir = directory();
    let path = dir.path().join("stale.sock");
    run(async {
        // A listener leaves its path behind; nobody listens there any more.
        drop(bind(&path).unwrap());
        assert!(path.exists());
        match connected(&path).await {
            Err(Error::Connect(cause)) => assert_eq!(cause.kind, ErrorKind::ConnectionRefused),
            other => panic!("the operation came to {:?}", other),
        }
    });
}

#[test]
fn connecting_to_no_socket_at_all_fails_at_the_first_poll() {
    let dir = directory();
    let path = dir.path().join("missing.sock");
    run(async {
        let mut op = connect(&path);
        assert!(!op.is_resolved());
        assert!(op.get_ref().is_none());
        let waker = futures::task::noop_waker();
        let mut cx = Context::from_waker(&waker);
        match poll_connect(&mut op, &mut cx) {
            TaskPoll::Ready(Err(Error::Connect(cause))) => {
                assert_eq!(cause.kind, ErrorKind::NotFound)
            }
            other => panic!("the operation came to {:?}", other),
        }
        assert!(op.is_resolved());
    });
}

#[test]
fn binding_a_path_that_is_in_use_fails_and_leaves_it_alone() {
    let dir = directory();
    let path = dir.path().join("taken.sock");
    run(async {
        let first = bind(&path).unwrap();
        match bind(&path) {
            Err(Error::Bind(cause)) => assert_eq!(cause.kind, ErrorKind::AddrInUse),
            other => panic!("the second bind came to {:?}", other),
        }
        assert!(path.exists());
        // The first listener still accepts.
        let mut incoming = first.incoming();
        let _client = connected(&path).await.unwrap();
        assert!(accepted(&mut incoming).await.is_some());
    });
}

#[test]
fn a_connect_after_a_bind_resolves_to_a_stream() {
    let dir = directory();
    let path = dir.path().join("resolve.sock");
    run(async {
        let mut incoming = bind(&path).unwrap().incoming();
        let mut op = connect(&path);
        let both = join(poll_fn(|cx| poll_connect(&mut op, cx)), accepted(&mut incoming));
        let (client, server) = both.await;
        assert!(client.is_ok());
        assert!(server.is_some());
        assert!(op.is_resolved());
    });
}

#[test]
fn a_read_with_nothing_to_read_clears_the_readiness_and_suspends() {
    let dir = directory();
    let path = dir.path().join("idle.sock");
    run(async {
        let mut incoming = bind(&path).unwrap().incoming();
        let client = connected(&path).await.unwrap();
        let (server, _) = accepted(&mut incoming).await.unwrap();

        write_all(&client, &[9]).await.unwrap();
        assert_eq!(read_up_to(&server, 1).await.unwrap(), vec![9]);

        // The reactor still has the socket down as readable. The read finds
        // nothing, and every poll makes one system call at most.
        let waker = futures::task::noop_waker();
        let mut cx = Context::from_waker(&waker);
        let mut buf = [0u8; 4];
        let mut asked = Vec::new();
        let first = poll_read(&server, &mut cx, &mut buf, &mut asked);
        assert_eq!(first, TaskPoll::Pending);
        assert_eq!(
            asked,
            vec![
                Request::PollReady(Direction::Read),
                Request::Read,
                Request::ClearReady(Direction::Read)
            ]
        );
        // With the readiness cleared, the next poll does not even try.
        let mut asked = Vec::new();
        let second = poll_read(&server, &mut cx, &mut buf, &mut asked);
        assert_eq!(second, TaskPoll::Pending);
        assert_eq!(asked, vec![Request::PollReady(Direction::Read)]);
        // Writing is none the worse for it.
        write_all(&server, &[7]).await.unwrap();
        assert_eq!(read_up_to(&client, 1).await.unwrap(), vec![7]);
    });
}

#[test]
fn many_writers_arrive_intact() {
    const WRITERS: usize = 16;
    const LENGTH: usize = 20_000;
    let dir = directory();
    let path = dir.path().join("many.sock");
    run(async {
        let mut incoming = bind(&path).unwrap().incoming();
        let mut clients = Vec::new();
        let mut servers = Vec::new();
        for _ in 0..WRITERS {
            clients.push(connected(&path).await.unwrap());
            servers.push(accepted(&mut incoming).await.unwrap().0);
        }
        // Every client sends its own number over and over, and gets the
        // number of its server back; all of them at once.
        let writers = clients.iter().enumerate().map(|(i, client)| async move {
            let payload = vec![i as u8; LENGTH];
            let back = join(write_all(client, &payload), read_up_to(client, LENGTH)).await;
            back.0.unwrap();
            back.1.unwrap()
        });
        let readers = servers.iter().enumerate().map(|(i, server)| async move {
            let payload = vec![0x80 | i as u8; LENGTH];
            let got = join(write_all(server, &payload), read_up_to(server, LENGTH)).await;
            got.0.unwrap();
            got.1.unwrap()
        });
        let (at_clients, at_servers) = join(join_all(writers), join_all(readers)).await;
        for i in 0..WRITERS {
            assert_eq!(at_servers[i], vec![i as u8; LENGTH]);
            assert_eq!(at_clients[i], vec![0x80 | i as u8; LENGTH]);
        }
    });
}

#[test]
fn closing_the_writing_half_twice_is_as_good_as_once() {
    let dir = directory();
    let path = dir.path().join("twice.sock");
    run(async {
        let mut incoming = bind(&path).unwrap().incoming();
        let connecting = tokio::net::UnixStream::connect(&path);
        let (connected, accepted) = join(connecting, accepted(&mut incoming)).await;
        let mut client = NativeStream::connect(Backend::Native(outcome(connected))).unwrap();
        let (server, _) = accepted.unwrap();

        assert_eq!(poll_fn(|cx| write_of_either(&mut client, cx, &[1, 2])).await, Ok(2));
        assert_eq!(poll_fn(|cx| shutdown_of_either(&mut client, cx)).await, Ok(()));
        match poll_fn(|cx| shutdown_of_either(&mut client, cx)).await {
            Ok(()) => {}
            Err(Error::Io(cause)) => assert_eq!(cause.kind, ErrorKind::NotConnected),
            Err(other) => panic!("the second shutdown came to {:?}", other),
        }
        // The server sees what one shutdown would have shown it.
        assert_eq!(read_up_to(&server, 8).await.unwrap(), vec![1, 2]);
        // And the other half is still open.
        write_all(&server, &[3]).await.unwrap();
        let mut buf = [0u8; 4];
        assert_eq!(poll_fn(|cx| read_of_either(&mut client, cx, &mut buf)).await, Ok(1));
        assert_eq!(buf[0], 3);
    });
}

fn native_accept(
    listener: &mut tokio::net::UnixListener,
    cx: &mut Context<'_>,
    request: NativeAcceptRequest<tokio::net::UnixStream>,
) -> NativeAcceptEvent<tokio::net::UnixStream, String> {
    match request {
        NativeAcceptRequest::Accept => NativeAcceptEvent::Accepted(native(
            Pin::new(&mut listener.incoming()).poll_accept(cx),
        )),
        NativeAcceptRequest::PeerAddr(stream) => {
            let addr = outcome(stream.peer_addr()).map(|addr| format!("{:?}", addr));
            NativeAcceptEvent::PeerAddr(stream, addr)
        }
    }
}

/// Carries out the requests of one poll for the next connection of a
/// listener of either kind.
fn poll_next_of_either(
    listener: &mut NativeListener,
    cx: &mut Context<'_>,
) -> TaskPoll<Option<(NativeStream, Option<String>)>> {
    let mut event = if listener.is_emulated() {
        Backend::Emulated(AcceptEvent::Std(AcceptStdEvent::Polled))
    } else {
        Backend::Native(NativeAcceptEvent::Polled)
    };
    loop {
        let request = match listener.poll_next(event) {
            Step::Finish(result) => return task(result),
            Step::Perform(request) => request,
        };
        event = match (request, listener.get_mut()) {
            (Backend::Emulated(request), Backend::Emulated(inner)) => {
                Backend::Emulated(answer_accept(inner.get_ref(), cx, request))
            }
            (Backend::Native(request), Backend::Native(inner)) => {
                Backend::Native(native_accept(inner, cx, request))
            }
            _ => panic!("a listener asked for what the other kind of socket does"),
        };
    }
}

/// Carries out the requests of one poll of a stream of either kind:
/// `emulated` and `platform` make the system call or the native poll.
fn poll_of_either<T, E, P>(
    stream: &mut NativeStream,
    cx: &mut Context<'_>,
    decide: fn(&NativeStream, Backend<TransferEvent, NativeEvent<T>>) -> Step<
        Backend<Request, NativeRequest>,
        Result<T, Error>,
    >,
    mut emulated: E,
    mut platform: P,
) -> TaskPoll<Result<T, Error>>
where
    E: FnMut(&mio_uds::UnixStream) -> io::Result<usize>,
    P: FnMut(Pin<&mut tokio::net::UnixStream>, &mut Context<'_>) -> TaskPoll<io::Result<T>>,
{
    let mut event = if stream.is_emulated() {
        Backend::Emulated(TransferEvent::Polled)
    } else {
        Backend::Native(NativeEvent::Polled)
    };
    loop {
        let request = match decide(stream, event) {
            Step::Finish(result) => return task(result),
            Step::Perform(request) => request,
        };
        event = match (request, stream.get_mut()) {
            (Backend::Emulated(request), Backend::Emulated(inner)) => {
                let io = inner.get_ref();
                Backend::Emulated(match request {
                    Request::PollReady(d) => TransferEvent::Readiness(poll_ready(io, cx, d)),
                    Request::ClearReady(d) => TransferEvent::Cleared(clear_ready(io, cx, d)),
                    Request::Read | Request::Write => {
                        TransferEvent::Transferred(outcome(emulated(io.get_ref())))
                    }
                    other => panic!("a transfer asked for {:?}", other),
                })
            }
            (Backend::Native(_), Backend::Native(inner)) => {
                Backend::Native(NativeEvent::Done(native(platform(Pin::new(inner), cx))))
            }
            _ => panic!("a stream asked for what the other kind of socket does"),
        };
    }
}

fn read_of_either(
    stream: &mut NativeStream,
    cx: &mut Context<'_>,
    buf: &mut [u8],
) -> TaskPoll<Result<usize, Error>> {
    // One buffer, two ways to fill it; only one of them is ever taken.
    let buf = std::cell::RefCell::new(buf);
    poll_of_either(
        stream,
        cx,
        |s, e| s.poll_read(e),
        |mut socket| socket.read(&mut buf.borrow_mut()),
        |socket, cx| socket.poll_read(cx, &mut buf.borrow_mut()),
    )
}

fn write_of_either(
    stream: &mut NativeStream,
    cx: &mut Context<'_>,
    buf: &[u8],
) -> TaskPoll<Result<usize, Error>> {
    poll_of_either(
        stream,
        cx,
        |s, e| s.poll_write(e),
        |mut socket| socket.write(buf),
        |socket, cx| socket.poll_write(cx, buf),
    )
}

fn shutdown_of_either(stream: &mut NativeStream, cx: &mut Context<'_>) -> TaskPoll<Result<(), Error>> {
    let mut event = Backend::Native(NativeEvent::Polled);
    loop {
        assert!(!stream.is_emulated(), "these tests close the platform's own sockets only");
        let request = match stream.poll_shutdown(event) {
            Step::Finish(result) => return task(result),
            Step::Perform(request) => request,
        };
        event = match (request, stream.get_mut()) {
            (Backend::Native(NativeRequest::Shutdown), Backend::Native(inner)) => {
                Backend::Native(NativeEvent::Done(native(Pin::new(inner).poll_shutdown(cx))))
            }
            _ => panic!("a stream asked for what no shutdown needs"),
        };
    }
}

#[test]
fn the_platforms_own_sockets_go_through_the_same_listener_and_stream() {
    let dir = directory();
    let path = dir.path().join("native.sock");
    run(async {
        let bound = tokio::net::UnixListener::bind(&path);
        let mut listener = NativeListener::bind(Backend::Native(outcome(bound))).unwrap();
        assert!(!listener.is_emulated());

        let connecting = tokio::net::UnixStream::connect(&path);
        let accepting = poll_fn(|cx| poll_next_of_either(&mut listener, cx));
        let (connected, accepted) = join(connecting, accepting).await;
        let mut client = NativeStream::connect(Backend::Native(outcome(connected))).unwrap();
        let (mut server, addr) = accepted.unwrap();
        assert!(!client.is_emulated());
        assert!(!server.is_emulated());
        // The client has no name; its address is there all the same.
        assert!(addr.is_some());

        let n = poll_fn(|cx| write_of_either(&mut client, cx, &[1, 2, 3])).await;
        assert_eq!(n, Ok(3));
        let mut buf = [0u8; 8];
        let n = poll_fn(|cx| read_of_either(&mut server, cx, &mut buf)).await;
        assert_eq!(n, Ok(3));
        assert_eq!(&buf[..3], &[1, 2, 3]);

        assert_eq!(poll_fn(|cx| shutdown_of_either(&mut client, cx)).await, Ok(()));
        let n = poll_fn(|cx| read_of_either(&mut server, cx, &mut buf)).await;
        assert_eq!(n, Ok(0));
        assert!(!listener.is_ended());
    });
}

#[test]
fn the_emulated_sockets_go_through_the_same_listener_and_stream() {
    let dir = directory();
    let path = dir.path().join("emulated.sock");
    run(async {
        let mut listener = NativeListener::bind(Backend::Emulated(bind(&path))).unwrap();
        assert!(listener.is_emulated());

        let connecting = connected(&path);
        let accepting = poll_fn(|cx| poll_next_of_either(&mut listener, cx));
        let (connected, accepted) = join(connecting, accepting).await;
        let mut client = NativeStream::connect(Backend::Emulated(connected)).unwrap();
        let (mut server, addr) = accepted.unwrap();
        assert!(client.is_emulated());
        assert!(server.is_emulated());
        assert!(addr.is_some());

        let n = poll_fn(|cx| write_of_either(&mut client, cx, &[1, 2, 3])).await;
        assert_eq!(n, Ok(3));
        let mut buf = [0u8; 8];
        let n = poll_fn(|cx| read_of_either(&mut server, cx, &mut buf)).await;
        assert_eq!(n, Ok(3));
        assert_eq!(&buf[..3], &[1, 2, 3]);

        drop(client);
        let n = poll_fn(|cx| read_of_either(&mut server, cx, &mut buf)).await;
        assert_eq!(n, Ok(0));
        assert!(!listener.is_ended());
    });
}
