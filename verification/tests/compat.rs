use futures::task::noop_waker;
use poll_io::compat::normalize;
use poll_io::{AsyncRead, AsyncWrite, Compat};
use std::error::Error;
use std::fmt;
use std::io::ErrorKind;
use std::task::{Context, Poll};

#[derive(Debug, PartialEq)]
struct Refused {
    code: u32,
}

impl fmt::Display for Refused {
    fn fmt(&self, f: &mut fmt::Formatter<'_>) -> fmt::Result {
        f.write_str("the peer refused the bytes")
    }
}

impl Error for Refused {}

/// Fails every operation with `Refused`, or is never ready.
struct Broken {
    ready: bool,
    polls: usize,
}

impl AsyncWrite for Broken {
    type Error = Refused;

    fn poll_write(&mut self, _cx: &mut Context<'_>, _buf: &[u8]) -> Poll<Result<usize, Refused>> {
        self.polls += 1;
        if self.ready {
            Poll::Ready(Err(Refused { code: 7 }))
        } else {
            Poll::Pending
        }
    }

    fn poll_flush(&mut self, _cx: &mut Context<'_>) -> Poll<Result<(), Refused>> {
        self.polls += 1;
        if self.ready {
            Poll::Ready(Err(Refused { code: 8 }))
        } else {
            Poll::Pending
        }
    }

    fn poll_shutdown(&mut self, _cx: &mut Context<'_>) -> Poll<Result<(), Refused>> {
        self.polls += 1;
        if self.ready {
            Poll::Ready(Err(Refused { code: 9 }))
        } else {
            Poll::Pending
        }
    }
}

impl AsyncRead for Broken {
    type Error = Refused;

    fn poll_read(&mut self, _cx: &mut Context<'_>, _buf: &mut [u8]) -> Poll<Result<usize, Refused>> {
        self.polls += 1;
        if self.ready {
            Poll::Ready(Err(Refused { code: 10 }))
        } else {
            Poll::Pending
        }
    }
}

/// Hands out its bytes, then reports the end.
struct Source {
    data: Vec<u8>,
    at: usize,
}

impl AsyncRead for Source {
    type Error = Refused;

    fn poll_read(&mut self, _cx: &mut Context<'_>, buf: &mut [u8]) -> Poll<Result<usize, Refused>> {
        let n = (self.data.len() - self.at).min(buf.len());
        buf[..n].copy_from_slice(&self.data[self.at..self.at + n]);
        self.at += n;
        Poll::Ready(Ok(n))
    }
}

fn assert_wraps(err: &std::io::Error, code: u32) {
    assert_eq!(err.kind(), ErrorKind::Other);
    let cause = err.get_ref().expect("the failure carries its cause");
    assert_eq!(cause.to_string(), "the peer refused the bytes");
    assert_eq!(format!("{:?}", cause), format!("{:?}", Refused { code }));
    assert_eq!(cause.downcast_ref::<Refused>(), Some(&Refused { code }));
    assert_eq!(err.to_string(), "the peer refused the bytes");
}

#[test]
fn new_and_into_inner_are_inverse() {
    let wrapped = Compat::new(vec![1u8, 2, 3]);
    assert_eq!(wrapped.into_inner(), vec![1u8, 2, 3]);
}

#[test]
fn write_failure_keeps_its_cause() {
    let waker = noop_waker();
    let mut cx = Context::from_waker(&waker);
    let mut wrapped = Compat::new(Broken { ready: true, polls: 0 });

    match wrapped.poll_write(&mut cx, b"abc") {
        Poll::Ready(Err(err)) => assert_wraps(&err, 7),
        other => panic!("unexpected outcome {:?}", other),
    }
    assert_eq!(wrapped.into_inner().polls, 1);
}

#[test]
fn flush_shutdown_and_read_failures_keep_their_cause() {
    let waker = noop_waker();
    let mut cx = Context::from_waker(&waker);
    let mut wrapped = Compat::new(Broken { ready: true, polls: 0 });

    match wrapped.poll_flush(&mut cx) {
        Poll::Ready(Err(err)) => assert_wraps(&err, 8),
        other => panic!("unexpected outcome {:?}", other),
    }
    match wrapped.poll_shutdown(&mut cx) {
        Poll::Ready(Err(err)) => assert_wraps(&err, 9),
        other => panic!("unexpected outcome {:?}", other),
    }
    let mut buf = [0u8; 4];
    match wrapped.poll_read(&mut cx, &mut buf) {
        Poll::Ready(Err(err)) => assert_wraps(&err, 10),
        other => panic!("unexpected outcome {:?}", other),
    }
    assert_eq!(wrapped.into_inner().polls, 3);
}

#[test]
fn pending_passes_through() {
    let waker = noop_waker();
    let mut cx = Context::from_waker(&waker);
    let mut wrapped = Compat::new(Broken { ready: false, polls: 0 });
    let mut buf = [0u8; 4];

    assert!(matches!(wrapped.poll_write(&mut cx, b"abc"), Poll::Pending));
    assert!(matches!(wrapped.poll_flush(&mut cx), Poll::Pending));
    assert!(matches!(wrapped.poll_shutdown(&mut cx), Poll::Pending));
    assert!(matches!(wrapped.poll_read(&mut cx, &mut buf), Poll::Pending));
    assert_eq!(buf, [0u8; 4]);
    assert_eq!(wrapped.into_inner().polls, 4);
}

#[test]
fn success_passes_through() {
    let waker = noop_waker();
    let mut cx = Context::from_waker(&waker);
    let mut wrapped = Compat::new(Vec::<u8>::new());

    assert!(matches!(wrapped.poll_write(&mut cx, b"ab"), Poll::Ready(Ok(2))));
    assert!(matches!(wrapped.poll_write(&mut cx, b"cde"), Poll::Ready(Ok(3))));
    assert!(matches!(wrapped.poll_flush(&mut cx), Poll::Ready(Ok(()))));
    assert!(matches!(wrapped.poll_shutdown(&mut cx), Poll::Ready(Ok(()))));
    assert!(matches!(wrapped.poll_shutdown(&mut cx), Poll::Ready(Ok(()))));
    assert_eq!(wrapped.into_inner(), b"abcde".to_vec());
}

#[test]
fn read_passes_bytes_and_the_end_through() {
    let waker = noop_waker();
    let mut cx = Context::from_waker(&waker);
    let mut wrapped = Compat::new(Source { data: vec![1, 2, 3, 4, 5], at: 0 });
    let mut buf = [0u8; 4];

    assert!(matches!(wrapped.poll_read(&mut cx, &mut buf), Poll::Ready(Ok(4))));
    assert_eq!(buf, [1, 2, 3, 4]);
    assert!(matches!(wrapped.poll_read(&mut cx, &mut buf), Poll::Ready(Ok(1))));
    assert_eq!(buf, [5, 2, 3, 4]);
    assert!(matches!(wrapped.poll_read(&mut cx, &mut buf), Poll::Ready(Ok(0))));
    assert_eq!(buf, [5, 2, 3, 4]);
}

#[test]
fn borrowed_stream_can_be_wrapped() {
    let waker = noop_waker();
    let mut cx = Context::from_waker(&waker);
    let mut sink: Vec<u8> = Vec::new();

    let mut wrapped = Compat::new(&mut sink);
    assert!(matches!(wrapped.poll_write(&mut cx, b"xy"), Poll::Ready(Ok(2))));
    assert_eq!(sink, b"xy".to_vec());
}

#[test]
fn normalize_maps_each_outcome() {
    let pending: Poll<Result<usize, Refused>> = Poll::Pending;
    assert!(matches!(normalize(pending), Poll::Pending));

    let done: Poll<Result<usize, Refused>> = Poll::Ready(Ok(42));
    assert!(matches!(normalize(done), Poll::Ready(Ok(42))));

    let unit: Poll<Result<(), Refused>> = Poll::Ready(Ok(()));
    assert!(matches!(normalize(unit), Poll::Ready(Ok(()))));

    let failed: Poll<Result<usize, Refused>> = Poll::Ready(Err(Refused { code: 3 }));
    match normalize(failed) {
        Poll::Ready(Err(err)) => assert_wraps(&err, 3),
        other => panic!("unexpected outcome {:?}", other),
    }
}
