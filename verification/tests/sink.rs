use futures::task::noop_waker;
use poll_io::AsyncWrite;
use std::task::{Context, Poll};

#[test]
fn sink_collects_writes_in_order() {
    let waker = noop_waker();
    let mut cx = Context::from_waker(&waker);
    let mut sink: Vec<u8> = Vec::new();

    assert!(matches!(sink.poll_write(&mut cx, b"ab"), Poll::Ready(Ok(2))));
    assert!(matches!(sink.poll_write(&mut cx, b"cd"), Poll::Ready(Ok(2))));
    assert!(matches!(sink.poll_flush(&mut cx), Poll::Ready(Ok(()))));
    assert!(matches!(sink.poll_write(&mut cx, b"ef"), Poll::Ready(Ok(2))));

    assert_eq!(sink, b"abcdef".to_vec());
}

#[test]
fn sink_write_reports_the_whole_length() {
    let waker = noop_waker();
    let mut cx = Context::from_waker(&waker);
    let mut sink: Vec<u8> = vec![9];

    assert!(matches!(sink.poll_write(&mut cx, b"hello"), Poll::Ready(Ok(5))));
    assert_eq!(sink, vec![9, b'h', b'e', b'l', b'l', b'o']);
}

#[test]
fn sink_never_reports_zero_for_bytes_offered() {
    let waker = noop_waker();
    let mut cx = Context::from_waker(&waker);
    let mut sink: Vec<u8> = Vec::new();

    for len in 1..=16usize {
        let data = vec![0xa5u8; len];
        match sink.poll_write(&mut cx, &data) {
            Poll::Ready(Ok(n)) => {
                assert_ne!(n, 0);
                assert_eq!(n, len);
            }
            _ => panic!("a buffer sink is always ready and cannot fail"),
        }
    }
    assert_eq!(sink.len(), 136);
}

#[test]
fn sink_takes_an_empty_write() {
    let waker = noop_waker();
    let mut cx = Context::from_waker(&waker);
    let mut sink: Vec<u8> = vec![1, 2];

    assert!(matches!(sink.poll_write(&mut cx, b""), Poll::Ready(Ok(0))));
    assert_eq!(sink, vec![1, 2]);
}

#[test]
fn sink_flush_is_ready_at_once() {
    let waker = noop_waker();
    let mut cx = Context::from_waker(&waker);
    let mut sink: Vec<u8> = vec![1, 2, 3];

    assert!(matches!(sink.poll_flush(&mut cx), Poll::Ready(Ok(()))));
    assert!(matches!(sink.poll_flush(&mut cx), Poll::Ready(Ok(()))));
    assert_eq!(sink, vec![1, 2, 3]);
}

#[test]
fn sink_shutdown_twice_is_harmless() {
    let waker = noop_waker();
    let mut cx = Context::from_waker(&waker);
    let mut sink: Vec<u8> = vec![1, 2, 3];

    assert!(matches!(sink.poll_shutdown(&mut cx), Poll::Ready(Ok(()))));
    assert!(matches!(sink.poll_shutdown(&mut cx), Poll::Ready(Ok(()))));
    assert_eq!(sink, vec![1, 2, 3]);
}
