//! Writable streams.

use crate::cursor::{advance, chunk, remaining, unread};
use crate::pinned::{borrowed_target_mut, boxed_target_mut, leads_only_to, leads_to};
use crate::task::{done, progress};
use bytes::Bytes;
use core::pin::Pin;
use core::task::{Context, Poll};
use vstd::prelude::*;

verus! {

/// `void::Void`, the failure of a stream that cannot fail.
#[verifier::external_type_specification]
#[verifier::external_body]
pub struct ExVoid(void::Void);

/// A byte stream that accepts output without blocking.
///
/// Every operation is one attempt. `Poll::Pending` means that nothing was
/// done and that the waker of `cx` will fire when it is worth trying again;
/// trying earlier is allowed and wasteful. A failure is handed to the caller
/// as it is; nothing is retried. One task drives a stream at a time.
///
/// The three `*_step` relations say what an implementation does in one call,
/// from the stream before the call to the stream after it and the outcome.
/// They default to "anything"; an implementation that promises more says so
/// there, and its callers can then reason about it.
pub trait AsyncWrite {
    /// What a failed operation reports.
    type Error;

    /// Whether one `poll_write` of `buf` can take the stream from `pre` to
    /// `post` with outcome `r`.
    open spec fn write_step(
        pre: &Self,
        buf: Seq<u8>,
        post: &Self,
        r: Poll<Result<usize, Self::Error>>,
    ) -> bool {
        true
    }

    /// Whether one `poll_flush` can take the stream from `pre` to `post`
    /// with outcome `r`.
    open spec fn flush_step(pre: &Self, post: &Self, r: Poll<Result<(), Self::Error>>) -> bool {
        true
    }

    /// Whether one `poll_shutdown` can take the stream from `pre` to `post`
    /// with outcome `r`.
    open spec fn shutdown_step(pre: &Self, post: &Self, r: Poll<Result<(), Self::Error>>) -> bool {
        true
    }

    /// Offers `buf` to the stream. On success the count says how many bytes,
    /// taken from the front of `buf`, were accepted: never more than were
    /// offered, and at least one when any were offered. Accepting only a
    /// part is normal. Bytes are sent on in the order in which they were
    /// accepted.
    fn poll_write(&mut self, cx: &mut Context<'_>, buf: &[u8]) -> (r: Poll<
        Result<usize, Self::Error>,
    >)
        ensures
            Self::write_step(old(self), buf@, final(self), r),
            progress(r) <= buf@.len(),
            buf@.len() > 0 ==> r != done::<usize, Self::Error>(0),
    ;

    /// Drives the bytes accepted so far towards their destination. Success
    /// means that the transport has all of them, not that a peer has.
    fn poll_flush(&mut self, cx: &mut Context<'_>) -> (r: Poll<Result<(), Self::Error>>)
        ensures
            Self::flush_step(old(self), final(self), r),
    ;

    /// Begins or continues an orderly close. Success means that the close
    /// is complete. It may be called again afterwards.
    fn poll_shutdown(&mut self, cx: &mut Context<'_>) -> (r: Poll<Result<(), Self::Error>>)
        ensures
            Self::shutdown_step(old(self), final(self), r),
    ;

    /// Writes the region that a cursor offers. `left` is how many bytes the
    /// cursor has in all and `region` is the contiguous part at its front,
    /// which may be shorter. With nothing left the stream is not touched and
    /// the outcome is a success of zero bytes. Otherwise `region` is offered
    /// to `poll_write` once and the outcome is handed back as it is; the
    /// caller then moves its cursor on by the count of a success, and not at
    /// all otherwise.
    fn poll_write_region(&mut self, cx: &mut Context<'_>, left: usize, region: &[u8]) -> (r: Poll<
        Result<usize, Self::Error>,
    >) where Self: Sized
        ensures
            left == 0 ==> r == done::<usize, Self::Error>(0) && *final(self) == *old(self),
            left > 0 ==> Self::write_step(old(self), region@, final(self), r),
            left > 0 && region@.len() > 0 ==> r != done::<usize, Self::Error>(0),
            progress(r) <= region@.len(),
    {
        if left == 0 {
            return Poll::Ready(Ok(0));
        }
        self.poll_write(cx, region)
    }

    /// Writes from a cursor. With nothing left in `buf` the stream is not
    /// touched and the outcome is a success of zero bytes. Otherwise all of
    /// what is left is offered to `poll_write` once; on success the cursor
    /// moves past the bytes that were accepted, and on a failure or a stream
    /// that is not ready it stays where it was.
    fn poll_write_buf(&mut self, cx: &mut Context<'_>, buf: &mut Bytes) -> (r: Poll<
        Result<usize, Self::Error>,
    >) where Self: Sized
        ensures
            unread(*old(buf)).len() == 0 ==> r == done::<usize, Self::Error>(0) && *final(self)
                == *old(self),
            unread(*old(buf)).len() > 0 ==> Self::write_step(
                old(self),
                unread(*old(buf)),
                final(self),
                r,
            ) && r != done::<usize, Self::Error>(0),
            progress(r) <= unread(*old(buf)).len(),
            unread(*final(buf)) == unread(*old(buf)).skip(progress(r) as int),
    {
        match self.poll_write_region(cx, remaining(buf), chunk(buf)) {
            Poll::Ready(Ok(n)) => {
                advance(buf, n);
                Poll::Ready(Ok(n))
            },
            Poll::Ready(Err(e)) => Poll::Ready(Err(e)),
            Poll::Pending => Poll::Pending,
        }
    }
}

/// A growable byte buffer is a stream that takes everything at once and
/// cannot fail: writing appends, flushing and shutting down do nothing.
impl AsyncWrite for Vec<u8> {
    type Error = void::Void;

    open spec fn write_step(
        pre: &Self,
        buf: Seq<u8>,
        post: &Self,
        r: Poll<Result<usize, Self::Error>>,
    ) -> bool {
        &&& post@ == pre@ + buf
        &&& r matches Poll::Ready(Ok(n))
        &&& n == buf.len()
    }

    open spec fn flush_step(pre: &Self, post: &Self, r: Poll<Result<(), Self::Error>>) -> bool {
        &&& post@ == pre@
        &&& r == done::<(), Self::Error>(())
    }

    open spec fn shutdown_step(pre: &Self, post: &Self, r: Poll<Result<(), Self::Error>>) -> bool {
        &&& post@ == pre@
        &&& r == done::<(), Self::Error>(())
    }

    /// Appends all of `buf` and reports its length.
    fn poll_write(&mut self, _cx: &mut Context<'_>, buf: &[u8]) -> (r: Poll<
        Result<usize, Self::Error>,
    >)
        ensures
            final(self)@ == old(self)@ + buf@,
            r == done::<usize, void::Void>(buf.len()),
    {
        self.extend_from_slice(buf);
        assert(self@ =~= old(self)@ + buf@);
        Poll::Ready(Ok(buf.len()))
    }

    /// Succeeds at once; there is nothing to flush.
    fn poll_flush(&mut self, _cx: &mut Context<'_>) -> (r: Poll<Result<(), Self::Error>>)
        ensures
            final(self)@ == old(self)@,
            r == done::<(), void::Void>(()),
    {
        Poll::Ready(Ok(()))
    }

    /// Succeeds at once, however often it is called; there is nothing to
    /// close.
    fn poll_shutdown(&mut self, _cx: &mut Context<'_>) -> (r: Poll<Result<(), Self::Error>>)
        ensures
            final(self)@ == old(self)@,
            r == done::<(), void::Void>(()),
    {
        Poll::Ready(Ok(()))
    }
}

/// A stream behind a `Box` is the stream itself.
impl<T: AsyncWrite + ?Sized> AsyncWrite for Box<T> {
    type Error = T::Error;

    open spec fn write_step(
        pre: &Self,
        buf: Seq<u8>,
        post: &Self,
        r: Poll<Result<usize, Self::Error>>,
    ) -> bool {
        T::write_step(&**pre, buf, &**post, r)
    }

    open spec fn flush_step(pre: &Self, post: &Self, r: Poll<Result<(), Self::Error>>) -> bool {
        T::flush_step(&**pre, &**post, r)
    }

    open spec fn shutdown_step(pre: &Self, post: &Self, r: Poll<Result<(), Self::Error>>) -> bool {
        T::shutdown_step(&**pre, &**post, r)
    }

    fn poll_write(&mut self, cx: &mut Context<'_>, buf: &[u8]) -> (r: Poll<
        Result<usize, Self::Error>,
    >) {
        (**self).poll_write(cx, buf)
    }

    fn poll_flush(&mut self, cx: &mut Context<'_>) -> (r: Poll<Result<(), Self::Error>>) {
        (**self).poll_flush(cx)
    }

    fn poll_shutdown(&mut self, cx: &mut Context<'_>) -> (r: Poll<Result<(), Self::Error>>) {
        (**self).poll_shutdown(cx)
    }
}

/// A stream behind a unique borrow is the stream itself.
impl<T: AsyncWrite + ?Sized> AsyncWrite for &mut T {
    type Error = T::Error;

    open spec fn write_step(
        pre: &Self,
        buf: Seq<u8>,
        post: &Self,
        r: Poll<Result<usize, Self::Error>>,
    ) -> bool {
        T::write_step(&**pre, buf, &**post, r)
    }

    open spec fn flush_step(pre: &Self, post: &Self, r: Poll<Result<(), Self::Error>>) -> bool {
        T::flush_step(&**pre, &**post, r)
    }

    open spec fn shutdown_step(pre: &Self, post: &Self, r: Poll<Result<(), Self::Error>>) -> bool {
        T::shutdown_step(&**pre, &**post, r)
    }

    fn poll_write(&mut self, cx: &mut Context<'_>, buf: &[u8]) -> (r: Poll<
        Result<usize, Self::Error>,
    >) {
        (**self).poll_write(cx, buf)
    }

    fn poll_flush(&mut self, cx: &mut Context<'_>) -> (r: Poll<Result<(), Self::Error>>) {
        (**self).poll_flush(cx)
    }

    fn poll_shutdown(&mut self, cx: &mut Context<'_>) -> (r: Poll<Result<(), Self::Error>>) {
        (**self).poll_shutdown(cx)
    }
}

/// A stream in a pinned box is the stream in the box. The pin leads to one target before the call
/// and to one after it, and the step is the target's step between the two.
impl<T: AsyncWrite + Unpin + ?Sized> AsyncWrite for Pin<Box<T>> {
    type Error = T::Error;

    open spec fn write_step(
        pre: &Self,
        buf: Seq<u8>,
        post: &Self,
        r: Poll<Result<usize, Self::Error>>,
    ) -> bool {
        exists|a: &T, b: &T|
            leads_only_to(pre, a) && leads_only_to(post, b) && #[trigger] T::write_step(
                a,
                buf,
                b,
                r,
            )
    }

    open spec fn flush_step(pre: &Self, post: &Self, r: Poll<Result<(), Self::Error>>) -> bool {
        exists|a: &T, b: &T|
            leads_only_to(pre, a) && leads_only_to(post, b) && #[trigger] T::flush_step(a, b, r)
    }

    open spec fn shutdown_step(pre: &Self, post: &Self, r: Poll<Result<(), Self::Error>>) -> bool {
        exists|a: &T, b: &T|
            leads_only_to(pre, a) && leads_only_to(post, b) && #[trigger] T::shutdown_step(
                a,
                b,
                r,
            )
    }

    fn poll_write(&mut self, cx: &mut Context<'_>, buf: &[u8]) -> (r: Poll<
        Result<usize, Self::Error>,
    >) {
        let t = boxed_target_mut(self);
        let ghost a = &*t;
        let r = t.poll_write(cx, buf);
        assert(T::write_step(a, buf@, &*t, r));
        r
    }

    fn poll_flush(&mut self, cx: &mut Context<'_>) -> (r: Poll<Result<(), Self::Error>>) {
        let t = boxed_target_mut(self);
        let ghost a = &*t;
        let r = t.poll_flush(cx);
        assert(T::flush_step(a, &*t, r));
        r
    }

    fn poll_shutdown(&mut self, cx: &mut Context<'_>) -> (r: Poll<Result<(), Self::Error>>) {
        let t = boxed_target_mut(self);
        let ghost a = &*t;
        let r = t.poll_shutdown(cx);
        assert(T::shutdown_step(a, &*t, r));
        r
    }
}

/// A stream behind a pinned unique borrow is the stream that was borrowed. The pin leads to one target before the call
/// and to one after it, and the step is the target's step between the two.
impl<T: AsyncWrite + Unpin + ?Sized> AsyncWrite for Pin<&mut T> {
    type Error = T::Error;

    open spec fn write_step(
        pre: &Self,
        buf: Seq<u8>,
        post: &Self,
        r: Poll<Result<usize, Self::Error>>,
    ) -> bool {
        exists|a: &T, b: &T|
            leads_only_to(pre, a) && leads_only_to(post, b) && #[trigger] T::write_step(
                a,
                buf,
                b,
                r,
            )
    }

    open spec fn flush_step(pre: &Self, post: &Self, r: Poll<Result<(), Self::Error>>) -> bool {
        exists|a: &T, b: &T|
            leads_only_to(pre, a) && leads_only_to(post, b) && #[trigger] T::flush_step(a, b, r)
    }

    open spec fn shutdown_step(pre: &Self, post: &Self, r: Poll<Result<(), Self::Error>>) -> bool {
        exists|a: &T, b: &T|
            leads_only_to(pre, a) && leads_only_to(post, b) && #[trigger] T::shutdown_step(
                a,
                b,
                r,
            )
    }

    fn poll_write(&mut self, cx: &mut Context<'_>, buf: &[u8]) -> (r: Poll<
        Result<usize, Self::Error>,
    >) {
        let t = borrowed_target_mut(self);
        let ghost a = &*t;
        let r = t.poll_write(cx, buf);
        assert(T::write_step(a, buf@, &*t, r));
        r
    }

    fn poll_flush(&mut self, cx: &mut Context<'_>) -> (r: Poll<Result<(), Self::Error>>) {
        let t = borrowed_target_mut(self);
        let ghost a = &*t;
        let r = t.poll_flush(cx);
        assert(T::flush_step(a, &*t, r));
        r
    }

    fn poll_shutdown(&mut self, cx: &mut Context<'_>) -> (r: Poll<Result<(), Self::Error>>) {
        let t = borrowed_target_mut(self);
        let ghost a = &*t;
        let r = t.poll_shutdown(cx);
        assert(T::shutdown_step(a, &*t, r));
        r
    }
}

/// What a buffer sink holds after a write, a flush and a second write is
/// what it held before, then the first bytes, then the second: successive
/// writes keep their order, and a flush in between changes nothing.
pub proof fn lemma_sink_keeps_order(
    a: Vec<u8>,
    b: Vec<u8>,
    c: Vec<u8>,
    d: Vec<u8>,
    first: Seq<u8>,
    second: Seq<u8>,
    r1: Poll<Result<usize, void::Void>>,
    r2: Poll<Result<(), void::Void>>,
    r3: Poll<Result<usize, void::Void>>,
)
    requires
        <Vec<u8> as AsyncWrite>::write_step(&a, first, &b, r1),
        <Vec<u8> as AsyncWrite>::flush_step(&b, &c, r2),
        <Vec<u8> as AsyncWrite>::write_step(&c, second, &d, r3),
    ensures
        d@ == a@ + first + second,
        progress(r1) == first.len(),
        progress(r3) == second.len(),
{
    assert(a@ + first + second =~= d@);
}

/// Shutting a buffer sink down a second time is as harmless as the first:
/// it succeeds again and the contents stay what they were.
pub proof fn lemma_sink_shutdown_repeats(
    a: Vec<u8>,
    b: Vec<u8>,
    c: Vec<u8>,
    r1: Poll<Result<(), void::Void>>,
    r2: Poll<Result<(), void::Void>>,
)
    requires
        <Vec<u8> as AsyncWrite>::shutdown_step(&a, &b, r1),
        <Vec<u8> as AsyncWrite>::shutdown_step(&b, &c, r2),
    ensures
        r2 == done::<(), void::Void>(()),
        c@ == a@,
{
}

/// A boxed stream takes exactly the steps of the stream in the box.
pub proof fn lemma_box_delegates<T: AsyncWrite>(
    pre: Box<T>,
    post: Box<T>,
    buf: Seq<u8>,
    w: Poll<Result<usize, T::Error>>,
    u: Poll<Result<(), T::Error>>,
)
    ensures
        <Box<T> as AsyncWrite>::write_step(&pre, buf, &post, w) == T::write_step(
            &*pre,
            buf,
            &*post,
            w,
        ),
        <Box<T> as AsyncWrite>::flush_step(&pre, &post, u) == T::flush_step(&*pre, &*post, u),
        <Box<T> as AsyncWrite>::shutdown_step(&pre, &post, u) == T::shutdown_step(
            &*pre,
            &*post,
            u,
        ),
{
}

/// A uniquely borrowed stream takes exactly the steps of the stream that
/// was borrowed.
pub proof fn lemma_borrow_delegates<T: AsyncWrite>(
    pre: &mut T,
    post: &mut T,
    buf: Seq<u8>,
    w: Poll<Result<usize, T::Error>>,
    u: Poll<Result<(), T::Error>>,
)
    ensures
        <&mut T as AsyncWrite>::write_step(&old(pre), buf, &old(post), w) == T::write_step(
            &*old(pre),
            buf,
            &*old(post),
            w,
        ),
        <&mut T as AsyncWrite>::flush_step(&old(pre), &old(post), u) == T::flush_step(
            &*old(pre),
            &*old(post),
            u,
        ),
        <&mut T as AsyncWrite>::shutdown_step(&old(pre), &old(post), u) == T::shutdown_step(
            &*old(pre),
            &*old(post),
            u,
        ),
{
}

/// Whatever a stream in a pinned box does in one call, the target that the pin leads
/// to has done: a step of the pin from `pre` to `post` is a step of the
/// target, from what `pre` leads to, to what `post` leads to, with the same
/// outcome. Where the pin leads to nothing else, the converse holds too, and
/// the steps of the pinned stream are exactly those of its target.
pub proof fn lemma_pinned_box_delegates<T: AsyncWrite + Unpin>(
    pre: Pin<Box<T>>,
    post: Pin<Box<T>>,
    a: &T,
    b: &T,
    buf: Seq<u8>,
    w: Poll<Result<usize, T::Error>>,
    u: Poll<Result<(), T::Error>>,
)
    requires
        leads_to(&pre, a),
        leads_to(&post, b),
    ensures
        <Pin<Box<T>> as AsyncWrite>::write_step(&pre, buf, &post, w) ==> T::write_step(a, buf, b, w),
        <Pin<Box<T>> as AsyncWrite>::flush_step(&pre, &post, u) ==> T::flush_step(a, b, u),
        <Pin<Box<T>> as AsyncWrite>::shutdown_step(&pre, &post, u) ==> T::shutdown_step(a, b, u),
        leads_only_to(&pre, a) && leads_only_to(&post, b) ==> {
            &&& T::write_step(a, buf, b, w) ==> <Pin<Box<T>> as AsyncWrite>::write_step(
                &pre,
                buf,
                &post,
                w,
            )
            &&& T::flush_step(a, b, u) ==> <Pin<Box<T>> as AsyncWrite>::flush_step(&pre, &post, u)
            &&& T::shutdown_step(a, b, u) ==> <Pin<Box<T>> as AsyncWrite>::shutdown_step(
                &pre,
                &post,
                u,
            )
        },
{
}

/// Shutting a stream in a pinned box down twice is shutting its target down twice: the
/// pin keeps no state of its own, and the second outcome is the one of the
/// target's own second shutdown.
pub proof fn lemma_pinned_box_shutdown_repeats<T: AsyncWrite + Unpin>(
    p0: Pin<Box<T>>,
    p1: Pin<Box<T>>,
    p2: Pin<Box<T>>,
    a: &T,
    b: &T,
    c: &T,
    r1: Poll<Result<(), T::Error>>,
    r2: Poll<Result<(), T::Error>>,
)
    requires
        <Pin<Box<T>> as AsyncWrite>::shutdown_step(&p0, &p1, r1),
        <Pin<Box<T>> as AsyncWrite>::shutdown_step(&p1, &p2, r2),
        leads_to(&p0, a),
        leads_to(&p1, b),
        leads_to(&p2, c),
    ensures
        T::shutdown_step(a, b, r1),
        T::shutdown_step(b, c, r2),
{
}

/// Whatever a stream behind a pinned borrow does in one call, the target that the pin leads
/// to has done: a step of the pin from `pre` to `post` is a step of the
/// target, from what `pre` leads to, to what `post` leads to, with the same
/// outcome. Where the pin leads to nothing else, the converse holds too, and
/// the steps of the pinned stream are exactly those of its target.
pub proof fn lemma_pinned_borrow_delegates<T: AsyncWrite + Unpin>(
    pre: Pin<&mut T>,
    post: Pin<&mut T>,
    a: &T,
    b: &T,
    buf: Seq<u8>,
    w: Poll<Result<usize, T::Error>>,
    u: Poll<Result<(), T::Error>>,
)
    requires
        leads_to(&pre, a),
        leads_to(&post, b),
    ensures
        <Pin<&mut T> as AsyncWrite>::write_step(&pre, buf, &post, w) ==> T::write_step(a, buf, b, w),
        <Pin<&mut T> as AsyncWrite>::flush_step(&pre, &post, u) ==> T::flush_step(a, b, u),
        <Pin<&mut T> as AsyncWrite>::shutdown_step(&pre, &post, u) ==> T::shutdown_step(a, b, u),
        leads_only_to(&pre, a) && leads_only_to(&post, b) ==> {
            &&& T::write_step(a, buf, b, w) ==> <Pin<&mut T> as AsyncWrite>::write_step(
                &pre,
                buf,
                &post,
                w,
            )
            &&& T::flush_step(a, b, u) ==> <Pin<&mut T> as AsyncWrite>::flush_step(&pre, &post, u)
            &&& T::shutdown_step(a, b, u) ==> <Pin<&mut T> as AsyncWrite>::shutdown_step(
                &pre,
                &post,
                u,
            )
        },
{
}

/// Shutting a stream behind a pinned borrow down twice is shutting its target down twice: the
/// pin keeps no state of its own, and the second outcome is the one of the
/// target's own second shutdown.
pub proof fn lemma_pinned_borrow_shutdown_repeats<T: AsyncWrite + Unpin>(
    p0: Pin<&mut T>,
    p1: Pin<&mut T>,
    p2: Pin<&mut T>,
    a: &T,
    b: &T,
    c: &T,
    r1: Poll<Result<(), T::Error>>,
    r2: Poll<Result<(), T::Error>>,
)
    requires
        <Pin<&mut T> as AsyncWrite>::shutdown_step(&p0, &p1, r1),
        <Pin<&mut T> as AsyncWrite>::shutdown_step(&p1, &p2, r2),
        leads_to(&p0, a),
        leads_to(&p1, b),
        leads_to(&p2, c),
    ensures
        T::shutdown_step(a, b, r1),
        T::shutdown_step(b, c, r2),
{
}

} // verus!
