//! Readable streams.

use crate::pinned::{borrowed_target_mut, boxed_target_mut, leads_only_to, leads_to};
use crate::task::progress;
use core::pin::Pin;
use core::task::{Context, Poll};
use vstd::prelude::*;

verus! {

/// What every read does to the caller's buffer, whatever the stream: the
/// buffer keeps its length; a success of `n` bytes has written those into
/// the front `n` places and left the rest alone; a stream that was not
/// ready has written nothing. A failure says nothing about the buffer.
pub open spec fn fills_front<E>(
    before: Seq<u8>,
    after: Seq<u8>,
    r: Poll<Result<usize, E>>,
) -> bool {
    &&& after.len() == before.len()
    &&& match r {
        Poll::Ready(Ok(n)) => n <= before.len() && after.skip(n as int) == before.skip(n as int),
        Poll::Ready(Err(_)) => true,
        Poll::Pending => after == before,
    }
}

/// A byte stream that yields input without blocking.
///
/// One `poll_read` is one attempt to copy bytes that have arrived into the
/// caller's buffer. Filling only a part of the buffer is normal. A success
/// of zero bytes on a buffer that has room means that the stream has ended;
/// failures are never used to say so. `Poll::Pending` means that nothing was
/// copied and that the waker of `cx` will fire when it is worth trying
/// again. Bytes come out in the order in which they arrived.
///
/// `read_step` says what an implementation does in one call; it defaults to
/// "anything".
pub trait AsyncRead {
    /// What a failed read reports.
    type Error;

    /// Whether one `poll_read` can take the stream from `pre` to `post`
    /// and the buffer from `before` to `after`, with outcome `r`.
    open spec fn read_step(
        pre: &Self,
        before: Seq<u8>,
        post: &Self,
        after: Seq<u8>,
        r: Poll<Result<usize, Self::Error>>,
    ) -> bool {
        true
    }

    /// Copies input into the front of `buf` and reports how many bytes.
    fn poll_read(&mut self, cx: &mut Context<'_>, buf: &mut [u8]) -> (r: Poll<
        Result<usize, Self::Error>,
    >)
        ensures
            Self::read_step(old(self), old(buf)@, final(self), final(buf)@, r),
            fills_front(old(buf)@, final(buf)@, r),
    ;
}

/// A stream behind a `Box` is the stream itself.
impl<T: AsyncRead + ?Sized> AsyncRead for Box<T> {
    type Error = T::Error;

    open spec fn read_step(
        pre: &Self,
        before: Seq<u8>,
        post: &Self,
        after: Seq<u8>,
        r: Poll<Result<usize, Self::Error>>,
    ) -> bool {
        T::read_step(&**pre, before, &**post, after, r)
    }

    fn poll_read(&mut self, cx: &mut Context<'_>, buf: &mut [u8]) -> (r: Poll<
        Result<usize, Self::Error>,
    >) {
        (**self).poll_read(cx, buf)
    }
}

/// A stream behind a unique borrow is the stream itself.
impl<T: AsyncRead + ?Sized> AsyncRead for &mut T {
    type Error = T::Error;

    open spec fn read_step(
        pre: &Self,
        before: Seq<u8>,
        post: &Self,
        after: Seq<u8>,
        r: Poll<Result<usize, Self::Error>>,
    ) -> bool {
        T::read_step(&**pre, before, &**post, after, r)
    }

    fn poll_read(&mut self, cx: &mut Context<'_>, buf: &mut [u8]) -> (r: Poll<
        Result<usize, Self::Error>,
    >) {
        (**self).poll_read(cx, buf)
    }
}

/// A stream in a pinned box is the stream in the box. The pin leads to one target before the call
/// and to one after it, and the step is the target's step between the two.
impl<T: AsyncRead + Unpin + ?Sized> AsyncRead for Pin<Box<T>> {
    type Error = T::Error;

    open spec fn read_step(
        pre: &Self,
        before: Seq<u8>,
        post: &Self,
        after: Seq<u8>,
        r: Poll<Result<usize, Self::Error>>,
    ) -> bool {
        exists|a: &T, b: &T|
            leads_only_to(pre, a) && leads_only_to(post, b) && #[trigger] T::read_step(
                a,
                before,
                b,
                after,
                r,
            )
    }

    fn poll_read(&mut self, cx: &mut Context<'_>, buf: &mut [u8]) -> (r: Poll<
        Result<usize, Self::Error>,
    >) {
        let t = boxed_target_mut(self);
        let ghost a = &*t;
        let r = t.poll_read(cx, buf);
        assert(T::read_step(a, old(buf)@, &*t, buf@, r));
        r
    }
}

/// A stream behind a pinned unique borrow is the stream that was borrowed. The pin leads to one target before the call
/// and to one after it, and the step is the target's step between the two.
impl<T: AsyncRead + Unpin + ?Sized> AsyncRead for Pin<&mut T> {
    type Error = T::Error;

    open spec fn read_step(
        pre: &Self,
        before: Seq<u8>,
        post: &Self,
        after: Seq<u8>,
        r: Poll<Result<usize, Self::Error>>,
    ) -> bool {
        exists|a: &T, b: &T|
            leads_only_to(pre, a) && leads_only_to(post, b) && #[trigger] T::read_step(
                a,
                before,
                b,
                after,
                r,
            )
    }

    fn poll_read(&mut self, cx: &mut Context<'_>, buf: &mut [u8]) -> (r: Poll<
        Result<usize, Self::Error>,
    >) {
        let t = borrowed_target_mut(self);
        let ghost a = &*t;
        let r = t.poll_read(cx, buf);
        assert(T::read_step(a, old(buf)@, &*t, buf@, r));
        r
    }
}

/// A boxed stream reads exactly as the stream in the box does.
pub proof fn lemma_box_delegates<T: AsyncRead>(
    pre: Box<T>,
    post: Box<T>,
    before: Seq<u8>,
    after: Seq<u8>,
    r: Poll<Result<usize, T::Error>>,
)
    ensures
        <Box<T> as AsyncRead>::read_step(&pre, before, &post, after, r) == T::read_step(
            &*pre,
            before,
            &*post,
            after,
            r,
        ),
{
}

/// A uniquely borrowed stream reads exactly as the stream that was
/// borrowed does.
pub proof fn lemma_borrow_delegates<T: AsyncRead>(
    pre: &mut T,
    post: &mut T,
    before: Seq<u8>,
    after: Seq<u8>,
    r: Poll<Result<usize, T::Error>>,
)
    ensures
        <&mut T as AsyncRead>::read_step(&old(pre), before, &old(post), after, r) == T::read_step(
            &*old(pre),
            before,
            &*old(post),
            after,
            r,
        ),
{
}

/// Whatever a stream in a pinned box reads in one call, the target that the pin leads
/// to has read: a step of the pin from `pre` to `post` is a step of the
/// target, from what `pre` leads to, to what `post` leads to, with the same
/// outcome and the same bytes. Where the pin leads to nothing else, the
/// converse holds too.
pub proof fn lemma_pinned_box_delegates<T: AsyncRead + Unpin>(
    pre: Pin<Box<T>>,
    post: Pin<Box<T>>,
    a: &T,
    b: &T,
    before: Seq<u8>,
    after: Seq<u8>,
    r: Poll<Result<usize, T::Error>>,
)
    requires
        leads_to(&pre, a),
        leads_to(&post, b),
    ensures
        <Pin<Box<T>> as AsyncRead>::read_step(&pre, before, &post, after, r) ==> T::read_step(
            a,
            before,
            b,
            after,
            r,
        ),
        leads_only_to(&pre, a) && leads_only_to(&post, b) && T::read_step(a, before, b, after, r)
            ==> <Pin<Box<T>> as AsyncRead>::read_step(&pre, before, &post, after, r),
{
}

/// Whatever a stream behind a pinned borrow reads in one call, the target that the pin leads
/// to has read: a step of the pin from `pre` to `post` is a step of the
/// target, from what `pre` leads to, to what `post` leads to, with the same
/// outcome and the same bytes. Where the pin leads to nothing else, the
/// converse holds too.
pub proof fn lemma_pinned_borrow_delegates<T: AsyncRead + Unpin>(
    pre: Pin<&mut T>,
    post: Pin<&mut T>,
    a: &T,
    b: &T,
    before: Seq<u8>,
    after: Seq<u8>,
    r: Poll<Result<usize, T::Error>>,
)
    requires
        leads_to(&pre, a),
        leads_to(&post, b),
    ensures
        <Pin<&mut T> as AsyncRead>::read_step(&pre, before, &post, after, r) ==> T::read_step(
            a,
            before,
            b,
            after,
            r,
        ),
        leads_only_to(&pre, a) && leads_only_to(&post, b) && T::read_step(a, before, b, after, r)
            ==> <Pin<&mut T> as AsyncRead>::read_step(&pre, before, &post, after, r),
{
}

} // verus!
