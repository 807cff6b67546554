//! The adapter between this crate's streams and code that expects the
//! failures of a stream to be `std::io::Error`.
//!
//! [`Compat`] owns one stream and forwards every operation to it. Outcomes
//! pass through as they are, except that a failure is wrapped: it becomes an
//! `std::io::Error` of kind `Other` that carries the stream's own failure as
//! its cause. The wrapping cannot fail, and nothing finer than `Other` is
//! attempted.

use crate::read::{fills_front, AsyncRead};
use crate::task::{done, progress};
use crate::write::AsyncWrite;
use core::task::{Context, Poll};
use std::io::{Error, ErrorKind};
use vstd::prelude::*;

verus! {

/// `std::io::Error`, opaque to proofs; [`kind_of`] is what contracts say of
/// one.
#[verifier::external_type_specification]
#[verifier::external_body]
pub struct ExError(Error);

/// `std::io::ErrorKind`.
#[verifier::external_type_specification]
pub struct ExErrorKind(ErrorKind);

/// The kind that an `std::io::Error` reports through `Error::kind`.
pub uninterp spec fn kind_of(e: Error) -> ErrorKind;

/// `std::io::Error::new`: an error of the kind given, whose cause is
/// `cause`.
#[verifier::external_body]
fn new_error<E: std::error::Error + Send + Sync + 'static>(kind: ErrorKind, cause: E) -> (e: Error)
    ensures
        kind_of(e) == kind,
{
    Error::new(kind, cause)
}

/// Whether `r` is the outcome `r0` with its failure, if it is one, wrapped
/// as an `std::io::Error` of kind `Other`. Pending stays pending and a
/// success keeps its value.
pub open spec fn normalized<V, E>(r0: Poll<Result<V, E>>, r: Poll<Result<V, Error>>) -> bool {
    match r0 {
        Poll::Pending => r == Poll::<Result<V, Error>>::Pending,
        Poll::Ready(Ok(v)) => r == done::<V, Error>(v),
        Poll::Ready(Err(_)) => r matches Poll::Ready(Err(e)) && kind_of(e) == ErrorKind::Other,
    }
}

/// Turns the outcome of a stream of this crate into the outcome that the
/// other side expects.
pub fn normalize<V, E: std::error::Error + Send + Sync + 'static>(r0: Poll<Result<V, E>>) -> (r:
    Poll<Result<V, Error>>)
    ensures
        normalized(r0, r),
{
    match r0 {
        Poll::Pending => Poll::Pending,
        Poll::Ready(Ok(v)) => Poll::Ready(Ok(v)),
        Poll::Ready(Err(cause)) => Poll::Ready(Err(new_error(ErrorKind::Other, cause))),
    }
}

/// A stream wrapped for use from the other side.
pub struct Compat<T>(T);

impl<T> Compat<T> {
    /// The wrapped stream.
    pub closed spec fn inner(&self) -> &T {
        &self.0
    }

    /// Wraps `input`. Nothing is validated and nothing can fail.
    pub fn new(input: T) -> (c: Self)
        ensures
            *c.inner() == input,
    {
        Compat(input)
    }

    /// Gives the wrapped stream back.
    pub fn into_inner(self) -> (t: T)
        ensures
            t == *self.inner(),
    {
        self.0
    }
}

impl<T: AsyncRead> Compat<T> where T::Error: std::error::Error + Send + Sync + 'static {
    /// One `poll_read` of the wrapped stream, with its outcome normalized.
    pub fn poll_read(&mut self, cx: &mut Context<'_>, buf: &mut [u8]) -> (r: Poll<
        Result<usize, Error>,
    >)
        ensures
            exists|r0: Poll<Result<usize, T::Error>>|
                normalized(r0, r) && #[trigger] T::read_step(
                    old(self).inner(),
                    old(buf)@,
                    final(self).inner(),
                    final(buf)@,
                    r0,
                ),
            fills_front(old(buf)@, final(buf)@, r),
    {
        let r0 = self.0.poll_read(cx, buf);
        let ghost seen = r0;
        let r = normalize(r0);
        assert(T::read_step(old(self).inner(), old(buf)@, self.inner(), buf@, seen));
        r
    }
}

impl<T: AsyncWrite> Compat<T> where T::Error: std::error::Error + Send + Sync + 'static {
    /// One `poll_write` of the wrapped stream, with its outcome normalized.
    pub fn poll_write(&mut self, cx: &mut Context<'_>, buf: &[u8]) -> (r: Poll<
        Result<usize, Error>,
    >)
        ensures
            exists|r0: Poll<Result<usize, T::Error>>|
                normalized(r0, r) && #[trigger] T::write_step(
                    old(self).inner(),
                    buf@,
                    final(self).inner(),
                    r0,
                ),
            progress(r) <= buf@.len(),
            buf@.len() > 0 ==> r != done::<usize, Error>(0),
    {
        let r0 = self.0.poll_write(cx, buf);
        let ghost seen = r0;
        let r = normalize(r0);
        assert(T::write_step(old(self).inner(), buf@, self.inner(), seen));
        r
    }

    /// One `poll_flush` of the wrapped stream, with its outcome normalized.
    pub fn poll_flush(&mut self, cx: &mut Context<'_>) -> (r: Poll<Result<(), Error>>)
        ensures
            exists|r0: Poll<Result<(), T::Error>>|
                normalized(r0, r) && #[trigger] T::flush_step(
                    old(self).inner(),
                    final(self).inner(),
                    r0,
                ),
    {
        let r0 = self.0.poll_flush(cx);
        let ghost seen = r0;
        let r = normalize(r0);
        assert(T::flush_step(old(self).inner(), self.inner(), seen));
        r
    }

    /// One `poll_shutdown` of the wrapped stream, with its outcome
    /// normalized. The other side calls this operation by the same name.
    pub fn poll_shutdown(&mut self, cx: &mut Context<'_>) -> (r: Poll<Result<(), Error>>)
        ensures
            exists|r0: Poll<Result<(), T::Error>>|
                normalized(r0, r) && #[trigger] T::shutdown_step(
                    old(self).inner(),
                    final(self).inner(),
                    r0,
                ),
    {
        let r0 = self.0.poll_shutdown(cx);
        let ghost seen = r0;
        let r = normalize(r0);
        assert(T::shutdown_step(old(self).inner(), self.inner(), seen));
        r
    }
}

} // verus!
