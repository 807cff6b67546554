//! The vocabulary of one poll: its outcome and the scheduling context.

use core::task::{Context, Poll};
use vstd::prelude::*;

verus! {

/// `core::task::Poll`, with both of its variants open to contracts. An
/// operation's outcome is `Poll<Result<V, E>>`: ready with a value, ready
/// with a failure, or pending.
#[verifier::external_type_specification]
#[verifier::reject_recursive_types(T)]
pub struct ExPoll<T>(Poll<T>);

/// `core::task::Context`. It carries the waker from the scheduler to the
/// transport; the streams of this crate hand it on and never look inside.
#[verifier::external_type_specification]
#[verifier::external_body]
pub struct ExContext<'a>(Context<'a>);

/// The number of bytes that an outcome reports as moved: the count of a
/// success, and nothing for a failure or for a stream that was not ready.
pub open spec fn progress<E>(r: Poll<Result<usize, E>>) -> nat {
    match r {
        Poll::Ready(Ok(n)) => n as nat,
        _ => 0,
    }
}

/// The outcome that succeeds with `v`.
pub open spec fn done<V, E>(v: V) -> Poll<Result<V, E>> {
    Poll::Ready(Ok(v))
}

} // verus!
