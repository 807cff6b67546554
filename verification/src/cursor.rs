//! The cursor over a buffer that is being written out.
//!
//! A `bytes::Bytes` holds the bytes that still have to go out. Writing
//! consumes them from the front, and only
//! [`poll_write_buf`](crate::write::AsyncWrite::poll_write_buf) does so.
//! What is decided on a cursor's answers is decided in
//! [`poll_write_region`](crate::write::AsyncWrite::poll_write_region), which
//! takes those answers as plain values and so serves any other cursor too.

use bytes::{Buf, Bytes};
use vstd::prelude::*;

verus! {

/// `bytes::Bytes`, opaque to proofs; [`unread`] says what it holds.
#[verifier::external_type_specification]
#[verifier::external_body]
pub struct ExBytes(Bytes);

/// The bytes of a cursor that have not been consumed yet, front first.
pub uninterp spec fn unread(buf: Bytes) -> Seq<u8>;

/// `Buf::remaining` on a `Bytes`: how many bytes are left. `Bytes` counts
/// as remaining exactly the bytes it holds.
#[verifier::external_body]
pub(crate) fn remaining(buf: &Bytes) -> (n: usize)
    ensures
        n == unread(*buf).len(),
{
    buf.remaining()
}

/// `Buf::bytes` on a `Bytes`: the unconsumed region. A `Bytes` is one
/// contiguous slice, so the region is all of what is left.
#[verifier::external_body]
pub(crate) fn chunk(buf: &Bytes) -> (s: &[u8])
    ensures
        s@ == unread(*buf),
{
    buf.bytes()
}

/// `Buf::advance` on a `Bytes`: drops the first `cnt` bytes. The call
/// panics when `cnt` is more than what is left, so that is ruled out.
#[verifier::external_body]
pub(crate) fn advance(buf: &mut Bytes, cnt: usize)
    requires
        cnt <= unread(*old(buf)).len(),
    ensures
        unread(*final(buf)) == unread(*old(buf)).skip(cnt as int),
{
    buf.advance(cnt)
}

} // verus!
