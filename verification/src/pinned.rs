//! Streams behind a pinned pointer.
//!
//! Two pinned pointers are served: a pinned box and a pinned unique borrow.
//! Either leads to one target, and borrowing through it uniquely reaches
//! that same target.

use core::ops::{Deref, DerefMut};
use core::pin::Pin;
use vstd::prelude::*;

verus! {

/// `core::pin::Pin`, opaque to proofs.
#[verifier::external_type_specification]
#[verifier::external_body]
#[verifier::reject_recursive_types(P)]
pub struct ExPin<P>(Pin<P>);

/// Whether `target` is what dereferencing `ptr` gives.
pub open spec fn leads_to<D: Deref>(ptr: &D, target: &D::Target) -> bool {
    D::deref.ensures((ptr,), target)
}

/// Whether `target` is what dereferencing `ptr` gives, and nothing else is.
pub open spec fn leads_only_to<D: Deref>(ptr: &D, target: &D::Target) -> bool {
    &&& leads_to(ptr, target)
    &&& forall|other: &D::Target| #[trigger] leads_to(ptr, other) ==> other == target
}

/// `DerefMut::deref_mut` of a pinned box: the unique borrow of what is in
/// the box, which may be had because the target is `Unpin`. A pinned box
/// dereferences to what is in the box and to nothing else, uniquely borrowed
/// or not: the borrow starts at that target, and what it holds when it ends
/// is the one target from then on.
#[verifier::external_body]
pub(crate) fn boxed_target_mut<T: ?Sized + Unpin>(pin: &mut Pin<Box<T>>) -> (t: &mut T)
    ensures
        leads_only_to(old(pin), &*t),
        leads_only_to(final(pin), &*final(t)),
{
    pin.deref_mut()
}

/// `DerefMut::deref_mut` of a pinned unique borrow: the reborrow of what was
/// borrowed, which may be had because the target is `Unpin`. A pinned borrow
/// dereferences to what was borrowed and to nothing else, uniquely borrowed
/// or not: the reborrow starts at that target, and what it holds when it
/// ends is the one target from then on.
#[verifier::external_body]
pub(crate) fn borrowed_target_mut<'a, 'b, T: ?Sized + Unpin>(pin: &'a mut Pin<&'b mut T>) -> (t:
    &'a mut T)
    ensures
        leads_only_to(old(pin), &*t),
        leads_only_to(final(pin), &*final(t)),
{
    pin.deref_mut()
}

} // verus!
