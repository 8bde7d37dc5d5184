//! Taking a value out of a `&mut T`, transforming it, and putting a
//! replacement back.
//!
//! Ordinary mutable-reference semantics require a replacement value to exist
//! before the old value can be consumed. `take_no_exit` lifts that
//! restriction: it moves the value out of the location, hands it to a
//! one-shot transformation, and installs the transformation's result. While
//! the value is out, the location holds a placeholder described by the
//! [`Sentinel`] trait, so the location is a well-formed `T` at every moment
//! an outside observer could see it.

use vstd::prelude::*;

verus! {

/// An invalid but always-safe-to-discard placeholder value.
///
/// A type opts into the sentinel-based swap by designating one placeholder
/// value, constructing it on demand, and releasing it once the swap is over.
/// Release must only be applied to the value that construction produced for
/// the current operation; that obligation is expressed as the `requires`
/// clause of [`Sentinel::release_sentinel`] and is never checked at run
/// time.
pub trait Sentinel: Sized {
    /// The placeholder value this type designates.
    spec fn spec_sentinel() -> Self;

    /// Creates the sentinel.
    fn new_sentinel() -> (r: Self)
        ensures
            r == Self::spec_sentinel(),
    ;

    /// Releases the sentinel. Calling this indicates that nothing unexpected
    /// happened. The caller must make sure that the value this function is
    /// called with is the exact same value `new_sentinel` returned.
    fn release_sentinel(self)
        requires
            self == Self::spec_sentinel(),
    {
    }
}

/// The possibly-absent-value container participates with `None`, its
/// canonical absent state, as the sentinel; releasing presumes absence
/// without a check.
impl<T> Sentinel for Option<T> {
    open spec fn spec_sentinel() -> Self {
        None
    }

    fn new_sentinel() -> (r: Self) {
        None
    }
}

/// Replaces the value behind `mut_ref` with the result of applying `closure`
/// to it, leaving a sentinel in place of the original while the
/// transformation runs.
///
/// The displaced sentinel is released once the result is installed, so on a
/// normal return the location holds exactly what the transformation
/// produced and no sentinel leaks. A transformation that fails abnormally
/// leaves the location holding the sentinel — a well-formed, drop-safe `T`,
/// just not the caller's intended value — and the failure propagates to the
/// caller instead of terminating the process.
pub fn take_no_exit<T: Sentinel, F: FnOnce(T) -> T>(mut_ref: &mut T, closure: F)
    requires
        call_requires(closure, (*old(mut_ref),)),
    ensures
        call_ensures(closure, (*old(mut_ref),), *final(mut_ref)),
{
    let mut taken = T::new_sentinel();
    core::mem::swap(mut_ref, &mut taken);
    let mut fresh = closure(taken);
    core::mem::swap(mut_ref, &mut fresh);
    fresh.release_sentinel();
}

/// Round-trip law: when a transformation's behaviour is pinned to a
/// mathematical function `g` — every value it can return on input `x` equals
/// `g(x)` — a normally returning swap leaves the slot holding exactly `g` of
/// the original value, so no sentinel leaks into the final state.
///
/// `before` is the value the slot held when [`take_no_exit`] was called and
/// `after` the value it holds afterwards; the second premise is exactly what
/// [`take_no_exit`] ensures about the pair.
pub proof fn lemma_take_no_exit_exact<T, F: FnOnce(T) -> T>(
    closure: F,
    g: spec_fn(T) -> T,
    before: T,
    after: T,
)
    requires
        forall|x: T, r: T| call_ensures(closure, (x,), r) ==> r == g(x),
        call_ensures(closure, (before,), after),
    ensures
        after == g(before),
{
}

/// Identity law: a transformation that can only hand its argument back
/// unchanged leaves the slot's value unchanged through [`take_no_exit`].
pub proof fn lemma_take_no_exit_identity<T, F: FnOnce(T) -> T>(closure: F, before: T, after: T)
    requires
        forall|x: T, r: T| call_ensures(closure, (x,), r) ==> r == x,
        call_ensures(closure, (before,), after),
    ensures
        after == before,
{
}

} // verus!
