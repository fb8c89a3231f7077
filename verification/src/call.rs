//! Calls whose result is known to have come from the call.
use vstd::prelude::*;

verus! {

/// The result of `f` on `a`.
///
/// For a contract that speaks of what a call gave, where that is not a function
/// of the arguments: the result is one that this very call may give.
pub(crate) fn apply<A, R, F: FnOnce(A) -> R>(f: F, a: A) -> (r: R)
    requires
        call_requires(f, (a,)),
    ensures
        call_ensures(f, (a,), r),
{
    f(a)
}

} // verus!
