//! Shared records.

use std::rc::Rc;
use vstd::prelude::*;

verus! {

/// Another handle to the same shared value.
///
/// Calls `Rc::clone` of the standard library, which makes a new pointer to the same
/// allocation and leaves the value alone: the result and the argument hold the
/// same value.
#[verifier::external_body]
pub(crate) fn share<T>(handle: &Rc<T>) -> (r: Rc<T>)
    ensures
        r == *handle,
{
    Rc::clone(handle)
}

} // verus!
