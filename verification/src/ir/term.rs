//! Shared terms.

use std::sync::Arc;
use vstd::prelude::*;

verus! {

/// An immutable term that any number of owners share.
pub type Term<T> = Arc<T>;

/// Calls `Arc::clone`. Claims that the copy points to the same term.
#[verifier::external_body]
pub(crate) fn share<T>(term: &Term<T>) -> (copy: Term<T>)
    ensures
        copy == *term,
{
    Arc::clone(term)
}

/// Calls `Arc::make_mut`. Claims that it hands out the term, or a clone of it
/// where it is shared, and that what the owner then holds is what becomes of
/// that.
#[verifier::external_body]
pub(crate) fn make_mut<T: Clone>(term: &mut Term<T>) -> (inner: &mut T)
    ensures
        cloned(**old(term), *inner),
        **final(term) == *final(inner),
{
    Arc::make_mut(term)
}

} // verus!
