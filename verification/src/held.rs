//! A holder for trait objects.
//!
//! A chain keeps its strategies as boxed trait objects, and the service
//! shares its flows. Held in a struct of known size they can stand in
//! sequences and maps that contracts speak of.

use vstd::prelude::*;
use std::sync::Arc;

verus! {

/// A box in a struct of known size.
pub struct Held<S: ?Sized> {
    /// What is held.
    pub inner: Box<S>,
}

impl<S: ?Sized> Held<S> {
    /// Holds `inner`.
    pub fn new(inner: Box<S>) -> (held: Self)
        ensures
            held.inner == inner,
    {
        Held { inner }
    }
}

/// `Arc::clone`: another pointer to the same value.
#[verifier::external_body]
pub(crate) fn arc_clone<S: ?Sized>(shared: &Arc<S>) -> (copy: Arc<S>)
    ensures
        copy == *shared,
{
    shared.clone()
}

/// A shared pointer in a struct of known size.
pub struct Shared<S: ?Sized> {
    /// What is shared.
    pub inner: Arc<S>,
}

impl<S: ?Sized> Shared<S> {
    /// Shares `inner`.
    pub fn new(inner: Arc<S>) -> (shared: Self)
        ensures
            shared.inner == inner,
    {
        Shared { inner }
    }
}

impl<S: ?Sized> Clone for Shared<S> {
    fn clone(&self) -> (copy: Self)
        ensures
            copy == *self,
    {
        Shared { inner: arc_clone(&self.inner) }
    }
}

} // verus!
