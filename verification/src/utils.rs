//! Small helpers.

use vstd::prelude::*;

verus! {

/// Whether two texts hold the same characters.
pub(crate) fn same_text(text: &str, other: &str) -> (same: bool)
    ensures
        same == (text@ == other@),
{
    text.to_owned() == other.to_owned()
}

/// A wrapper around the value that one context owns. It gives the value
/// out by reference, and shares it no further than the value itself
/// allows.
pub struct UnsafeSync<T> {
    value: T,
}

impl<T> UnsafeSync<T> {
    /// The value in the wrapper.
    pub closed spec fn inner(&self) -> T {
        self.value
    }

    /// Wraps a value.
    pub fn new(value: T) -> (wrapped: Self)
        ensures
            wrapped.inner() == value,
    {
        Self { value }
    }
}

impl<T> std::ops::Deref for UnsafeSync<T> {
    type Target = T;

    fn deref(&self) -> (value: &T)
        ensures
            *value == self.inner(),
    {
        &self.value
    }
}

impl<T> std::ops::DerefMut for UnsafeSync<T> {
    fn deref_mut(&mut self) -> (value: &mut T)
        ensures
            *value == old(self).inner(),
            final(self).inner() == *final(value),
    {
        &mut self.value
    }
}

} // verus!
