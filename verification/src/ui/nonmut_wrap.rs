//! A wrapper that shows a widget a part of the data.

use std::marker::PhantomData;
use vstd::prelude::*;

verus! {

/// Similar to a `LensWrap`, but does not require a mutable reference: the
/// child sees what the accessor makes of the outer data.
pub struct NonMutWrap<T, U, A, W> {
    child: W,
    accessor: A,
    /// The inner data type.
    phantom_u: PhantomData<U>,
    /// The outer data type.
    phantom_t: PhantomData<T>,
}

impl<T, U, A, W> NonMutWrap<T, U, A, W> {
    /// The wrapped widget.
    pub closed spec fn child_of(&self) -> W {
        self.child
    }

    /// The function from the outer data to the inner.
    pub closed spec fn accessor_of(&self) -> A {
        self.accessor
    }

    pub fn new(child: W, accessor: A) -> (wrap: Self)
        ensures
            wrap.child_of() == child,
            wrap.accessor_of() == accessor,
    {
        Self { child, accessor, phantom_u: PhantomData, phantom_t: PhantomData }
    }

    /// The wrapped widget.
    pub fn child(&self) -> (child: &W)
        ensures
            *child == self.child_of(),
    {
        &self.child
    }

    /// The wrapped widget, to change.
    pub fn child_mut(&mut self) -> (child: &mut W)
        ensures
            *child == old(self).child_of(),
            final(self).child_of() == *final(child),
            final(self).accessor_of() == old(self).accessor_of(),
    {
        &mut self.child
    }

    /// The data that the child sees for the outer `data`: what the accessor
    /// returns for it.
    pub fn inner_data(&self, data: &T) -> (inner: U) where A: Fn(&T) -> U
        requires
            call_requires(self.accessor_of(), (data,)),
        ensures
            call_ensures(self.accessor_of(), (data,), inner),
    {
        (self.accessor)(data)
    }
}

/// A trait for convenience. Implemented by widgets that can be wrapped in a `NonMutWrap`.
pub trait NonMutWrappable<T, U, A> {
    type Wrapped;

    fn nonmut_wrap(self, accessor: A) -> Self::Wrapped;
}

impl<T, U, A, W> NonMutWrappable<T, U, A> for W {
    type Wrapped = NonMutWrap<T, U, A, Self>;

    fn nonmut_wrap(self, accessor: A) -> (wrap: Self::Wrapped)
        ensures
            NonMutWrap::<T, U, A, W>::child_of(&wrap) == self,
            NonMutWrap::<T, U, A, W>::accessor_of(&wrap) == accessor,
    {
        NonMutWrap::new(self, accessor)
    }
}

} // verus!
