//! Pairs of coordinates.

use vstd::prelude::*;

verus! {

/// A point or a displacement in two dimensions.
#[derive(Clone, Copy, Debug, PartialEq, Eq)]
pub struct Vec2<T> {
    pub x: T,
    pub y: T,
}

} // verus!
