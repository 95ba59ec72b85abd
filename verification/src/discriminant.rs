//! A cheap stand-in for comparing whole values when a region is reset.
//!
//! Before it rewrites a square, a bulk reset compares the discriminant that the
//! square has with the one it is about to get, and leaves the square alone
//! where the two agree.

use crate::color::AnsiColor;
use crate::square::Square;
use vstd::prelude::*;

verus! {

pub trait ResetDiscriminant<T> {
    /// Value based on which equality for the reset will be determined.
    fn discriminant(&self) -> T;
}

/// A plain value stands for itself.
impl<T: Copy> ResetDiscriminant<T> for T {
    fn discriminant(&self) -> (value: T)
        ensures
            value == *self,
    {
        *self
    }
}

/// A square stands for its background: a reset changes nothing to see where
/// the background stays the same.
impl ResetDiscriminant<AnsiColor> for Square {
    fn discriminant(&self) -> (color: AnsiColor)
        ensures
            color == self@.bg,
    {
        self.bg
    }
}

} // verus!
