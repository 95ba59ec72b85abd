//! What a grid asks of the squares it stores, and the row it stores them in.

use crate::flags::Flags;
use vstd::prelude::*;

verus! {

/// A column of the grid, counted from the left edge; also a width in columns.
#[derive(Clone, Copy, Debug, PartialEq, Eq, Structural)]
pub struct Column(pub usize);

/// One row of the grid: its squares from left to right.
///
/// The view of a row is the sequence of its squares.
#[derive(Debug)]
pub struct Row<T> {
    pub inner: Vec<T>,
}

impl<T> View for Row<T> {
    type V = Seq<T>;

    open spec fn view(&self) -> Seq<T> {
        self.inner@
    }
}

impl<T> Row<T> {
    /// The row made of `inner`, first square leftmost.
    pub fn from_vec(inner: Vec<T>) -> (row: Row<T>)
        ensures
            row@ == inner@,
    {
        Row { inner }
    }

    /// The width of the row in columns.
    pub fn len(&self) -> (width: usize)
        ensures
            width == self@.len(),
    {
        self.inner.len()
    }
}

/// A square as the grid handles it when it scrolls, resizes and erases.
pub trait GridSquare: Sized {
    /// Whether the square shows nothing and may be trimmed or skipped.
    fn is_empty(&self) -> bool;

    /// Makes the square blank again, keeping of `template` what an erased
    /// square keeps.
    fn reset(&mut self, template: &Self);

    /// The style flags of the square.
    fn flags(&self) -> &Flags;

    /// The style flags of the square, to change them in place.
    fn flags_mut(&mut self) -> &mut Flags;
}

} // verus!
