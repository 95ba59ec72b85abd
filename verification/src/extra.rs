//! Storage for what only a few squares carry.

use vstd::prelude::*;

verus! {

/// Square content that is allocated on demand.
///
/// Most squares never need it, so a square holds it behind an optional shared
/// handle. The view of a value is the sequence of zero-width characters
/// attached to the square's own character, oldest first. Two values are equal
/// when their views are.
#[derive(Debug)]
pub struct CellExtra {
    zerowidth: Vec<char>,
}

impl View for CellExtra {
    type V = Seq<char>;

    closed spec fn view(&self) -> Seq<char> {
        self.zerowidth@
    }
}

impl Default for CellExtra {
    fn default() -> (extra: CellExtra)
        ensures
            extra@ == Seq::<char>::empty(),
    {
        CellExtra { zerowidth: Vec::new() }
    }
}

impl Clone for CellExtra {
    fn clone(&self) -> (copy: CellExtra)
        ensures
            copy@ == self@,
    {
        let zerowidth = self.zerowidth.clone();
        assert(zerowidth@ =~= self.zerowidth@);
        CellExtra { zerowidth }
    }
}

impl PartialEq for CellExtra {
    fn eq(&self, other: &CellExtra) -> (equal: bool) {
        let n = self.zerowidth.len();
        if other.zerowidth.len() != n {
            return false;
        }
        let mut i: usize = 0;
        while i < n
            invariant
                n == self.zerowidth@.len(),
                n == other.zerowidth@.len(),
                i <= n,
                forall|j: int| 0 <= j < i ==> self.zerowidth@[j] == other.zerowidth@[j],
            decreases n - i,
        {
            if self.zerowidth[i] != other.zerowidth[i] {
                return false;
            }
            i += 1;
        }
        assert(self.zerowidth@ =~= other.zerowidth@);
        true
    }
}

impl vstd::std_specs::cmp::PartialEqSpecImpl for CellExtra {
    open spec fn obeys_eq_spec() -> bool {
        true
    }

    open spec fn eq_spec(&self, other: &CellExtra) -> bool {
        self@ == other@
    }
}

impl Eq for CellExtra {}

impl CellExtra {
    /// The attached zero-width characters, oldest first.
    pub fn zerowidth(&self) -> (chars: &[char])
        ensures
            chars@ == self@,
    {
        self.zerowidth.as_slice()
    }

    /// Attaches `character` after those already there.
    pub(crate) fn push(&mut self, character: char)
        ensures
            final(self)@ == old(self)@.push(character),
    {
        self.zerowidth.push(character);
    }

    /// Drops every attached character.
    pub(crate) fn clear(&mut self)
        ensures
            final(self)@ == Seq::<char>::empty(),
    {
        self.zerowidth = Vec::new();
    }
}

} // verus!
