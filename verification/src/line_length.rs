//! How much of a row is taken up by content.

use crate::flags::Flags;
use crate::flags::WRAPLINE;
use crate::grid::Column;
use crate::grid::Row;
use crate::square::Square;
use crate::square::SquareModel;
use vstd::prelude::*;

verus! {

/// Whether the square counts toward the length of its row: its character is
/// not a space, or a zero-width character is attached to it. Its flags and
/// colors play no part.
pub open spec fn occupies(square: SquareModel) -> bool {
    square.c != ' ' || square.attached().len() > 0
}

/// The number of columns up to and including the last square that counts, or
/// 0 where none does.
pub open spec fn occupied_width(row: Seq<Square>) -> nat
    decreases row.len(),
{
    if row.len() == 0 {
        0
    } else if occupies(row.last()@) {
        row.len()
    } else {
        occupied_width(row.drop_last())
    }
}

/// Whether the row goes on in the next one: its last square carries the
/// wrap flag.
pub open spec fn wraps(row: Seq<Square>) -> bool {
    row.len() > 0 && crate::flags::covers(row.last()@.flags, WRAPLINE)
}

/// The occupied length of a row: all of it where the row wraps, since the
/// blanks at the end of a wrapped row belong to the line; else its width up to
/// the last square that counts.
pub open spec fn occupied_length(row: Seq<Square>) -> nat {
    if wraps(row) {
        row.len()
    } else {
        occupied_width(row)
    }
}

/// Whether the content of the row ends at `width`: no square from column
/// `width` on counts, and the square before it, if there is one, does.
pub open spec fn content_ends_at(row: Seq<Square>, width: nat) -> bool {
    &&& width <= row.len()
    &&& forall|i: int| width <= i < row.len() ==> !occupies(#[trigger] row[i]@)
    &&& width > 0 ==> occupies(row[width - 1]@)
}

/// The content of a row ends at its occupied width.
proof fn lemma_content_ends_at_occupied_width(row: Seq<Square>)
    ensures
        content_ends_at(row, occupied_width(row)),
    decreases row.len(),
{
    if row.len() > 0 && !occupies(row.last()@) {
        let front = row.drop_last();
        lemma_content_ends_at_occupied_width(front);
        assert forall|i: int| occupied_width(row) <= i < row.len() implies !occupies(
            #[trigger] row[i]@,
        ) by {
            if i < front.len() {
                assert(row[i] == front[i]);
            }
        }
    }
}

/// The occupied width of a row is the one place where its content ends: the
/// column after the last square that counts, or 0 where no square does.
pub proof fn lemma_occupied_width_is_where_content_ends(row: Seq<Square>, width: nat)
    ensures
        content_ends_at(row, width) <==> width == occupied_width(row),
{
    lemma_content_ends_at_occupied_width(row);
    let occupied = occupied_width(row);
    if content_ends_at(row, width) {
        if width < occupied {
            assert(!occupies(row[occupied - 1]@));
        }
        if occupied < width {
            assert(!occupies(row[width - 1]@));
        }
    }
}

pub trait LineLength {
    /// Calculate the occupied line length.
    fn line_length(&self) -> Column;
}

impl LineLength for Row<Square> {
    fn line_length(&self) -> (length: Column)
        ensures
            length.0 == occupied_length(self@),
            length.0 <= self@.len(),
            wraps(self@) ==> length.0 == self@.len(),
            !wraps(self@) ==> content_ends_at(self@, length.0 as nat),
    {
        proof {
            lemma_content_ends_at_occupied_width(self@);
        }
        let width = self.len();
        if width == 0 {
            return Column(0);
        }
        if self.inner[width - 1].flags.contains(Flags::wrapline()) {
            return Column(width);
        }
        let mut length = width;
        assert(self@.take(width as int) =~= self@);
        while length > 0
            invariant
                length <= width,
                width == self@.len(),
                occupied_width(self@) == occupied_width(self@.take(length as int)),
            ensures
                length == 0 || occupies(self@.take(length as int).last()@),
            decreases length,
        {
            let cell = &self.inner[length - 1];
            let has_zerowidth = match cell.zerowidth() {
                Some(chars) => chars.len() > 0,
                None => false,
            };
            assert(self@.take(length as int).last() == *cell);
            if cell.c != ' ' || has_zerowidth {
                break;
            }
            assert(self@.take(length as int).drop_last() =~= self@.take(length - 1));
            length -= 1;
        }
        Column(length)
    }
}

} // verus!
