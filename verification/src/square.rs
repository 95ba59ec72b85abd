//! The square: one cell of the terminal grid.

use crate::color::AnsiColor;
use crate::color::NamedColor;
use crate::extra::CellExtra;
use crate::flags::Flags;
use crate::flags::INVERSE;
use crate::flags::LEADING_WIDE_CHAR_SPACER;
use crate::flags::STRIKEOUT;
use crate::flags::WIDE_CHAR;
use crate::flags::WIDE_CHAR_SPACER;
use crate::flags::WRAPLINE;
use crate::grid::GridSquare;
use std::sync::Arc;
use vstd::prelude::*;

verus! {

/// The flags that keep a square from being empty.
pub const SHOWN_WHEN_BLANK: u16 = INVERSE | STRIKEOUT | WRAPLINE | WIDE_CHAR_SPACER
    | LEADING_WIDE_CHAR_SPACER;

/// Content and attributes of a single cell in the terminal grid.
///
/// The rarely used content sits behind a shared handle: copies of a square
/// point to one allocation until one of them writes to it, and the writer then
/// gets an allocation of its own.
#[derive(Debug)]
pub struct Square {
    pub c: char,
    pub fg: AnsiColor,
    pub bg: AnsiColor,
    pub extra: Option<Arc<CellExtra>>,
    pub flags: Flags,
}

/// What a square is, whoever it shares its storage with.
pub struct SquareModel {
    pub c: char,
    pub fg: AnsiColor,
    pub bg: AnsiColor,
    /// The attached zero-width characters, or `None` where the square has no
    /// storage for them.
    pub zerowidth: Option<Seq<char>>,
    /// The bit pattern of the style flags.
    pub flags: u16,
}

impl SquareModel {
    /// The zero-width characters attached to the square; none where it has no
    /// storage for them.
    pub open spec fn attached(self) -> Seq<char> {
        match self.zerowidth {
            Some(chars) => chars,
            None => Seq::empty(),
        }
    }

    /// The square with `character` attached after the zero-width characters
    /// it has already, and nothing else changed.
    pub open spec fn pushed(self, character: char) -> SquareModel {
        SquareModel { zerowidth: Some(self.attached().push(character)), ..self }
    }

    /// The square that an erased cell becomes: a space in the default
    /// foreground on the background `bg`, with no flag and no storage.
    pub open spec fn blank(bg: AnsiColor) -> SquareModel {
        SquareModel {
            c: ' ',
            fg: AnsiColor::Named(NamedColor::Foreground),
            bg,
            zerowidth: None,
            flags: 0,
        }
    }

    /// Whether the square shows nothing: its character is a space or a tab,
    /// none of the flags that show on an empty cell or tie it to a neighbour
    /// is set, and no zero-width character is attached.
    pub open spec fn is_empty(self) -> bool {
        &&& (self.c == ' ' || self.c == '\t')
        &&& !crate::flags::overlaps(self.flags, SHOWN_WHEN_BLANK)
        &&& self.attached().len() == 0
    }
}

impl View for Square {
    type V = SquareModel;

    open spec fn view(&self) -> SquareModel {
        SquareModel {
            c: self.c,
            fg: self.fg,
            bg: self.bg,
            zerowidth: match self.extra {
                Some(extra) => Some(extra@),
                None => None,
            },
            flags: self.flags@,
        }
    }
}

/// Calls `Arc::make_mut`: the storage behind `handle`, to write to it. Where
/// other handles point to the same allocation, the content is first cloned
/// into an allocation that `handle` alone points to, so what is returned
/// starts out with the content that `handle` had, and `handle` ends up with
/// whatever the caller leaves there.
#[verifier::external_body]
fn make_mut(handle: &mut Arc<CellExtra>) -> (extra: &mut CellExtra)
    ensures
        extra@ == old(handle)@,
        final(handle)@ == final(extra)@,
{
    Arc::make_mut(handle)
}

/// Calls `Arc::clone`: a second handle to the allocation that `handle` points
/// to, and so to the same content.
#[verifier::external_body]
fn share(handle: &Arc<CellExtra>) -> (shared: Arc<CellExtra>)
    ensures
        shared == *handle,
{
    Arc::clone(handle)
}

impl Default for Square {
    fn default() -> (square: Square)
        ensures
            square@ == SquareModel::blank(AnsiColor::Named(NamedColor::Black)),
    {
        Square {
            c: ' ',
            bg: AnsiColor::Named(NamedColor::Black),
            fg: AnsiColor::Named(NamedColor::Foreground),
            extra: None,
            flags: Flags::empty(),
        }
    }
}

impl Square {
    /// The zero-width characters attached to the square, where it has storage
    /// for them.
    pub fn zerowidth(&self) -> (chars: Option<&[char]>)
        ensures
            match chars {
                Some(chars) => self@.zerowidth == Some(chars@),
                None => self@.zerowidth is None,
            },
    {
        match &self.extra {
            Some(extra) => Some(extra.zerowidth()),
            None => None,
        }
    }

    /// Write a new zerowidth character to this cell.
    pub fn push_zerowidth(&mut self, character: char)
        ensures
            final(self)@ == old(self)@.pushed(character),
    {
        let handle = self.extra.get_or_insert(Default::default());
        make_mut(handle).push(character);
    }

    /// Turns one half of a wide character back into a blank: the character
    /// becomes a space, the wide-character flag goes, and the attached
    /// characters are dropped.
    pub fn clear_wide(&mut self)
        ensures
            final(self)@ == (SquareModel {
                c: ' ',
                flags: old(self)@.flags & !WIDE_CHAR,
                zerowidth: match old(self)@.zerowidth {
                    Some(_) => Some(Seq::empty()),
                    None => None,
                },
                ..old(self)@
            }),
            !crate::flags::covers(final(self)@.flags, WIDE_CHAR),
            final(self)@.attached().len() == 0,
    {
        self.flags.remove(Flags::wide_char());
        match self.extra.as_mut() {
            Some(handle) => {
                make_mut(handle).clear();
            },
            None => {},
        }
        self.c = ' ';
        proof {
            crate::flags::lemma_inserted_is_held_removed_is_gone(old(self).flags@, WIDE_CHAR);
        }
    }
}

/// Attaching a character to a square changes that square alone. A second
/// square that shares its storage, as a copy does, goes on showing the
/// characters that both had before, and the first shows those and the new one.
pub proof fn lemma_push_zerowidth_spares_sharers(square: Square, sharer: Square, character: char)
    requires
        square.extra is Some,
        sharer.extra == square.extra,
    ensures
        sharer@.zerowidth == square@.zerowidth,
        square@.pushed(character).attached() == sharer@.attached().push(character),
        square@.pushed(character).attached() != sharer@.attached(),
{
    assert(sharer@.attached().push(character).len() != sharer@.attached().len());
}

impl Clone for Square {
    /// A copy that shares the storage of `self` rather than duplicating it.
    fn clone(&self) -> (copy: Square)
        ensures
            copy == *self,
    {
        Square {
            c: self.c,
            fg: self.fg,
            bg: self.bg,
            extra: match &self.extra {
                Some(handle) => Some(share(handle)),
                None => None,
            },
            flags: self.flags,
        }
    }
}

impl PartialEq for Square {
    fn eq(&self, other: &Square) -> (equal: bool) {
        self.c == other.c && self.fg == other.fg && self.bg == other.bg && match (
            &self.extra,
            &other.extra,
        ) {
            (Some(left), Some(right)) => {
                let left: &CellExtra = left;
                let right: &CellExtra = right;
                left == right
            },
            (None, None) => true,
            _ => false,
        } && self.flags.bits() == other.flags.bits()
    }
}

impl vstd::std_specs::cmp::PartialEqSpecImpl for Square {
    open spec fn obeys_eq_spec() -> bool {
        true
    }

    open spec fn eq_spec(&self, other: &Square) -> bool {
        self@ == other@
    }
}

impl GridSquare for Square {
    fn is_empty(&self) -> (empty: bool)
        ensures
            empty == self@.is_empty(),
    {
        (self.c == ' ' || self.c == '\t') && !self.flags.intersects(
            Flags::inverse().union(Flags::strikeout()).union(Flags::wrapline()).union(
                Flags::wide_char_spacer(),
            ).union(Flags::leading_wide_char_spacer()),
        ) && match &self.extra {
            Some(extra) => extra.zerowidth().len() == 0,
            None => true,
        }
    }

    fn reset(&mut self, template: &Square)
        ensures
            final(self)@ == SquareModel::blank(template@.bg),
    {
        let blank = Square::default();
        *self = Square { bg: template.bg, ..blank };
    }

    fn flags(&self) -> (flags: &Flags)
        ensures
            *flags == self.flags,
    {
        &self.flags
    }

    fn flags_mut(&mut self) -> (flags: &mut Flags)
        ensures
            *flags == old(self).flags,
            *final(self) == (Square { flags: *final(flags), ..*old(self) }),
    {
        &mut self.flags
    }
}

} // verus!
