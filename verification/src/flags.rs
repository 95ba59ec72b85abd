//! The style-flag set of a square: fifteen display attributes packed into
//! sixteen bits.
//!
//! Two of the named patterns, [`BOLD_ITALIC`] and [`DIM_BOLD`], are not bits of
//! their own: each is the union of two single attributes, so that a consumer
//! who tests for one of the components finds it in the combination.

use vstd::prelude::*;

verus! {

/// Foreground and background swapped.
pub const INVERSE: u16 = 0b0000_0000_0000_0001;

/// Bold weight.
pub const BOLD: u16 = 0b0000_0000_0000_0010;

/// Italic slant.
pub const ITALIC: u16 = 0b0000_0000_0000_0100;

/// Bold and italic together: the union of the two.
pub const BOLD_ITALIC: u16 = 0b0000_0000_0000_0110;

/// A single underline.
pub const UNDERLINE: u16 = 0b0000_0000_0000_1000;

/// The row goes on in the next row: set on the last square of a soft-wrapped row.
pub const WRAPLINE: u16 = 0b0000_0000_0001_0000;

/// The character takes two columns.
pub const WIDE_CHAR: u16 = 0b0000_0000_0010_0000;

/// The column after a wide character, which that character covers.
pub const WIDE_CHAR_SPACER: u16 = 0b0000_0000_0100_0000;

/// Dim intensity.
pub const DIM: u16 = 0b0000_0000_1000_0000;

/// Dim and bold together: the union of the two.
pub const DIM_BOLD: u16 = 0b0000_0000_1000_0010;

/// Not shown.
pub const HIDDEN: u16 = 0b0000_0001_0000_0000;

/// Struck through.
pub const STRIKEOUT: u16 = 0b0000_0010_0000_0000;

/// The last column of a row, left free because the wide character that follows did not fit.
pub const LEADING_WIDE_CHAR_SPACER: u16 = 0b0000_0100_0000_0000;

/// A double underline.
pub const DOUBLE_UNDERLINE: u16 = 0b0000_1000_0000_0000;

/// A curly underline.
pub const UNDERCURL: u16 = 0b0001_0000_0000_0000;

/// A dotted underline.
pub const DOTTED_UNDERLINE: u16 = 0b0010_0000_0000_0000;

/// A dashed underline.
pub const DASHED_UNDERLINE: u16 = 0b0100_0000_0000_0000;

/// Every bit that belongs to a defined flag.
pub const ALL: u16 = 0b0111_1111_1111_1111;

/// Whether every bit of `mask` is set in `set`.
pub open spec fn covers(set: u16, mask: u16) -> bool {
    set & mask == mask
}

/// Whether `set` and `mask` have a set bit in common.
pub open spec fn overlaps(set: u16, mask: u16) -> bool {
    set & mask != 0
}

/// A set of display attributes.
///
/// The view of a value is its bit pattern. A value never holds a bit outside
/// [`ALL`]: it can only be made from the named patterns, from a pattern that
/// was checked or cut down to the defined bits, and from unions and
/// differences of such values.
#[derive(Clone, Copy, Debug, PartialEq, Eq, Structural)]
pub struct Flags {
    bits: u16,
}

impl View for Flags {
    type V = u16;

    closed spec fn view(&self) -> u16 {
        self.bits
    }
}

/// A pattern is made of defined bits exactly when it is no greater than
/// [`ALL`]. Cutting a pattern down to the defined bits, and uniting or
/// subtracting patterns made of defined bits, gives such a pattern again.
proof fn lemma_defined_bits(a: u16, b: u16)
    by (bit_vector)
    ensures
        a & !ALL == 0 <==> a <= ALL,
        a & ALL == a <==> a <= ALL,
        a & ALL <= ALL,
        a <= ALL && b <= ALL ==> (a | b) <= ALL,
        a <= ALL ==> (a & !b) <= ALL,
{
}

/// Each combined pattern is the union of its two components, so a set holds
/// the combination exactly when it holds both components.
pub proof fn lemma_combinations_are_unions(set: u16)
    by (bit_vector)
    ensures
        BOLD_ITALIC == BOLD | ITALIC,
        DIM_BOLD == DIM | BOLD,
        covers(set, BOLD_ITALIC) <==> covers(set, BOLD) && covers(set, ITALIC),
        covers(set, DIM_BOLD) <==> covers(set, DIM) && covers(set, BOLD),
{
}

/// Once `mask` is inserted into a set, the set holds all of it; once `mask` is
/// removed, the set holds none of it.
pub proof fn lemma_inserted_is_held_removed_is_gone(set: u16, mask: u16)
    by (bit_vector)
    ensures
        covers(set | mask, mask),
        !overlaps(set & !mask, mask),
        mask != 0 ==> !covers(set & !mask, mask),
{
}

/// Inserting `mask`, removing it, or inserting and then removing it, changes
/// nothing about the flags that share no bit with `mask`: a set holds all of
/// `other`, or some of `other`, after the change exactly when it did before.
pub proof fn lemma_disjoint_flags_are_independent(set: u16, mask: u16, other: u16)
    by (bit_vector)
    requires
        !overlaps(mask, other),
    ensures
        covers(set | mask, other) == covers(set, other),
        covers(set & !mask, other) == covers(set, other),
        covers((set | mask) & !mask, other) == covers(set, other),
        overlaps(set | mask, other) == overlaps(set, other),
        overlaps(set & !mask, other) == overlaps(set, other),
        overlaps((set | mask) & !mask, other) == overlaps(set, other),
{
}

impl Flags {
    #[verifier::type_invariant]
    spec fn defined_bits_only(self) -> bool {
        self.bits <= ALL
    }

    /// The set with no attribute.
    pub fn empty() -> (flags: Flags)
        ensures
            flags@ == 0,
    {
        Flags { bits: 0 }
    }

    /// The set with every attribute.
    pub fn all() -> (flags: Flags)
        ensures
            flags@ == ALL,
    {
        Flags { bits: ALL }
    }

    /// The set that holds [`INVERSE`] and nothing else.
    pub fn inverse() -> (flags: Flags)
        ensures
            flags@ == INVERSE,
    {
        Flags { bits: INVERSE }
    }

    /// The set that holds [`BOLD`] and nothing else.
    pub fn bold() -> (flags: Flags)
        ensures
            flags@ == BOLD,
    {
        Flags { bits: BOLD }
    }

    /// The set that holds [`ITALIC`] and nothing else.
    pub fn italic() -> (flags: Flags)
        ensures
            flags@ == ITALIC,
    {
        Flags { bits: ITALIC }
    }

    /// The set that holds [`BOLD_ITALIC`] and nothing else.
    pub fn bold_italic() -> (flags: Flags)
        ensures
            flags@ == BOLD_ITALIC,
    {
        Flags { bits: BOLD_ITALIC }
    }

    /// The set that holds [`UNDERLINE`] and nothing else.
    pub fn underline() -> (flags: Flags)
        ensures
            flags@ == UNDERLINE,
    {
        Flags { bits: UNDERLINE }
    }

    /// The set that holds [`WRAPLINE`] and nothing else.
    pub fn wrapline() -> (flags: Flags)
        ensures
            flags@ == WRAPLINE,
    {
        Flags { bits: WRAPLINE }
    }

    /// The set that holds [`WIDE_CHAR`] and nothing else.
    pub fn wide_char() -> (flags: Flags)
        ensures
            flags@ == WIDE_CHAR,
    {
        Flags { bits: WIDE_CHAR }
    }

    /// The set that holds [`WIDE_CHAR_SPACER`] and nothing else.
    pub fn wide_char_spacer() -> (flags: Flags)
        ensures
            flags@ == WIDE_CHAR_SPACER,
    {
        Flags { bits: WIDE_CHAR_SPACER }
    }

    /// The set that holds [`DIM`] and nothing else.
    pub fn dim() -> (flags: Flags)
        ensures
            flags@ == DIM,
    {
        Flags { bits: DIM }
    }

    /// The set that holds [`DIM_BOLD`] and nothing else.
    pub fn dim_bold() -> (flags: Flags)
        ensures
            flags@ == DIM_BOLD,
    {
        Flags { bits: DIM_BOLD }
    }

    /// The set that holds [`HIDDEN`] and nothing else.
    pub fn hidden() -> (flags: Flags)
        ensures
            flags@ == HIDDEN,
    {
        Flags { bits: HIDDEN }
    }

    /// The set that holds [`STRIKEOUT`] and nothing else.
    pub fn strikeout() -> (flags: Flags)
        ensures
            flags@ == STRIKEOUT,
    {
        Flags { bits: STRIKEOUT }
    }

    /// The set that holds [`LEADING_WIDE_CHAR_SPACER`] and nothing else.
    pub fn leading_wide_char_spacer() -> (flags: Flags)
        ensures
            flags@ == LEADING_WIDE_CHAR_SPACER,
    {
        Flags { bits: LEADING_WIDE_CHAR_SPACER }
    }

    /// The set that holds [`DOUBLE_UNDERLINE`] and nothing else.
    pub fn double_underline() -> (flags: Flags)
        ensures
            flags@ == DOUBLE_UNDERLINE,
    {
        Flags { bits: DOUBLE_UNDERLINE }
    }

    /// The set that holds [`UNDERCURL`] and nothing else.
    pub fn undercurl() -> (flags: Flags)
        ensures
            flags@ == UNDERCURL,
    {
        Flags { bits: UNDERCURL }
    }

    /// The set that holds [`DOTTED_UNDERLINE`] and nothing else.
    pub fn dotted_underline() -> (flags: Flags)
        ensures
            flags@ == DOTTED_UNDERLINE,
    {
        Flags { bits: DOTTED_UNDERLINE }
    }

    /// The set that holds [`DASHED_UNDERLINE`] and nothing else.
    pub fn dashed_underline() -> (flags: Flags)
        ensures
            flags@ == DASHED_UNDERLINE,
    {
        Flags { bits: DASHED_UNDERLINE }
    }

    /// The set with exactly the bits of `bits`, or `None` where one of them is
    /// not a defined bit.
    pub fn from_bits(bits: u16) -> (flags: Option<Flags>)
        ensures
            flags is Some <==> bits & !ALL == 0,
            flags matches Some(f) ==> f@ == bits,
    {
        proof {
            lemma_defined_bits(bits, 0);
        }
        let defined: u16 = bits & ALL;
        if defined == bits {
            Some(Flags { bits: defined })
        } else {
            None
        }
    }

    /// The set with the defined bits of `bits`; the undefined ones are dropped.
    pub fn from_bits_truncate(bits: u16) -> (flags: Flags)
        ensures
            flags@ == bits & ALL,
    {
        proof {
            lemma_defined_bits(bits, 0);
        }
        Flags { bits: bits & ALL }
    }

    /// The bit pattern of the set. No bit outside [`ALL`] is set in it.
    pub fn bits(&self) -> (bits: u16)
        ensures
            bits == self@,
            bits & !ALL == 0,
            bits <= ALL,
    {
        proof {
            use_type_invariant(self);
            lemma_defined_bits(self.bits, 0);
        }
        self.bits
    }

    /// Whether no attribute is set.
    pub fn is_empty(&self) -> (empty: bool)
        ensures
            empty == (self@ == 0),
    {
        self.bits == 0
    }

    /// Whether every attribute of `other` is set in `self`.
    pub fn contains(&self, other: Flags) -> (found: bool)
        ensures
            found == covers(self@, other@),
    {
        self.bits & other.bits == other.bits
    }

    /// Whether some attribute of `other` is set in `self`.
    pub fn intersects(&self, other: Flags) -> (found: bool)
        ensures
            found == overlaps(self@, other@),
    {
        self.bits & other.bits != 0
    }

    /// Sets every attribute of `other`.
    pub fn insert(&mut self, other: Flags)
        ensures
            final(self)@ == old(self)@ | other@,
    {
        *self = self.union(other);
    }

    /// Clears every attribute of `other`.
    pub fn remove(&mut self, other: Flags)
        ensures
            final(self)@ == old(self)@ & !other@,
    {
        *self = self.difference(other);
    }

    /// The attributes of `self` together with those of `other`.
    pub fn union(self, other: Flags) -> (flags: Flags)
        ensures
            flags@ == self@ | other@,
    {
        proof {
            use_type_invariant(self);
            use_type_invariant(other);
            lemma_defined_bits(self.bits, other.bits);
        }
        Flags { bits: self.bits | other.bits }
    }

    /// The attributes of `self` that are not in `other`.
    pub fn difference(self, other: Flags) -> (flags: Flags)
        ensures
            flags@ == self@ & !other@,
    {
        proof {
            use_type_invariant(self);
            lemma_defined_bits(self.bits, other.bits);
        }
        Flags { bits: self.bits & !other.bits }
    }
}

} // verus!
