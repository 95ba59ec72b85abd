use bitflags::Flag;
use bitflags::Flags as _;
use crosswords::flags;
use crosswords::Flags;

/// The same flag set, built on the `bitflags` crate, to compare against.
#[derive(Clone, Copy, Debug, PartialEq)]
struct Reference(u16);

impl bitflags::Flags for Reference {
    const FLAGS: &'static [Flag<Reference>] = &[
        Flag::new("INVERSE", Reference(0b0000_0000_0000_0001)),
        Flag::new("BOLD", Reference(0b0000_0000_0000_0010)),
        Flag::new("ITALIC", Reference(0b0000_0000_0000_0100)),
        Flag::new("BOLD_ITALIC", Reference(0b0000_0000_0000_0110)),
        Flag::new("UNDERLINE", Reference(0b0000_0000_0000_1000)),
        Flag::new("WRAPLINE", Reference(0b0000_0000_0001_0000)),
        Flag::new("WIDE_CHAR", Reference(0b0000_0000_0010_0000)),
        Flag::new("WIDE_CHAR_SPACER", Reference(0b0000_0000_0100_0000)),
        Flag::new("DIM", Reference(0b0000_0000_1000_0000)),
        Flag::new("DIM_BOLD", Reference(0b0000_0000_1000_0010)),
        Flag::new("HIDDEN", Reference(0b0000_0001_0000_0000)),
        Flag::new("STRIKEOUT", Reference(0b0000_0010_0000_0000)),
        Flag::new("LEADING_WIDE_CHAR_SPACER", Reference(0b0000_0100_0000_0000)),
        Flag::new("DOUBLE_UNDERLINE", Reference(0b0000_1000_0000_0000)),
        Flag::new("UNDERCURL", Reference(0b0001_0000_0000_0000)),
        Flag::new("DOTTED_UNDERLINE", Reference(0b0010_0000_0000_0000)),
        Flag::new("DASHED_UNDERLINE", Reference(0b0100_0000_0000_0000)),
    ];

    type Bits = u16;

    fn bits(&self) -> u16 {
        self.0
    }

    fn from_bits_retain(bits: u16) -> Reference {
        Reference(bits)
    }
}

fn named() -> Vec<(Flags, u16)> {
    vec![
        (Flags::inverse(), flags::INVERSE),
        (Flags::bold(), flags::BOLD),
        (Flags::italic(), flags::ITALIC),
        (Flags::bold_italic(), flags::BOLD_ITALIC),
        (Flags::underline(), flags::UNDERLINE),
        (Flags::wrapline(), flags::WRAPLINE),
        (Flags::wide_char(), flags::WIDE_CHAR),
        (Flags::wide_char_spacer(), flags::WIDE_CHAR_SPACER),
        (Flags::dim(), flags::DIM),
        (Flags::dim_bold(), flags::DIM_BOLD),
        (Flags::hidden(), flags::HIDDEN),
        (Flags::strikeout(), flags::STRIKEOUT),
        (Flags::leading_wide_char_spacer(), flags::LEADING_WIDE_CHAR_SPACER),
        (Flags::double_underline(), flags::DOUBLE_UNDERLINE),
        (Flags::undercurl(), flags::UNDERCURL),
        (Flags::dotted_underline(), flags::DOTTED_UNDERLINE),
        (Flags::dashed_underline(), flags::DASHED_UNDERLINE),
    ]
}

/// Patterns that between them set and clear every defined bit next to every
/// other.
fn samples() -> Vec<u16> {
    let mut patterns = vec![0, flags::ALL, 0x5555, 0x2aaa, 0x0651, 0x0086, 0x7f00, 0x00ff];
    for (_, bits) in named() {
        patterns.push(bits);
        patterns.push(flags::ALL & !bits);
    }
    patterns
}

#[test]
fn named_patterns_have_their_bits() {
    assert_eq!(Flags::inverse().bits(), 0x0001);
    assert_eq!(Flags::bold().bits(), 0x0002);
    assert_eq!(Flags::italic().bits(), 0x0004);
    assert_eq!(Flags::bold_italic().bits(), 0x0006);
    assert_eq!(Flags::underline().bits(), 0x0008);
    assert_eq!(Flags::wrapline().bits(), 0x0010);
    assert_eq!(Flags::wide_char().bits(), 0x0020);
    assert_eq!(Flags::wide_char_spacer().bits(), 0x0040);
    assert_eq!(Flags::dim().bits(), 0x0080);
    assert_eq!(Flags::dim_bold().bits(), 0x0082);
    assert_eq!(Flags::hidden().bits(), 0x0100);
    assert_eq!(Flags::strikeout().bits(), 0x0200);
    assert_eq!(Flags::leading_wide_char_spacer().bits(), 0x0400);
    assert_eq!(Flags::double_underline().bits(), 0x0800);
    assert_eq!(Flags::undercurl().bits(), 0x1000);
    assert_eq!(Flags::dotted_underline().bits(), 0x2000);
    assert_eq!(Flags::dashed_underline().bits(), 0x4000);
    for (flag, bits) in named() {
        assert_eq!(flag.bits(), bits);
    }
}

#[test]
fn named_patterns_match_the_reference() {
    let reference = <Reference as bitflags::Flags>::FLAGS;
    let ours = named();
    assert_eq!(reference.len(), ours.len());
    for (theirs, (flag, _)) in reference.iter().zip(ours) {
        assert_eq!(flag.bits(), theirs.value().0, "{}", theirs.name());
    }
}

#[test]
fn empty_and_all() {
    assert_eq!(Flags::empty().bits(), 0);
    assert!(Flags::empty().is_empty());
    assert_eq!(Flags::all().bits(), 0x7fff);
    assert!(!Flags::all().is_empty());
    assert_eq!(Flags::all().bits(), <Reference as bitflags::Flags>::all().0);
    for (flag, _) in named() {
        assert!(Flags::all().contains(flag));
        assert!(!Flags::empty().contains(flag));
        assert!(!Flags::empty().intersects(flag));
        assert!(!flag.is_empty());
    }
    assert!(Flags::empty().contains(Flags::empty()));
    assert!(!Flags::all().intersects(Flags::empty()));
}

#[test]
fn combinations_are_unions_of_their_components() {
    assert_eq!(Flags::bold_italic(), Flags::bold().union(Flags::italic()));
    assert_eq!(Flags::dim_bold(), Flags::dim().union(Flags::bold()));
    assert_eq!(flags::BOLD_ITALIC, flags::BOLD | flags::ITALIC);
    assert_eq!(flags::DIM_BOLD, flags::DIM | flags::BOLD);
}

#[test]
fn a_combination_is_found_through_its_components() {
    let mut set = Flags::empty();
    set.insert(Flags::bold_italic());
    assert!(set.contains(Flags::bold()));
    assert!(set.contains(Flags::italic()));
    assert!(set.intersects(Flags::bold()));
    assert!(!set.contains(Flags::dim_bold()));
    assert!(set.intersects(Flags::dim_bold()));

    let mut set = Flags::empty();
    set.insert(Flags::bold());
    assert!(!set.contains(Flags::bold_italic()));
    assert!(set.intersects(Flags::bold_italic()));
    set.insert(Flags::italic());
    assert!(set.contains(Flags::bold_italic()));
    set.insert(Flags::dim());
    assert!(set.contains(Flags::dim_bold()));
    assert_eq!(set.bits(), 0x0086);
}

#[test]
fn removing_a_combination_removes_both_components() {
    let mut set = Flags::all();
    set.remove(Flags::dim_bold());
    assert!(!set.contains(Flags::dim()));
    assert!(!set.contains(Flags::bold()));
    assert!(set.contains(Flags::italic()));
    assert_eq!(set.bits(), 0x7fff & !0x0082);
}

#[test]
fn from_bits_takes_defined_bits_only() {
    assert_eq!(Flags::from_bits(0), Some(Flags::empty()));
    assert_eq!(Flags::from_bits(0x0010), Some(Flags::wrapline()));
    assert_eq!(Flags::from_bits(0x7fff), Some(Flags::all()));
    assert_eq!(Flags::from_bits(0x8000), None);
    assert_eq!(Flags::from_bits(0x8001), None);
    assert_eq!(Flags::from_bits(0xffff), None);
    for bits in samples() {
        assert_eq!(Flags::from_bits(bits).map(|flags| flags.bits()), Some(bits));
        assert_eq!(
            Flags::from_bits(bits | 0x8000).map(|flags| flags.bits()),
            <Reference as bitflags::Flags>::from_bits(bits | 0x8000).map(|flags| flags.0)
        );
    }
}

#[test]
fn from_bits_truncate_drops_the_undefined_bit() {
    assert_eq!(Flags::from_bits_truncate(0xffff), Flags::all());
    assert_eq!(Flags::from_bits_truncate(0x8000), Flags::empty());
    assert_eq!(Flags::from_bits_truncate(0x8020), Flags::wide_char());
    assert_eq!(Flags::from_bits_truncate(0x0651).bits(), 0x0651);
    for bits in samples() {
        assert_eq!(
            Flags::from_bits_truncate(bits | 0x8000).bits(),
            <Reference as bitflags::Flags>::from_bits_truncate(bits | 0x8000).0
        );
    }
}

#[test]
fn insert_and_remove_one_flag() {
    let mut set = Flags::empty();
    set.insert(Flags::underline());
    assert_eq!(set.bits(), 0x0008);
    assert!(set.contains(Flags::underline()));
    set.insert(Flags::hidden());
    assert_eq!(set.bits(), 0x0108);
    set.insert(Flags::underline());
    assert_eq!(set.bits(), 0x0108);
    set.remove(Flags::underline());
    assert_eq!(set.bits(), 0x0100);
    assert!(!set.contains(Flags::underline()));
    set.remove(Flags::underline());
    assert_eq!(set.bits(), 0x0100);
    set.remove(Flags::hidden());
    assert!(set.is_empty());
}

#[test]
fn union_and_difference() {
    let set = Flags::inverse().union(Flags::strikeout());
    assert_eq!(set.bits(), 0x0201);
    assert_eq!(set.difference(Flags::inverse()), Flags::strikeout());
    assert_eq!(set.difference(Flags::bold()), set);
    assert_eq!(set.union(Flags::empty()), set);
    assert_eq!(set.difference(Flags::all()), Flags::empty());
    assert_eq!(Flags::all().difference(set).bits(), 0x7fff & !0x0201);
}

#[test]
fn inserting_then_removing_leaves_disjoint_flags_alone() {
    for start in samples() {
        for (flag, flag_bits) in named() {
            let before = Flags::from_bits(start).unwrap();
            let mut after = before;
            after.insert(flag);
            assert!(after.contains(flag));
            after.remove(flag);
            assert!(!after.intersects(flag));
            for (other, other_bits) in named() {
                if flag_bits & other_bits == 0 {
                    assert_eq!(after.contains(other), before.contains(other));
                    assert_eq!(after.intersects(other), before.intersects(other));
                }
            }
        }
    }
}

#[test]
fn inserting_bold_italic_then_removing_it_clears_an_earlier_bold() {
    let mut set = Flags::bold();
    set.insert(Flags::bold_italic());
    set.remove(Flags::bold_italic());
    assert!(!set.contains(Flags::bold()));
    assert!(set.is_empty());
}

#[test]
fn operations_agree_with_the_reference() {
    for left in samples() {
        for right in samples() {
            let ours = Flags::from_bits(left).unwrap();
            let other = Flags::from_bits(right).unwrap();
            let theirs = Reference(left);
            let their_other = Reference(right);

            assert_eq!(ours.contains(other), theirs.contains(their_other));
            assert_eq!(ours.intersects(other), theirs.intersects(their_other));
            assert_eq!(ours.union(other).bits(), theirs.union(their_other).0);
            assert_eq!(ours.difference(other).bits(), theirs.difference(their_other).0);
            assert_eq!(ours.is_empty(), theirs.is_empty());

            let mut inserted = ours;
            inserted.insert(other);
            let mut their_inserted = theirs;
            their_inserted.insert(their_other);
            assert_eq!(inserted.bits(), their_inserted.0);

            let mut removed = ours;
            removed.remove(other);
            let mut their_removed = theirs;
            their_removed.remove(their_other);
            assert_eq!(removed.bits(), their_removed.0);
        }
    }
}

#[test]
fn flags_are_plain_values() {
    let set = Flags::dim().union(Flags::undercurl());
    let copy = set;
    assert_eq!(copy, set);
    assert_eq!(copy.clone(), set);
    assert_ne!(set, Flags::dim());
    assert_eq!(format!("{:?}", Flags::empty()), format!("{:?}", Flags::from_bits_truncate(0x8000)));
}
