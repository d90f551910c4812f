use parse_style::{Attribute, AttributeSet, ParseAttributeError};

#[test]
fn double_ended_iteration() {
    let attrs = Attribute::Bold | Attribute::Frame | Attribute::Reverse | Attribute::Strike;
    let mut iter = attrs.into_iter();
    assert_eq!(iter.next(), Some(Attribute::Bold));
    assert_eq!(iter.next_back(), Some(Attribute::Frame));
    assert_eq!(iter.next(), Some(Attribute::Reverse));
    assert_eq!(iter.next_back(), Some(Attribute::Strike));
    assert_eq!(iter.next(), None);
    assert_eq!(iter.next_back(), None);
    assert_eq!(iter.next(), None);
    assert_eq!(iter.next_back(), None);
}

fn all_attributes() -> Vec<Attribute> {
    vec![
        Attribute::Bold,
        Attribute::Dim,
        Attribute::Italic,
        Attribute::Underline,
        Attribute::Blink,
        Attribute::Blink2,
        Attribute::Reverse,
        Attribute::Conceal,
        Attribute::Strike,
        Attribute::Underline2,
        Attribute::Frame,
        Attribute::Encircle,
        Attribute::Overline,
    ]
}

#[test]
fn attribute_iter_yields_canonical_order() {
    let mut iter = Attribute::iter();
    let mut seen = Vec::new();
    while let Some(attr) = iter.next() {
        seen.push(attr);
    }
    assert_eq!(seen, all_attributes());
    assert_eq!(iter.next(), None);
    assert_eq!(iter.next_back(), None);
}

#[test]
fn attribute_iter_from_the_back() {
    let mut iter = Attribute::iter();
    assert_eq!(iter.next_back(), Some(Attribute::Overline));
    assert_eq!(iter.next_back(), Some(Attribute::Encircle));
    assert_eq!(iter.next(), Some(Attribute::Bold));
    let mut rest = iter.clone();
    let mut count = 0;
    while let Some(_) = rest.next() {
        count += 1;
    }
    assert_eq!(count, 10);
}

#[test]
fn ordinal_and_bit_of_each_attribute() {
    for (i, attr) in all_attributes().into_iter().enumerate() {
        assert_eq!(attr.ordinal() as usize, i);
        assert_eq!(Attribute::from_ordinal(i as u8), attr);
        assert_eq!(attr.bit(), 1u16 << i);
    }
}

#[test]
fn attribute_names() {
    let names = [
        "bold",
        "dim",
        "italic",
        "underline",
        "blink",
        "blink2",
        "reverse",
        "conceal",
        "strike",
        "underline2",
        "frame",
        "encircle",
        "overline",
    ];
    for (attr, name) in all_attributes().into_iter().zip(names) {
        assert_eq!(attr.as_str(), name);
        assert_eq!(attr.to_string(), name);
        assert_eq!(name.parse::<Attribute>().unwrap(), attr);
        assert_eq!(Attribute::parse(name), Ok(attr));
    }
}

#[test]
fn attribute_short_aliases() {
    assert_eq!("b".parse::<Attribute>().unwrap(), Attribute::Bold);
    assert_eq!("d".parse::<Attribute>().unwrap(), Attribute::Dim);
    assert_eq!("i".parse::<Attribute>().unwrap(), Attribute::Italic);
    assert_eq!("u".parse::<Attribute>().unwrap(), Attribute::Underline);
    assert_eq!("r".parse::<Attribute>().unwrap(), Attribute::Reverse);
    assert_eq!("c".parse::<Attribute>().unwrap(), Attribute::Conceal);
    assert_eq!("s".parse::<Attribute>().unwrap(), Attribute::Strike);
    assert_eq!("uu".parse::<Attribute>().unwrap(), Attribute::Underline2);
    assert_eq!("UU".parse::<Attribute>().unwrap(), Attribute::Underline2);
}

#[test]
fn attribute_case_insensitive() {
    assert_eq!("BOLD".parse::<Attribute>().unwrap(), Attribute::Bold);
    assert_eq!("Bold".parse::<Attribute>().unwrap(), Attribute::Bold);
    assert_eq!("bold".parse::<Attribute>().unwrap(), Attribute::Bold);
    assert_eq!("b".parse::<Attribute>().unwrap(), Attribute::Bold);
    assert_eq!("B".parse::<Attribute>().unwrap(), Attribute::Bold);
}

#[test]
fn attribute_without_short_alias() {
    for word in ["bl", "f", "e", "o", "bo", "blink3", "", " bold", "bold "] {
        assert_eq!(
            word.parse::<Attribute>(),
            Err(ParseAttributeError(word.to_string()))
        );
    }
}

#[test]
fn set_algebra() {
    let a = Attribute::Bold | Attribute::Dim;
    let b = Attribute::Dim | Attribute::Italic;
    assert_eq!(a | b, Attribute::Bold | Attribute::Dim | Attribute::Italic);
    assert_eq!(a & b, AttributeSet::from(Attribute::Dim));
    assert_eq!(a ^ b, Attribute::Bold | Attribute::Italic);
    assert_eq!(a - b, AttributeSet::from(Attribute::Bold));
    assert_eq!(b - a, AttributeSet::from(Attribute::Italic));
    assert_eq!(a.union(b), a | b);
    assert_eq!(a.intersection(b), a & b);
    assert_eq!(a.symmetric_difference(b), a ^ b);
    assert_eq!(a.difference(b), a - b);
    assert_eq!(a | Attribute::Italic, a | b);
    assert_eq!(a & Attribute::Bold, AttributeSet::from(Attribute::Bold));
    assert_eq!(a - Attribute::Bold, AttributeSet::from(Attribute::Dim));
    assert_eq!(a ^ Attribute::Bold, AttributeSet::from(Attribute::Dim));
    assert_eq!(Attribute::Bold & a, AttributeSet::from(Attribute::Bold));
    assert_eq!(Attribute::Italic & a, AttributeSet::new());
    assert_eq!(Attribute::Bold ^ Attribute::Bold, AttributeSet::new());
    assert_eq!(Attribute::Bold - Attribute::Dim, AttributeSet::from(Attribute::Bold));
    assert_eq!(Attribute::Bold - a, AttributeSet::new());
}

#[test]
fn assigning_operators() {
    let mut set = AttributeSet::new();
    set |= Attribute::Bold;
    set |= Attribute::Dim | Attribute::Frame;
    assert_eq!(set, Attribute::Bold | Attribute::Dim | Attribute::Frame);
    set -= Attribute::Dim;
    assert_eq!(set, Attribute::Bold | Attribute::Frame);
    set &= Attribute::Frame | Attribute::Overline;
    assert_eq!(set, AttributeSet::from(Attribute::Frame));
    set ^= Attribute::Frame | Attribute::Overline;
    assert_eq!(set, AttributeSet::from(Attribute::Overline));
}

#[test]
fn complement_stays_within_the_attributes() {
    assert_eq!(!AttributeSet::EMPTY(), AttributeSet::ALL());
    assert_eq!(!AttributeSet::ALL(), AttributeSet::EMPTY());
    assert_eq!(!!AttributeSet::ALL(), AttributeSet::ALL());
    assert_eq!(AttributeSet::ALL().complement(), AttributeSet::new());
    let not_bold = !Attribute::Bold;
    assert!(!not_bold.contains(Attribute::Bold));
    let mut count = 0;
    let mut iter = not_bold.into_iter();
    while let Some(_) = iter.next() {
        count += 1;
    }
    assert_eq!(count, 12);
    assert_eq!(not_bold | Attribute::Bold, AttributeSet::ALL());
}

#[test]
fn complement_laws_on_every_pair() {
    for a in all_attributes() {
        for b in all_attributes() {
            let set = a | b;
            assert_eq!(set | !set, AttributeSet::ALL());
            assert_eq!(set & !set, AttributeSet::EMPTY());
            assert!((set | !set).is_all());
            assert!((set & !set).is_empty());
        }
    }
}

#[test]
fn empty_and_all() {
    assert!(AttributeSet::new().is_empty());
    assert!(AttributeSet::EMPTY().is_empty());
    assert!(AttributeSet::default().is_empty());
    assert!(!AttributeSet::new().is_all());
    assert!(AttributeSet::ALL().is_all());
    assert!(!AttributeSet::ALL().is_empty());
    assert!(!AttributeSet::from(Attribute::Blink).is_empty());
    for attr in all_attributes() {
        assert!(AttributeSet::ALL().contains(attr));
        assert!(!AttributeSet::EMPTY().contains(attr));
    }
    assert_eq!(AttributeSet::from(Attribute::Blink), AttributeSet::from(Attribute::Blink));
}

#[test]
fn set_iteration_in_canonical_order() {
    let set = Attribute::Overline | Attribute::Dim | Attribute::Strike;
    let mut iter = set.into_iter();
    assert_eq!(iter.next(), Some(Attribute::Dim));
    assert_eq!(iter.next(), Some(Attribute::Strike));
    assert_eq!(iter.next(), Some(Attribute::Overline));
    assert_eq!(iter.next(), None);
    let mut back = set.into_iter();
    assert_eq!(back.next_back(), Some(Attribute::Overline));
    assert_eq!(back.next_back(), Some(Attribute::Strike));
    assert_eq!(back.next_back(), Some(Attribute::Dim));
    assert_eq!(back.next_back(), None);
    let mut none = AttributeSet::new().into_iter();
    assert_eq!(none.next(), None);
}

#[test]
fn sets_order_by_their_bits() {
    let bold = AttributeSet::from(Attribute::Bold);
    let dim = AttributeSet::from(Attribute::Dim);
    assert!(AttributeSet::new() < bold);
    assert!(bold < dim);
    assert!(dim < (Attribute::Bold | Attribute::Dim));
    assert!(Attribute::Bold < Attribute::Dim);
    assert!(Attribute::Encircle < Attribute::Overline);
}

#[test]
fn modifier_bits_of_sets() {
    assert_eq!(AttributeSet::new().to_modifier_bits(), 0);
    assert_eq!(AttributeSet::ALL().to_modifier_bits(), 0x01ff);
    assert_eq!(AttributeSet::from(Attribute::Bold).to_modifier_bits(), 0x0001);
    assert_eq!(AttributeSet::from(Attribute::Dim).to_modifier_bits(), 0x0002);
    assert_eq!(AttributeSet::from(Attribute::Italic).to_modifier_bits(), 0x0004);
    assert_eq!(AttributeSet::from(Attribute::Underline).to_modifier_bits(), 0x0008);
    assert_eq!(AttributeSet::from(Attribute::Blink).to_modifier_bits(), 0x0010);
    assert_eq!(AttributeSet::from(Attribute::Blink2).to_modifier_bits(), 0x0020);
    assert_eq!(AttributeSet::from(Attribute::Reverse).to_modifier_bits(), 0x0040);
    assert_eq!(AttributeSet::from(Attribute::Conceal).to_modifier_bits(), 0x0080);
    assert_eq!(AttributeSet::from(Attribute::Strike).to_modifier_bits(), 0x0100);
    assert_eq!(AttributeSet::from(Attribute::Underline2).to_modifier_bits(), 0);
    assert_eq!(AttributeSet::from(Attribute::Frame).to_modifier_bits(), 0);
    assert_eq!(AttributeSet::from(Attribute::Encircle).to_modifier_bits(), 0);
    assert_eq!(AttributeSet::from(Attribute::Overline).to_modifier_bits(), 0);
    assert_eq!((Attribute::Bold | Attribute::Frame | Attribute::Strike).to_modifier_bits(), 0x0101);
}

#[test]
fn sets_of_modifier_bits() {
    assert_eq!(AttributeSet::from_modifier_bits(0), AttributeSet::new());
    assert_eq!(AttributeSet::from_modifier_bits(0x0001), AttributeSet::from(Attribute::Bold));
    assert_eq!(AttributeSet::from_modifier_bits(0x0002), AttributeSet::from(Attribute::Dim));
    assert_eq!(AttributeSet::from_modifier_bits(0x0004), AttributeSet::from(Attribute::Italic));
    assert_eq!(AttributeSet::from_modifier_bits(0x0008), AttributeSet::from(Attribute::Underline));
    assert_eq!(AttributeSet::from_modifier_bits(0x0010), AttributeSet::from(Attribute::Blink));
    assert_eq!(AttributeSet::from_modifier_bits(0x0020), AttributeSet::from(Attribute::Blink));
    assert_eq!(AttributeSet::from_modifier_bits(0x0030), AttributeSet::from(Attribute::Blink));
    assert_eq!(AttributeSet::from_modifier_bits(0x0040), AttributeSet::from(Attribute::Reverse));
    assert_eq!(AttributeSet::from_modifier_bits(0x0080), AttributeSet::from(Attribute::Conceal));
    assert_eq!(AttributeSet::from_modifier_bits(0x0100), AttributeSet::from(Attribute::Strike));
    assert_eq!(AttributeSet::from_modifier_bits(0x0200), AttributeSet::new());
    assert_eq!(AttributeSet::from_modifier_bits(0xfe00), AttributeSet::new());
    assert_eq!(
        AttributeSet::from_modifier_bits(0xffff),
        AttributeSet::ALL()
            - Attribute::Blink2
            - Attribute::Underline2
            - Attribute::Frame
            - Attribute::Encircle
            - Attribute::Overline
    );
    assert_eq!(
        AttributeSet::from_modifier_bits(0x0141),
        Attribute::Bold | Attribute::Reverse | Attribute::Strike
    );
}
