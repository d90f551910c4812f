use parse_style::{Color, Color256, ParseColorError, Style};

#[test]
fn parse_names_and_indices() {
    assert_eq!("black".parse::<Color256>().unwrap(), Color256(0));
    assert_eq!("BLACK".parse::<Color256>().unwrap(), Color256(0));
    assert_eq!("BlAcK".parse::<Color256>().unwrap(), Color256(0));
    assert_eq!("color(0)".parse::<Color256>().unwrap(), Color256(0));
    assert_eq!("COLOR(0)".parse::<Color256>().unwrap(), Color256(0));
    assert_eq!("gray42".parse::<Color256>().unwrap(), Color256(242));
    assert_eq!("grey42".parse::<Color256>().unwrap(), Color256(242));
    assert_eq!("color(242)".parse::<Color256>().unwrap(), Color256(242));
}

#[test]
fn parse_documented_examples() {
    assert_eq!("color(2)".parse::<Color256>().unwrap(), Color256(2));
    assert_eq!("green".parse::<Color256>().unwrap(), Color256(2));
    assert_eq!("GREEN".parse::<Color256>().unwrap(), Color256(2));
    assert_eq!(Color256(2).to_string(), "green");
    assert_eq!(Color256(42).to_string(), "color(42)");
}

#[test]
fn name_of_documented_examples() {
    assert_eq!(Color256::BRIGHT_YELLOW().name(), Some("bright_yellow"));
    assert_eq!(Color256(42).name(), None);
    assert_eq!(Color256(59).name(), Some("gray37"));
    assert_eq!(Color256(118).name(), Some("chartreuse1"));
}

#[test]
fn display_name_or_index() {
    assert_eq!(Color256(118).to_string(), "chartreuse1");
    assert_eq!(Color256(42).to_string(), "color(42)");
    assert_eq!(Color256(19).to_string(), "color(19)");
    assert_eq!(Color256(23).to_string(), "color(23)");
    assert_eq!(Color256(24).to_string(), "color(24)");
    assert_eq!(Color256(0).to_string(), "black");
    assert_eq!(Color256(255).to_string(), "gray93");
    assert_eq!(Color256(107).to_string(), "color(107)");
    assert_eq!(Color256(221).to_string(), "color(221)");
    assert_eq!(Color256(9).to_string(), "bright_red");
}

#[test]
fn named_colors() {
    let named = [
        (Color256::BLACK(), "black"),
        (Color256::RED(), "red"),
        (Color256::GREEN(), "green"),
        (Color256::YELLOW(), "yellow"),
        (Color256::BLUE(), "blue"),
        (Color256::MAGENTA(), "magenta"),
        (Color256::CYAN(), "cyan"),
        (Color256::WHITE(), "white"),
        (Color256::BRIGHT_BLACK(), "bright_black"),
        (Color256::BRIGHT_RED(), "bright_red"),
        (Color256::BRIGHT_GREEN(), "bright_green"),
        (Color256::BRIGHT_YELLOW(), "bright_yellow"),
        (Color256::BRIGHT_BLUE(), "bright_blue"),
        (Color256::BRIGHT_MAGENTA(), "bright_magenta"),
        (Color256::BRIGHT_CYAN(), "bright_cyan"),
        (Color256::BRIGHT_WHITE(), "bright_white"),
    ];
    for (i, (color, name)) in named.into_iter().enumerate() {
        assert_eq!(color, Color256(i as u8));
        assert_eq!(color.name(), Some(name));
    }
}

#[test]
fn every_index_round_trips() {
    let mut named = 0;
    for i in 0..=255u8 {
        let color = Color256(i);
        assert_eq!(color.to_string().parse::<Color256>().unwrap(), color);
        assert_eq!(Color256::parse(&color.to_string()), Ok(color));
        if let Some(name) = color.name() {
            named += 1;
            assert_eq!(Color256::by_name(name), Some(color));
            assert_eq!(Color256::by_name(&name.to_uppercase()), Some(color));
            assert_eq!(color.to_string(), name);
        } else {
            assert_eq!(color.to_string(), format!("color({})", i));
        }
        assert_eq!(format!("color({})", i).parse::<Color256>().unwrap(), color);
    }
    assert_eq!(named, 203);
}

#[test]
fn second_spellings() {
    let mut count = 0;
    for i in 0..=255u8 {
        let color = Color256(i);
        if let Some(alias) = color.alias() {
            count += 1;
            let name = color.name().unwrap();
            assert_eq!(alias, name.replace("gray", "grey"));
            assert_eq!(alias.parse::<Color256>().unwrap(), color);
            assert_eq!(alias.to_uppercase().parse::<Color256>().unwrap(), color);
        }
    }
    assert_eq!(count, 32);
    assert_eq!("grey0".parse::<Color256>().unwrap(), Color256(16));
    assert_eq!("light_slate_grey".parse::<Color256>().unwrap(), Color256(103));
    assert_eq!("Light_Slate_Gray".parse::<Color256>().unwrap(), Color256(103));
    assert_eq!(Color256(103).to_string(), "light_slate_gray");
    assert_eq!("dark_slate_gray2".parse::<Color256>().unwrap(), Color256(87));
    assert!("dark_slate_grey2".parse::<Color256>().is_err());
    assert!("dark_slate_grey1".parse::<Color256>().is_err());
    assert!("dark_slate_grey3".parse::<Color256>().is_err());
}

#[test]
fn nameless_indices() {
    for i in [19u8, 23, 24, 31, 34, 35, 42, 52, 53, 54, 58, 61, 65, 70] {
        assert_eq!(Color256(i).name(), None);
    }
}

#[test]
fn words_that_are_no_color() {
    for word in [
        "",
        "blac",
        "blackk",
        "black ",
        " black",
        "blaek",
        "bright-red",
        "bright red",
        "color",
        "color(",
        "color()",
        "color(256)",
        "color(1000)",
        "color(-1)",
        "color(+1)",
        "color(1",
        "color(1))",
        "color( 1)",
        "color(1 )",
        "color(0x10)",
        "colour(1)",
        "color(1.0)",
        "none",
        "default",
        "gr\u{e4}y42",
        "chartreuse5",
        "gray38",
    ] {
        assert_eq!(
            word.parse::<Color256>(),
            Err(ParseColorError(word.to_string()))
        );
        assert_eq!(Color256::by_name(word), None);
    }
}

#[test]
fn indices_with_leading_zeros() {
    assert_eq!("color(007)".parse::<Color256>().unwrap(), Color256(7));
    assert_eq!("color(0000255)".parse::<Color256>().unwrap(), Color256(255));
    assert_eq!("Color(255)".parse::<Color256>().unwrap(), Color256(255));
    assert!("color(0000256)".parse::<Color256>().is_err());
}

#[test]
fn byte_conversions() {
    assert_eq!(Color256::from(7u8), Color256(7));
    assert_eq!(u8::from(Color256(7)), 7);
}

#[test]
fn color256_styles() {
    assert_eq!(
        Color256::RED().as_foreground(),
        Style::new().foreground(Some(Color::Color256(Color256(1))))
    );
    assert_eq!(
        Color256::RED().as_background(),
        Style::new().background(Some(Color::Color256(Color256(1))))
    );
    assert_eq!(
        Color256::BLUE().on(Color256::RED()),
        Style::new()
            .foreground(Some(Color::Color256(Color256(4))))
            .background(Some(Color::Color256(Color256(1))))
    );
}

#[test]
fn index_of_a_color() {
    for i in 0..=255u8 {
        assert_eq!(Color256::from_index(i), Color256(i));
        assert_eq!(Color256::from_index(i).index(), i);
    }
}

fn scan_by_name(word: &str) -> Option<Color256> {
    for i in 0..=255u8 {
        let color = Color256(i);
        if color.name().is_some_and(|n| n.eq_ignore_ascii_case(word))
            || color.alias().is_some_and(|n| n.eq_ignore_ascii_case(word))
        {
            return Some(color);
        }
    }
    None
}

#[test]
fn lookup_agrees_with_a_scan_of_the_table() {
    let mut words = Vec::new();
    for i in 0..=255u8 {
        for name in [Color256(i).name(), Color256(i).alias()].into_iter().flatten() {
            words.push(name.to_string());
            words.push(name.to_uppercase());
            let chars: Vec<char> = name.chars().collect();
            for at in 0..chars.len() {
                for put in ['x', '_', '0', 'E', 'a', '\u{e9}'] {
                    let mut changed = chars.clone();
                    changed[at] = put;
                    words.push(changed.iter().collect());
                }
                let mut shorter = chars.clone();
                shorter.remove(at);
                words.push(shorter.iter().collect());
                let mut longer = chars.clone();
                longer.insert(at, '1');
                words.push(longer.iter().collect());
            }
            words.push(format!("{}1", name));
        }
    }
    assert!(words.len() > 10000);
    for word in words {
        assert_eq!(Color256::by_name(&word), scan_by_name(&word));
    }
}

#[test]
fn names_are_told_apart() {
    let mut seen = std::collections::HashMap::new();
    for i in 0..=255u8 {
        for name in [Color256(i).name(), Color256(i).alias()].into_iter().flatten() {
            assert_eq!(seen.insert(name.to_string(), i), None);
            assert!(name.is_ascii());
            assert_eq!(name, name.to_lowercase());
        }
    }
    assert_eq!(seen.len(), 235);
}
