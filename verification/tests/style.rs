use parse_style::{Attribute, AttributeSet, Color, Color256, ParseStyleError, RgbColor, Style};

#[test]
fn test_new_is_default() {
    assert_eq!(Style::new(), Style::default());
}

#[test]
fn none() {
    assert_eq!(Style::new().to_string(), "none");
}

#[test]
fn fg_color() {
    let style = Style::from(Color256::RED());
    assert_eq!(style.to_string(), "red");
}

#[test]
fn bg_color() {
    let style = Color256::RED().as_background();
    assert_eq!(style.to_string(), "on red");
}

#[test]
fn fg_on_bg() {
    let style = Color256::BLUE().on(Color256::RED());
    assert_eq!(style.to_string(), "blue on red");
}

#[test]
fn attr() {
    let style = Style::from(Attribute::Bold);
    assert_eq!(style.to_string(), "bold");
}

#[test]
fn multiple_attrs() {
    let style = Style::from(Attribute::Bold | Attribute::Reverse);
    assert_eq!(style.to_string(), "bold reverse");
}

#[test]
fn not_attr() {
    let style = Style::new().disable(Attribute::Bold);
    assert_eq!(style.to_string(), "not bold");
}

#[test]
fn multiple_not_attrs() {
    let style = Style::new()
        .disable(Attribute::Bold)
        .disable(Attribute::Reverse);
    assert_eq!(style.to_string(), "not bold not reverse");
}

#[test]
fn attr_and_not_attr() {
    let style = Style::from(Attribute::Bold).disable(Attribute::Blink);
    assert_eq!(style.to_string(), "bold not blink");
}

#[test]
fn gamut() {
    let style = Color256::YELLOW()
        .on(Color::Default)
        .enable(Attribute::Italic)
        .disable(Attribute::Bold);
    assert_eq!(style.to_string(), "not bold italic yellow on default");
}

#[test]
fn all_attrs() {
    let style = Style::from(AttributeSet::ALL());
    assert_eq!(
        style.to_string(),
        "bold dim italic underline blink blink2 reverse conceal strike underline2 frame encircle overline"
    );
}

#[test]
fn not_all_attrs() {
    let style = Style::new().disabled_attributes(AttributeSet::ALL());
    assert_eq!(
        style.to_string(),
        "not bold not dim not italic not underline not blink not blink2 not reverse not conceal not strike not underline2 not frame not encircle not overline"
    );
}

#[test]
fn style_none() {
    assert_eq!("".parse::<Style>().unwrap(), Style::new());
    assert_eq!("none".parse::<Style>().unwrap(), Style::new());
    assert_eq!("NONE".parse::<Style>().unwrap(), Style::new());
    assert_eq!(" none ".parse::<Style>().unwrap(), Style::new());
}

#[test]
fn fg() {
    assert_eq!(
        "green".parse::<Style>().unwrap(),
        Style::from(Color256::GREEN())
    );
}

#[test]
fn bg() {
    assert_eq!(
        "on green".parse::<Style>().unwrap(),
        Color256::GREEN().as_background()
    );
    assert_eq!(
        " on  green ".parse::<Style>().unwrap(),
        Color256::GREEN().as_background()
    );
    assert_eq!(
        " ON  GREEN ".parse::<Style>().unwrap(),
        Color256::GREEN().as_background()
    );
}

#[test]
fn style_fg_on_bg() {
    assert_eq!(
        "blue on white".parse::<Style>().unwrap(),
        Color256::BLUE().on(Color256::WHITE())
    );
    assert_eq!(
        "on white blue".parse::<Style>().unwrap(),
        Color256::BLUE().on(Color256::WHITE())
    );
}

#[test]
fn style_attr() {
    assert_eq!(
        "bold".parse::<Style>().unwrap(),
        Style::from(Attribute::Bold)
    );
}

#[test]
fn multiple_attr() {
    assert_eq!(
        "bold underline".parse::<Style>().unwrap(),
        Style::from(Attribute::Bold | Attribute::Underline)
    );
    assert_eq!(
        "underline bold".parse::<Style>().unwrap(),
        Style::from(Attribute::Bold | Attribute::Underline)
    );
}

#[test]
fn style_not_attr() {
    assert_eq!(
        "not bold".parse::<Style>().unwrap(),
        Style::new().disable(Attribute::Bold)
    );
    assert_eq!(
        " NOT  BOLD ".parse::<Style>().unwrap(),
        Style::new().disable(Attribute::Bold)
    );
}

#[test]
fn style_multiple_not_attrs() {
    assert_eq!(
        "not bold not s".parse::<Style>().unwrap(),
        Style::new().disabled_attributes(Attribute::Bold | Attribute::Strike)
    );
    assert_eq!(
        "not s not bold".parse::<Style>().unwrap(),
        Style::new().disabled_attributes(Attribute::Bold | Attribute::Strike)
    );
}

#[test]
fn style_attr_and_not_attr() {
    assert_eq!(
        "dim not blink2".parse::<Style>().unwrap(),
        Style::new()
            .enable(Attribute::Dim)
            .disable(Attribute::Blink2)
    );
    assert_eq!(
        "not blink2 dim".parse::<Style>().unwrap(),
        Style::new()
            .enable(Attribute::Dim)
            .disable(Attribute::Blink2)
    );
}

#[test]
fn style_gamut() {
    for s in [
        "bold not underline red on blue",
        "not underline red on blue bold",
        "on blue red not underline bold",
    ] {
        assert_eq!(
            s.parse::<Style>().unwrap(),
            Color256::RED().on(Color256::BLUE()).bold().not_underline()
        );
    }
}

#[test]
fn multiple_fg() {
    assert_eq!(
        "red blue".parse::<Style>().unwrap(),
        Style::from(Color256::BLUE())
    );
}

#[test]
fn multiple_bg() {
    assert_eq!(
        "on red on blue".parse::<Style>().unwrap(),
        Color256::BLUE().as_background()
    );
}

#[test]
fn attr_on_and_off() {
    assert_eq!(
        "bold magenta not bold".parse::<Style>().unwrap(),
        Style::from(Color256::MAGENTA()).not_bold()
    );
}

#[test]
fn attr_off_and_on() {
    assert_eq!(
        "not bold magenta bold".parse::<Style>().unwrap(),
        Style::from(Color256::MAGENTA()).bold()
    );
}

#[test]
fn texts_that_are_no_style() {
    for s in [
        "on bold",
        "on foo",
        "blue on",
        "on",
        "not blue",
        "not foo",
        "bold not",
        "not not bold italic",
        "not",
        "none red",
        "red none",
        "foo",
        "rgb(1, 2, 3)",
        "bright blue",
    ] {
        assert!(s.parse::<Style>().is_err());
    }
}

#[test]
fn which_error() {
    assert_eq!("on bold".parse::<Style>(), Err(ParseStyleError::MissingBackground));
    assert_eq!("on foo".parse::<Style>(), Err(ParseStyleError::MissingBackground));
    assert_eq!("blue on".parse::<Style>(), Err(ParseStyleError::MissingBackground));
    assert_eq!("on".parse::<Style>(), Err(ParseStyleError::MissingBackground));
    assert_eq!("ON".parse::<Style>(), Err(ParseStyleError::MissingBackground));
    assert_eq!("on on red".parse::<Style>(), Err(ParseStyleError::MissingBackground));
    assert_eq!("not blue".parse::<Style>(), Err(ParseStyleError::MissingAttribute));
    assert_eq!("not foo".parse::<Style>(), Err(ParseStyleError::MissingAttribute));
    assert_eq!("bold not".parse::<Style>(), Err(ParseStyleError::MissingAttribute));
    assert_eq!(
        "not not bold italic".parse::<Style>(),
        Err(ParseStyleError::MissingAttribute)
    );
    assert_eq!("not".parse::<Style>(), Err(ParseStyleError::MissingAttribute));
    assert_eq!(
        "none red".parse::<Style>(),
        Err(ParseStyleError::Token("none".to_string()))
    );
    assert_eq!(
        "red none".parse::<Style>(),
        Err(ParseStyleError::Token("none".to_string()))
    );
    assert_eq!("foo".parse::<Style>(), Err(ParseStyleError::Token("foo".to_string())));
    assert_eq!(
        "rgb(1, 2, 3)".parse::<Style>(),
        Err(ParseStyleError::Token("rgb(1,".to_string()))
    );
    assert_eq!(
        "bright blue".parse::<Style>(),
        Err(ParseStyleError::Token("bright".to_string()))
    );
    assert_eq!(
        "bold FOO bar".parse::<Style>(),
        Err(ParseStyleError::Token("FOO".to_string()))
    );
    assert_eq!(
        "red on blue link".parse::<Style>(),
        Err(ParseStyleError::Token("link".to_string()))
    );
}

#[test]
fn first_error_wins() {
    assert_eq!(
        "foo on".parse::<Style>(),
        Err(ParseStyleError::Token("foo".to_string()))
    );
    assert_eq!(
        "on foo not".parse::<Style>(),
        Err(ParseStyleError::MissingBackground)
    );
    assert_eq!(
        "not foo on".parse::<Style>(),
        Err(ParseStyleError::MissingAttribute)
    );
}

#[test]
fn literal_scenarios() {
    let style = "bold red on blue".parse::<Style>().unwrap();
    assert_eq!(style.get_foreground(), Some(Color::Color256(Color256::RED())));
    assert_eq!(style.get_background(), Some(Color::Color256(Color256::BLUE())));
    assert_eq!(style.get_enabled_attributes(), AttributeSet::from(Attribute::Bold));
    assert_eq!(style.get_disabled_attributes(), AttributeSet::new());
    assert_eq!(
        style,
        Style::new()
            .foreground(Some(Color256::RED().into()))
            .background(Some(Color256::BLUE().into()))
            .bold()
    );
    let style = "not bold magenta bold".parse::<Style>().unwrap();
    assert_eq!(style.get_foreground(), Some(Color::Color256(Color256::MAGENTA())));
    assert_eq!(style.get_background(), None);
    assert_eq!(style.get_enabled_attributes(), AttributeSet::from(Attribute::Bold));
    assert_eq!(style.get_disabled_attributes(), AttributeSet::new());
    let style = Style::from(Color256::BRIGHT_GREEN()).underline();
    assert_eq!(style.to_string(), "underline bright_green");
}

#[test]
fn empty_texts() {
    for s in [
        "", "none", " NONE ", "None", "   ", "\t", "\n", "\r\n", "\x0b", "\x0c", " \t none \r\n",
    ] {
        assert_eq!(s.parse::<Style>().unwrap(), Style::new());
        assert_eq!(Style::parse(s), Ok(Style::new()));
    }
    assert!(Style::new().is_empty());
    assert_eq!(Style::new().to_string(), "none");
}

#[test]
fn whitespace_between_words() {
    let expected = Color256::RED().on(Color256::BLUE()).bold();
    for s in [
        "bold red on blue",
        "bold\tred\non\rblue",
        "  bold   red   on   blue  ",
        "bold\x0cred on\t\tblue\n",
        "bold\x0bred\x0bon blue",
    ] {
        assert_eq!(s.parse::<Style>().unwrap(), expected);
    }
}

#[test]
fn only_ascii_whitespace_separates_words() {
    assert_eq!(
        "bold\u{a0}red".parse::<Style>(),
        Err(ParseStyleError::Token("bold\u{a0}red".to_string()))
    );
    assert_eq!(
        "bold\u{85}red".parse::<Style>(),
        Err(ParseStyleError::Token("bold\u{85}red".to_string()))
    );
    assert_eq!(
        "bold\u{1f}red".parse::<Style>(),
        Err(ParseStyleError::Token("bold\u{1f}red".to_string()))
    );
    assert_eq!(
        "\u{2003}none".parse::<Style>(),
        Err(ParseStyleError::Token("\u{2003}none".to_string()))
    );
}

#[test]
fn keywords_in_any_case() {
    assert_eq!(
        "BOLD Red ON bLuE NoT dIm".parse::<Style>().unwrap(),
        Color256::RED().on(Color256::BLUE()).bold().not_dim()
    );
    assert_eq!(
        "b RGB(1,2,3) on #FFFFFF".parse::<Style>().unwrap(),
        RgbColor(1, 2, 3).on(RgbColor(255, 255, 255)).bold()
    );
    assert_eq!(
        "on DEFAULT default".parse::<Style>().unwrap(),
        Color::Default.on(Color::Default)
    );
}

#[test]
fn last_write_wins() {
    assert_eq!(
        "bold not bold bold not bold".parse::<Style>().unwrap(),
        Style::new().not_bold()
    );
    assert_eq!(
        "not dim dim".parse::<Style>().unwrap(),
        Style::new().dim()
    );
    assert_eq!(
        "red green blue on red on green".parse::<Style>().unwrap(),
        Color256::BLUE().on(Color256::GREEN())
    );
}

fn every_attribute() -> [Attribute; 13] {
    [
        Attribute::Bold,
        Attribute::Dim,
        Attribute::Italic,
        Attribute::Underline,
        Attribute::Blink,
        Attribute::Blink2,
        Attribute::Reverse,
        Attribute::Conceal,
        Attribute::Strike,
        Attribute::Underline2,
        Attribute::Frame,
        Attribute::Encircle,
        Attribute::Overline,
    ]
}

#[test]
fn enable_then_query() {
    for x in every_attribute() {
        assert!(Style::new().enable(x).is_enabled(x));
        assert!(!Style::new().enable(x).is_disabled(x));
        assert!(Style::new().disable(x).is_disabled(x));
        assert!(!Style::new().disable(x).is_enabled(x));
        assert!(Style::new().disable(x).enable(x).is_enabled(x));
        assert!(!Style::new().disable(x).enable(x).is_disabled(x));
        assert!(Style::new().enable(x).disable(x).is_disabled(x));
        assert!(!Style::new().enable(x).disable(x).is_enabled(x));
        assert!(!Style::new().is_enabled(x));
        assert!(!Style::new().is_disabled(x));
    }
}

#[test]
fn enabled_and_disabled_stay_apart() {
    let style = Style::new()
        .enabled_attributes(Attribute::Bold | Attribute::Dim)
        .disabled_attributes(Attribute::Dim | Attribute::Italic);
    assert_eq!(style.get_enabled_attributes(), AttributeSet::from(Attribute::Bold));
    assert_eq!(style.get_disabled_attributes(), Attribute::Dim | Attribute::Italic);
    let style = style.enabled_attributes(Attribute::Italic);
    assert_eq!(style.get_enabled_attributes(), AttributeSet::from(Attribute::Italic));
    assert_eq!(style.get_disabled_attributes(), AttributeSet::from(Attribute::Dim));
    let style = style.enable(Attribute::Dim | Attribute::Frame);
    assert_eq!(
        style.get_enabled_attributes(),
        Attribute::Italic | Attribute::Dim | Attribute::Frame
    );
    assert_eq!(style.get_disabled_attributes(), AttributeSet::new());
    let style = style.disable(AttributeSet::ALL());
    assert_eq!(style.get_enabled_attributes(), AttributeSet::new());
    assert_eq!(style.get_disabled_attributes(), AttributeSet::ALL());
}

#[test]
fn named_attribute_methods() {
    let all = Style::new()
        .bold()
        .dim()
        .italic()
        .underline()
        .blink()
        .blink2()
        .reverse()
        .conceal()
        .strike()
        .underline2()
        .frame()
        .encircle()
        .overline();
    assert_eq!(all, Style::from(AttributeSet::ALL()));
    let none = all
        .not_bold()
        .not_dim()
        .not_italic()
        .not_underline()
        .not_blink()
        .not_blink2()
        .not_reverse()
        .not_conceal()
        .not_strike()
        .not_underline2()
        .not_frame()
        .not_encircle()
        .not_overline();
    assert_eq!(none, Style::new().disabled_attributes(AttributeSet::ALL()));
    assert_eq!(Style::new().blink2(), Style::new().enable(Attribute::Blink2));
    assert_eq!(Style::new().not_frame(), Style::new().disable(Attribute::Frame));
}

#[test]
fn is_empty_of_each_field() {
    assert!(Style::new().is_empty());
    assert!(!Style::new().foreground(Some(Color::Default)).is_empty());
    assert!(!Style::new().background(Some(Color::Default)).is_empty());
    assert!(!Style::new().bold().is_empty());
    assert!(!Style::new().not_bold().is_empty());
    assert!(Style::new().foreground(Some(Color::Default)).foreground(None).is_empty());
}

#[test]
fn patch_colors_keep_the_first() {
    let red = Style::from(Color256::RED());
    let blue_on_white = Color256::BLUE().on(Color256::WHITE());
    assert_eq!(red.patch(blue_on_white), Color256::RED().on(Color256::WHITE()));
    assert_eq!(blue_on_white.patch(red), blue_on_white);
    assert_eq!(Style::new().patch(blue_on_white), blue_on_white);
    assert_eq!(blue_on_white.patch(Style::new()), blue_on_white);
    let default = Style::from(Color::Default);
    assert_eq!(default.patch(red), default);
    assert_eq!(
        Color256::RED().as_background().patch(default),
        Color::Default.on(Color256::RED())
    );
}

#[test]
fn patch_attributes_follow_the_second() {
    let a = Style::new().bold().not_dim().italic();
    let b = Style::new().not_bold().dim().underline();
    let patched = a.patch(b);
    assert_eq!(
        patched.get_enabled_attributes(),
        Attribute::Italic | Attribute::Dim | Attribute::Underline
    );
    assert_eq!(patched.get_disabled_attributes(), AttributeSet::from(Attribute::Bold));
    assert_eq!(patched, Style::new().italic().dim().underline().not_bold());
    let back = b.patch(a);
    assert_eq!(back, Style::new().bold().not_dim().italic().underline());
    assert_eq!(a.patch(Style::new()), a);
    assert_eq!(Style::new().patch(a), a);
    assert_eq!(a.patch(a), a);
}

#[test]
fn patch_in_the_middle_of_text() {
    let outer = "red bold".parse::<Style>().unwrap();
    let inner = "blue not bold".parse::<Style>().unwrap();
    let patched = outer.patch(inner);
    assert_eq!(patched.to_string(), "not bold red");
    assert!(patched.is_disabled(Attribute::Bold));
    assert!(!patched.is_enabled(Attribute::Bold));
}

#[test]
fn style_conversions() {
    let red = Color::Color256(Color256(1));
    assert_eq!(Style::from(red), Style::new().foreground(Some(red)));
    assert_eq!(Style::from(Color256(1)), Style::new().foreground(Some(red)));
    assert_eq!(Style::from(1u8), Style::new().foreground(Some(red)));
    assert_eq!(
        Style::from(RgbColor(1, 2, 3)),
        Style::new().foreground(Some(Color::Rgb(RgbColor(1, 2, 3))))
    );
    assert_eq!(
        Style::from((1u8, 2u8, 3u8)),
        Style::new().foreground(Some(Color::Rgb(RgbColor(1, 2, 3))))
    );
    assert_eq!(Style::from(Attribute::Dim), Style::new().dim());
    assert_eq!(
        Style::from(Attribute::Dim | Attribute::Bold),
        Style::new().dim().bold()
    );
}

#[test]
fn canonical_order_of_the_text() {
    let style = "on blue overline red not frame bold".parse::<Style>().unwrap();
    assert_eq!(style.to_string(), "bold not frame overline red on blue");
    let style = "on #ABCDEF color(42) uu not u".parse::<Style>().unwrap();
    assert_eq!(style.to_string(), "not underline underline2 color(42) on #abcdef");
}

fn sample_colors() -> Vec<Option<Color>> {
    vec![
        None,
        Some(Color::Default),
        Some(Color::Color256(Color256(0))),
        Some(Color::Color256(Color256(42))),
        Some(Color::Color256(Color256(242))),
        Some(Color::Rgb(RgbColor(0, 128, 255))),
    ]
}

#[test]
fn text_round_trip() {
    let attrs = every_attribute();
    for fg in sample_colors() {
        for bg in sample_colors() {
            for i in 0..attrs.len() {
                for j in 0..attrs.len() {
                    let style = Style::new()
                        .foreground(fg)
                        .background(bg)
                        .enable(attrs[i])
                        .disable(attrs[j]);
                    assert_eq!(style.to_string().parse::<Style>().unwrap(), style);
                }
            }
            let style = Style::new().foreground(fg).background(bg);
            assert_eq!(style.to_string().parse::<Style>().unwrap(), style);
            let style = style.enabled_attributes(AttributeSet::ALL());
            assert_eq!(style.to_string().parse::<Style>().unwrap(), style);
            let style = style.disabled_attributes(AttributeSet::ALL());
            assert_eq!(style.to_string().parse::<Style>().unwrap(), style);
        }
    }
}

#[test]
fn attributes_given_together() {
    let style = Style::new().bold().not_dim().attributes(
        Attribute::Italic | Attribute::Frame,
        Attribute::Frame | Attribute::Strike,
    );
    assert_eq!(style.get_enabled_attributes(), AttributeSet::from(Attribute::Italic));
    assert_eq!(style.get_disabled_attributes(), AttributeSet::from(Attribute::Strike));
    assert!(!style.is_enabled(Attribute::Frame));
    assert!(!style.is_disabled(Attribute::Frame));
    assert_eq!(style.to_string(), "italic not strike");
    let style = Color256::RED()
        .as_foreground()
        .attributes(AttributeSet::ALL(), AttributeSet::ALL());
    assert_eq!(style, Color256::RED().as_foreground());
}
