use parse_style::{Color, Color256, ConversionError, ParseColorError, RgbColor, Style};

#[test]
fn test_display_default() {
    assert_eq!(Color::Default.to_string(), "default");
}

#[test]
fn test_display_color256() {
    assert_eq!(Color::from(118).to_string(), "chartreuse1");
}

#[test]
fn test_display_rgbcolor() {
    assert_eq!(Color::from((111, 120, 189)).to_string(), "#6f78bd");
}

#[test]
fn test_parse_default() {
    assert_eq!("default".parse::<Color>().unwrap(), Color::Default);
}

#[test]
fn test_parse_color256() {
    assert_eq!(
        "chartreuse1".parse::<Color>().unwrap(),
        Color::Color256(Color256(118))
    );
}

#[test]
fn test_parse_rgbcolor() {
    assert_eq!(
        "#6f78bd".parse::<Color>().unwrap(),
        Color::Rgb(RgbColor(111, 120, 189))
    );
}

#[test]
fn test_parse_err() {
    assert!("mauve".parse::<Color>().is_err());
}

#[test]
fn parse_default_in_any_case() {
    assert_eq!("DEFAULT".parse::<Color>().unwrap(), Color::Default);
    assert_eq!("Default".parse::<Color>().unwrap(), Color::Default);
    assert_eq!(Color::parse("dEfAuLt"), Ok(Color::Default));
}

#[test]
fn parse_error_keeps_the_word() {
    assert_eq!(
        "mauve".parse::<Color>(),
        Err(ParseColorError("mauve".to_string()))
    );
    assert_eq!(
        "default ".parse::<Color>(),
        Err(ParseColorError("default ".to_string()))
    );
    assert_eq!("".parse::<Color>(), Err(ParseColorError(String::new())));
}

#[test]
fn parse_each_kind() {
    assert_eq!("color(7)".parse::<Color>().unwrap(), Color::Color256(Color256(7)));
    assert_eq!("RED".parse::<Color>().unwrap(), Color::Color256(Color256(1)));
    assert_eq!("rgb(1,2,3)".parse::<Color>().unwrap(), Color::Rgb(RgbColor(1, 2, 3)));
    assert_eq!("#000000".parse::<Color>().unwrap(), Color::Rgb(RgbColor(0, 0, 0)));
}

#[test]
fn color_conversions() {
    assert_eq!(Color::from(Color256(3)), Color::Color256(Color256(3)));
    assert_eq!(Color::from(RgbColor(1, 2, 3)), Color::Rgb(RgbColor(1, 2, 3)));
    assert_eq!(Color::from(3u8), Color::Color256(Color256(3)));
    assert_eq!(Color::from((1u8, 2u8, 3u8)), Color::Rgb(RgbColor(1, 2, 3)));
    let into: Color = Color256::RED().into();
    assert_eq!(into, Color::Color256(Color256(1)));
    assert_eq!(Color::default(), Color::Default);
}

#[test]
fn color_round_trip_of_each_kind() {
    for color in [
        Color::Default,
        Color::Color256(Color256(0)),
        Color::Color256(Color256(19)),
        Color::Color256(Color256(255)),
        Color::Rgb(RgbColor(0, 0, 0)),
        Color::Rgb(RgbColor(255, 254, 253)),
    ] {
        assert_eq!(color.to_string().parse::<Color>().unwrap(), color);
    }
}

#[test]
fn color_styles() {
    let red = Color::Color256(Color256(1));
    assert_eq!(red.as_foreground(), Style::new().foreground(Some(red)));
    assert_eq!(red.as_background(), Style::new().background(Some(red)));
    assert_eq!(
        red.on(Color::Default),
        Style::new().foreground(Some(red)).background(Some(Color::Default))
    );
    assert_eq!(
        Color::Default.on(RgbColor(1, 2, 3)),
        Style::new()
            .foreground(Some(Color::Default))
            .background(Some(Color::Rgb(RgbColor(1, 2, 3))))
    );
    assert_eq!(red.on(4u8).to_string(), "red on blue");
    assert_eq!(red.on((0u8, 0u8, 255u8)).to_string(), "red on #0000ff");
}

#[test]
fn colors_order_by_kind_then_value() {
    assert!(Color::Default < Color::Color256(Color256(0)));
    assert!(Color::Color256(Color256(255)) < Color::Rgb(RgbColor(0, 0, 0)));
    assert!(Color::Color256(Color256(1)) < Color::Color256(Color256(2)));
    assert!(Color::Rgb(RgbColor(0, 0, 1)) < Color::Rgb(RgbColor(0, 1, 0)));
}

#[test]
fn default_has_no_concrete_color() {
    assert_eq!(Color::Default.concrete(), Err(ConversionError));
    assert_eq!(
        Color::Color256(Color256(3)).concrete(),
        Ok(Color::Color256(Color256(3)))
    );
    assert_eq!(
        Color::Rgb(RgbColor(1, 2, 3)).concrete(),
        Ok(Color::Rgb(RgbColor(1, 2, 3)))
    );
}
