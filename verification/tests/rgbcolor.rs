use parse_style::{Color, ParseColorError, RgbColor, Style};

#[test]
fn test_display() {
    assert_eq!(RgbColor(0x7F, 0xFF, 0x00).to_string(), "#7fff00");
}

#[test]
fn parse_both_forms() {
    assert_eq!("#7fff00".parse::<RgbColor>().unwrap(), RgbColor(0x7F, 0xFF, 0x00));
    assert_eq!("#7FFF00".parse::<RgbColor>().unwrap(), RgbColor(0x7F, 0xFF, 0x00));
    assert_eq!("rgb(78,126,70)".parse::<RgbColor>().unwrap(), RgbColor(78, 126, 70));
    assert_eq!("RGB(78,126,70)".parse::<RgbColor>().unwrap(), RgbColor(78, 126, 70));
}

#[test]
fn parse_documented_rgb_examples() {
    assert_eq!("#e99695".parse::<RgbColor>().unwrap(), RgbColor(233, 150, 149));
    assert_eq!("rgb(233,150,149)".parse::<RgbColor>().unwrap(), RgbColor(233, 150, 149));
    assert_eq!(RgbColor(233, 150, 149).to_string(), "#e99695");
}

#[test]
fn words_that_are_no_rgb_color() {
    for word in [
        "7fff00",
        "# 7fff00",
        "#000",
        "rgb(78, 126, 70)",
        "rgb(78,126)",
        "rgb(78,126,70,0)",
        "rgb(0x7f,0xff,0x00)",
        "",
        "#",
        "#7fff0",
        "#7fff000",
        "#7fff0g",
        "#7fff0\u{e9}",
        "##7fff0",
        "rgb",
        "rgb(",
        "rgb()",
        "rgb(,,)",
        "rgb(1,2,)",
        "rgb(,2,3)",
        "rgb(1,,3)",
        "rgb(1,2,3",
        "rgb(1,2,3))",
        "rgb(256,0,0)",
        "rgb(0,256,0)",
        "rgb(0,0,256)",
        "rgb(-1,0,0)",
        "rgb(+1,0,0)",
        "rgb(1 ,2,3)",
        "rgb( 1,2,3)",
        "rgb(1,2,3 )",
        "rgb(1;2;3)",
        "rg(1,2,3)",
        "rgba(1,2,3)",
    ] {
        assert_eq!(
            word.parse::<RgbColor>(),
            Err(ParseColorError(word.to_string()))
        );
    }
}

#[test]
fn strict_rgb_form() {
    assert!("rgb(78, 126, 70)".parse::<RgbColor>().is_err());
    assert!("rgb(1, 2, 3)".parse::<RgbColor>().is_err());
    assert!("rgb(78, 126, 70)".parse::<Color>().is_err());
}

#[test]
fn components_with_leading_zeros() {
    assert_eq!("rgb(001,002,003)".parse::<RgbColor>().unwrap(), RgbColor(1, 2, 3));
    assert_eq!("Rgb(255,255,255)".parse::<RgbColor>().unwrap(), RgbColor(255, 255, 255));
    assert_eq!("rGB(0,0,0)".parse::<RgbColor>().unwrap(), RgbColor(0, 0, 0));
}

#[test]
fn hex_digits_in_either_case() {
    assert_eq!("#AbCdEf".parse::<RgbColor>().unwrap(), RgbColor(0xAB, 0xCD, 0xEF));
    assert_eq!("#000000".parse::<RgbColor>().unwrap(), RgbColor(0, 0, 0));
    assert_eq!("#ffffff".parse::<RgbColor>().unwrap(), RgbColor(255, 255, 255));
    assert_eq!("#0A0b09".parse::<RgbColor>().unwrap(), RgbColor(10, 11, 9));
}

#[test]
fn display_is_lower_case_and_padded() {
    assert_eq!(RgbColor(0, 0, 0).to_string(), "#000000");
    assert_eq!(RgbColor(1, 2, 3).to_string(), "#010203");
    assert_eq!(RgbColor(255, 255, 255).to_string(), "#ffffff");
    assert_eq!(RgbColor(0xAB, 0x0C, 0xD0).to_string(), "#ab0cd0");
    assert_eq!(RgbColor(111, 120, 189).to_string(), "#6f78bd");
}

#[test]
fn components() {
    let color = RgbColor(1, 2, 3);
    assert_eq!(color.red(), 1);
    assert_eq!(color.green(), 2);
    assert_eq!(color.blue(), 3);
    assert_eq!(RgbColor::from((1, 2, 3)), color);
    assert_eq!(<(u8, u8, u8)>::from(color), (1, 2, 3));
}

#[test]
fn round_trip_over_a_grid() {
    for r in [0u8, 1, 9, 10, 15, 16, 99, 100, 128, 254, 255] {
        for g in [0u8, 7, 77, 177, 255] {
            for b in [0u8, 15, 16, 240, 255] {
                let color = RgbColor(r, g, b);
                assert_eq!(color.to_string().parse::<RgbColor>().unwrap(), color);
                assert_eq!(
                    format!("rgb({},{},{})", r, g, b).parse::<RgbColor>().unwrap(),
                    color
                );
            }
        }
    }
}

#[test]
fn rgb_styles() {
    let color = RgbColor(1, 2, 3);
    assert_eq!(color.as_foreground(), Style::new().foreground(Some(Color::Rgb(color))));
    assert_eq!(color.as_background(), Style::new().background(Some(Color::Rgb(color))));
    assert_eq!(
        color.on(Color::Default),
        Style::new().foreground(Some(Color::Rgb(color))).background(Some(Color::Default))
    );
    assert_eq!(color.on(color).to_string(), "#010203 on #010203");
}
