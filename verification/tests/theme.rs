use termusic::config::theme::{
    default_000, default_author, default_fff, default_name, Color, ColorTermusic, Colors,
    ThemeBright, ThemeColor, ThemeColorParseError, ThemeColorWrap, ThemeColors,
    ThemeColorsParseError, ThemeCursor, ThemeNormal, ThemePrimary,
};
use termusic::config::v1;
use termusic::config::yaml_theme::{
    YAMLTheme, YAMLThemeBright, YAMLThemeColors, YAMLThemeCursor, YAMLThemeNormal,
    YAMLThemePrimary,
};

#[test]
fn should_convert_default_without_error() {
    let converted: ThemeColorWrap = v1::StyleColorSymbol::default().into();

    assert_eq!(
        converted.colors,
        Colors {
            library_foreground: ColorTermusic::Foreground,
            library_background: ColorTermusic::Reset,
            library_border: ColorTermusic::Blue,
            library_highlight: ColorTermusic::LightYellow,
            playlist_foreground: ColorTermusic::Foreground,
            playlist_background: ColorTermusic::Reset,
            playlist_border: ColorTermusic::Blue,
            playlist_highlight: ColorTermusic::LightYellow,
            lyric_foreground: ColorTermusic::Foreground,
            lyric_background: ColorTermusic::Reset,
            lyric_border: ColorTermusic::Blue,
            progress_foreground: ColorTermusic::LightBlack,
            progress_background: ColorTermusic::Reset,
            progress_border: ColorTermusic::Blue,

            important_popup_foreground: ColorTermusic::Yellow,
            important_popup_background: ColorTermusic::Reset,
            important_popup_border: ColorTermusic::Yellow,

            fallback_foreground: ColorTermusic::Foreground,
            fallback_background: ColorTermusic::Reset,
            fallback_border: ColorTermusic::Blue,
            fallback_highlight: ColorTermusic::LightYellow
        }
    );

    assert_eq!(
        converted.theme,
        ThemeColors {
            name: "default".into(),
            author: "Larry Hao".into(),
            primary: ThemePrimary {
                background: "#101421".try_into().unwrap(),
                foreground: "#fffbf6".try_into().unwrap()
            },
            cursor: ThemeCursor {
                text: "#1E1E1E".try_into().unwrap(),
                cursor: "#FFFFFF".try_into().unwrap()
            },
            normal: ThemeNormal {
                black: "#2e2e2e".try_into().unwrap(),
                red: "#eb4129".try_into().unwrap(),
                green: "#abe047".try_into().unwrap(),
                yellow: "#f6c744".try_into().unwrap(),
                blue: "#47a0f3".try_into().unwrap(),
                magenta: "#7b5cb0".try_into().unwrap(),
                cyan: "#64dbed".try_into().unwrap(),
                white: "#e5e9f0".try_into().unwrap()
            },
            bright: ThemeBright {
                black: "#565656".try_into().unwrap(),
                red: "#ec5357".try_into().unwrap(),
                green: "#c0e17d".try_into().unwrap(),
                yellow: "#f9da6a".try_into().unwrap(),
                blue: "#49a4f8".try_into().unwrap(),
                magenta: "#a47de9".try_into().unwrap(),
                cyan: "#99faf2".try_into().unwrap(),
                white: "#ffffff".try_into().unwrap()
            }
        }
    );
}

#[test]
fn from_hex_reads_six_digits() {
    assert_eq!(
        ThemeColor::from_hex("#101421"),
        Ok(ThemeColor { r: 0x10, g: 0x14, b: 0x21 })
    );
    assert_eq!(
        ThemeColor::from_hex("FFfbF6"),
        Ok(ThemeColor { r: 0xff, g: 0xfb, b: 0xf6 })
    );
    assert_eq!(
        ThemeColor::from_hex("###000001"),
        Ok(ThemeColor { r: 0, g: 0, b: 1 })
    );
}

#[test]
fn from_hex_takes_a_sign_in_a_pair() {
    assert_eq!(
        ThemeColor::from_hex("#+f+a+0"),
        Ok(ThemeColor { r: 15, g: 10, b: 0 })
    );
}

#[test]
fn from_hex_refuses_a_wrong_length() {
    assert_eq!(
        ThemeColor::from_hex("#12345"),
        Err(ThemeColorParseError::IncorrectLength(5))
    );
    assert_eq!(
        ThemeColor::from_hex(""),
        Err(ThemeColorParseError::IncorrectLength(0))
    );
    assert_eq!(
        ThemeColor::from_hex("#1234567"),
        Err(ThemeColorParseError::IncorrectLength(7))
    );
    // two characters of three bytes each are six bytes, but more than six
    // bytes with one more
    assert_eq!(
        ThemeColor::from_hex("#€€1"),
        Err(ThemeColorParseError::IncorrectLength(7))
    );
}

#[test]
fn from_hex_refuses_what_is_no_digit() {
    assert!(matches!(
        ThemeColor::from_hex("#12345g"),
        Err(ThemeColorParseError::ParseIntError(_))
    ));
    assert!(matches!(
        ThemeColor::from_hex("#-12345"),
        Err(ThemeColorParseError::ParseIntError(_))
    ));
    assert!(matches!(
        ThemeColor::from_hex("#12 456"),
        Err(ThemeColorParseError::ParseIntError(_))
    ));
}

#[test]
fn from_hex_refuses_six_bytes_beyond_ascii() {
    // six bytes in five, four and two characters
    for text in ["é1234", "1é234", "12é34", "€123", "€€"] {
        match ThemeColor::from_hex(text) {
            Err(ThemeColorParseError::ParseIntError(e)) => {
                assert_eq!(e.kind(), &std::num::IntErrorKind::InvalidDigit);
            }
            other => panic!("{:?} for {:?}", other, text),
        }
    }
}

#[test]
fn to_hex_writes_lower_case() {
    assert_eq!(ThemeColor { r: 0, g: 0, b: 0 }.to_hex(), "#000000");
    assert_eq!(ThemeColor { r: 255, g: 171, b: 9 }.to_hex(), "#ffab09");
    let text: String = ThemeColor { r: 1, g: 2, b: 3 }.into();
    assert_eq!(text, "#010203");
}

#[test]
fn hex_round_trip() {
    for r in [0u8, 1, 15, 16, 127, 128, 254, 255] {
        for g in [0u8, 9, 10, 99, 255] {
            for b in [0u8, 17, 160, 255] {
                let c = ThemeColor { r, g, b };
                assert_eq!(ThemeColor::from_hex(&c.to_hex()), Ok(c));
                assert_eq!(ThemeColor::try_from(c.to_hex()), Ok(c));
            }
        }
    }
}

#[test]
fn color_error_in_words() {
    assert_eq!(
        ThemeColorParseError::IncorrectLength(5).to_string(),
        "Failed to parse color because of Incorrect length 5, expected 6"
    );
    assert_eq!(
        ThemeColorParseError::IncorrectLength(120).to_string(),
        "Failed to parse color because of Incorrect length 120, expected 6"
    );
    let e = ThemeColor::from_hex("#zzzzzz").unwrap_err();
    assert_eq!(
        e.to_string(),
        "Failed to parse color because of invalid digit found in string"
    );
    let e: ThemeColorsParseError = e.into();
    assert_eq!(
        e.to_string(),
        "Failed to parse Theme because of Failed to parse color because of invalid digit found in string"
    );
    assert_eq!(
        ThemeColorsParseError::ThemeColor(ThemeColorParseError::IncorrectLength(0)).to_string(),
        "Failed to parse Theme because of Failed to parse color because of Incorrect length 0, expected 6"
    );
}

#[test]
fn color_error_is_copied() {
    let e = ThemeColor::from_hex("#zzzzzz").unwrap_err();
    assert_eq!(e.clone(), e);
    let short = ThemeColor::from_hex("#z").unwrap_err();
    assert_eq!(short.clone(), ThemeColorParseError::IncorrectLength(1));
    assert_ne!(short, e);
    let wrapped = ThemeColorsParseError::ThemeColor(e.clone());
    assert_eq!(wrapped.clone(), ThemeColorsParseError::from(e));
}

#[test]
fn color_index_and_name() {
    assert_eq!(ColorTermusic::Reset.as_usize(), 0);
    assert_eq!(ColorTermusic::Foreground.as_usize(), 1);
    assert_eq!(ColorTermusic::Background.as_usize(), 2);
    assert_eq!(ColorTermusic::White.as_usize(), 10);
    assert_eq!(ColorTermusic::LightBlack.as_usize(), 11);
    assert_eq!(ColorTermusic::LightWhite.as_usize(), 18);
    assert_eq!(ColorTermusic::Reset.as_ref(), "reset");
    assert_eq!(ColorTermusic::Magenta.as_ref(), "magenta");
    assert_eq!(ColorTermusic::LightBlack.as_ref(), "bright_black");
    assert_eq!(ColorTermusic::LightWhite.as_ref(), "bright_white");
}

#[test]
fn defaults() {
    assert_eq!(default_name(), "empty name");
    assert_eq!(default_author(), "empty author");
    assert_eq!(default_000(), ThemeColor::from_hex("#000000").unwrap());
    assert_eq!(default_fff(), ThemeColor::from_hex("#FFFFFF").unwrap());
    let colors = Colors::default();
    assert_eq!(colors.library_foreground, ColorTermusic::Foreground);
    assert_eq!(colors.progress_foreground, ColorTermusic::LightBlack);
    assert_eq!(colors.important_popup_foreground, ColorTermusic::Red);
    assert_eq!(colors.important_popup_border, ColorTermusic::Red);
    assert_eq!(colors.fallback_highlight, ColorTermusic::LightYellow);
    let theme = ThemeColors::default();
    assert_eq!(theme.name, "empty name");
    assert_eq!(theme.author, "empty author");
    assert_eq!(theme.primary.background, default_000());
    assert_eq!(theme.primary.foreground, default_fff());
    assert_eq!(theme.cursor.text, default_fff());
    assert_eq!(theme.cursor.cursor, default_fff());
    assert_eq!(theme.normal.black, default_000());
    assert_eq!(theme.normal.red, ThemeColor::from_hex("#ff0000").unwrap());
    assert_eq!(theme.normal.green, ThemeColor::from_hex("#00ff00").unwrap());
    assert_eq!(theme.normal.yellow, ThemeColor::from_hex("#ffff00").unwrap());
    assert_eq!(theme.normal.blue, ThemeColor::from_hex("#0000ff").unwrap());
    assert_eq!(theme.normal.magenta, ThemeColor::from_hex("#ff00ff").unwrap());
    assert_eq!(theme.normal.cyan, ThemeColor::from_hex("#00ffff").unwrap());
    assert_eq!(theme.normal.white, default_fff());
    assert_eq!(theme.bright.black, ThemeColor::from_hex("#777777").unwrap());
    assert_eq!(theme.bright.red, default_000());
    assert_eq!(theme.bright.white, default_000());
}

#[test]
fn wrap_resolves_colors() {
    let wrap: ThemeColorWrap = v1::StyleColorSymbol::default().into();
    assert_eq!(wrap.library_foreground(), Color::Rgb(0xff, 0xfb, 0xf6));
    assert_eq!(wrap.library_background(), Color::Reset);
    assert_eq!(wrap.library_border(), Color::Rgb(0x47, 0xa0, 0xf3));
    assert_eq!(wrap.library_highlight(), Color::Rgb(0xf9, 0xda, 0x6a));
    assert_eq!(wrap.playlist_foreground(), Color::Rgb(0xff, 0xfb, 0xf6));
    assert_eq!(wrap.playlist_background(), Color::Reset);
    assert_eq!(wrap.playlist_border(), Color::Rgb(0x47, 0xa0, 0xf3));
    assert_eq!(wrap.playlist_highlight(), Color::Rgb(0xf9, 0xda, 0x6a));
    assert_eq!(wrap.lyric_foreground(), Color::Rgb(0xff, 0xfb, 0xf6));
    assert_eq!(wrap.lyric_background(), Color::Reset);
    assert_eq!(wrap.lyric_border(), Color::Rgb(0x47, 0xa0, 0xf3));
    assert_eq!(wrap.progress_foreground(), Color::Rgb(0x56, 0x56, 0x56));
    assert_eq!(wrap.progress_background(), Color::Reset);
    assert_eq!(wrap.progress_border(), Color::Rgb(0x47, 0xa0, 0xf3));
    assert_eq!(wrap.important_popup_foreground(), Color::Rgb(0xf6, 0xc7, 0x44));
    assert_eq!(wrap.important_popup_background(), Color::Reset);
    assert_eq!(wrap.important_popup_border(), Color::Rgb(0xf6, 0xc7, 0x44));
    assert_eq!(wrap.fallback_foreground(), Color::Rgb(0xff, 0xfb, 0xf6));
    assert_eq!(wrap.fallback_background(), Color::Reset);
    assert_eq!(wrap.fallback_border(), Color::Rgb(0x47, 0xa0, 0xf3));
    assert_eq!(wrap.fallback_highlight(), Color::Rgb(0xf9, 0xda, 0x6a));
}

#[test]
fn wrap_resolves_every_choice() {
    let mut wrap = ThemeColorWrap::default();
    wrap.theme = v1::Alacritty::default().into();
    let expected = [
        (ColorTermusic::Reset, Color::Reset),
        (ColorTermusic::Foreground, Color::Rgb(0xff, 0xfb, 0xf6)),
        (ColorTermusic::Background, Color::Rgb(0x10, 0x14, 0x21)),
        (ColorTermusic::Black, Color::Rgb(0x2e, 0x2e, 0x2e)),
        (ColorTermusic::Red, Color::Rgb(0xeb, 0x41, 0x29)),
        (ColorTermusic::Green, Color::Rgb(0xab, 0xe0, 0x47)),
        (ColorTermusic::Yellow, Color::Rgb(0xf6, 0xc7, 0x44)),
        (ColorTermusic::Blue, Color::Rgb(0x47, 0xa0, 0xf3)),
        (ColorTermusic::Magenta, Color::Rgb(0x7b, 0x5c, 0xb0)),
        (ColorTermusic::Cyan, Color::Rgb(0x64, 0xdb, 0xed)),
        (ColorTermusic::White, Color::Rgb(0xe5, 0xe9, 0xf0)),
        (ColorTermusic::LightBlack, Color::Rgb(0x56, 0x56, 0x56)),
        (ColorTermusic::LightRed, Color::Rgb(0xec, 0x53, 0x57)),
        (ColorTermusic::LightGreen, Color::Rgb(0xc0, 0xe1, 0x7d)),
        (ColorTermusic::LightYellow, Color::Rgb(0xf9, 0xda, 0x6a)),
        (ColorTermusic::LightBlue, Color::Rgb(0x49, 0xa4, 0xf8)),
        (ColorTermusic::LightMagenta, Color::Rgb(0xa4, 0x7d, 0xe9)),
        (ColorTermusic::LightCyan, Color::Rgb(0x99, 0xfa, 0xf2)),
        (ColorTermusic::LightWhite, Color::Rgb(0xff, 0xff, 0xff)),
    ];
    for (choice, color) in expected {
        wrap.colors.lyric_border = choice;
        assert_eq!(wrap.lyric_border(), color);
    }
}

#[test]
fn v1_choices_convert_one_for_one() {
    assert_eq!(
        ColorTermusic::from(v1::ColorTermusic::Reset),
        ColorTermusic::Reset
    );
    assert_eq!(
        ColorTermusic::from(v1::ColorTermusic::LightMagenta),
        ColorTermusic::LightMagenta
    );
    assert_eq!(
        ThemeColor::from(v1::AlacrittyColor { r: 1, g: 2, b: 3 }),
        ThemeColor { r: 1, g: 2, b: 3 }
    );
    assert_eq!(Color::from(ThemeColor { r: 1, g: 2, b: 3 }), Color::Rgb(1, 2, 3));
    let mut old = v1::StyleColorSymbol::default();
    old.lyric_border = v1::ColorTermusic::Cyan;
    let colors: Colors = old.into();
    assert_eq!(colors.lyric_border, ColorTermusic::Cyan);
    assert_eq!(colors.library_border, ColorTermusic::Blue);
}

fn yaml_eight(first: &str) -> (String, String, String, String, String, String, String, String) {
    (
        first.to_string(),
        "#000002".to_string(),
        "#000003".to_string(),
        "#000004".to_string(),
        "#000005".to_string(),
        "#000006".to_string(),
        "#000007".to_string(),
        "#000008".to_string(),
    )
}

fn yaml_theme(primary_foreground: &str, normal_black: &str, bright_black: &str) -> YAMLTheme {
    let n = yaml_eight(normal_black);
    let b = yaml_eight(bright_black);
    YAMLTheme {
        colors: YAMLThemeColors {
            name: "night".to_string(),
            author: "somebody".to_string(),
            primary: YAMLThemePrimary {
                background: "#0a0b0c".to_string(),
                foreground: primary_foreground.to_string(),
            },
            cursor: YAMLThemeCursor {
                text: "0x0x0x".replace("0x", "11"),
                cursor: "#222222".to_string(),
            },
            normal: YAMLThemeNormal {
                black: n.0,
                red: n.1,
                green: n.2,
                yellow: n.3,
                blue: n.4,
                magenta: n.5,
                cyan: n.6,
                white: n.7,
            },
            bright: YAMLThemeBright {
                black: b.0,
                red: b.1,
                green: b.2,
                yellow: b.3,
                blue: b.4,
                magenta: b.5,
                cyan: b.6,
                white: b.7,
            },
        },
    }
}

#[test]
fn yaml_theme_is_read() {
    let theme = ThemeColors::try_from(yaml_theme("#0d0e0f", "#000001", "#0000a1")).unwrap();
    assert_eq!(theme.name, "night");
    assert_eq!(theme.author, "somebody");
    assert_eq!(theme.primary.background, ThemeColor { r: 10, g: 11, b: 12 });
    assert_eq!(theme.primary.foreground, ThemeColor { r: 13, g: 14, b: 15 });
    assert_eq!(theme.cursor.text, ThemeColor { r: 0x11, g: 0x11, b: 0x11 });
    assert_eq!(theme.cursor.cursor, ThemeColor { r: 0x22, g: 0x22, b: 0x22 });
    assert_eq!(theme.normal.black, ThemeColor { r: 0, g: 0, b: 1 });
    assert_eq!(theme.normal.red, ThemeColor { r: 0, g: 0, b: 2 });
    assert_eq!(theme.normal.white, ThemeColor { r: 0, g: 0, b: 8 });
    assert_eq!(theme.bright.black, ThemeColor { r: 0, g: 0, b: 0xa1 });
    assert_eq!(theme.bright.cyan, ThemeColor { r: 0, g: 0, b: 7 });
}

#[test]
fn yaml_theme_fails_with_the_first_bad_color() {
    // the foreground is too short, a later colour has a bad digit
    let r = ThemeColors::try_from(yaml_theme("#0d0e", "#00000g", "#0000a1"));
    assert_eq!(
        r,
        Err(ThemeColorsParseError::ThemeColor(
            ThemeColorParseError::IncorrectLength(4)
        ))
    );
    let r = ThemeColors::try_from(yaml_theme("#0d0e0f", "#00000g", "#00"));
    assert!(matches!(
        r,
        Err(ThemeColorsParseError::ThemeColor(
            ThemeColorParseError::ParseIntError(_)
        ))
    ));
    let r = ThemeColors::try_from(yaml_theme("#0d0e0f", "#000001", "#00"));
    assert_eq!(
        r,
        Err(ThemeColorsParseError::ThemeColor(
            ThemeColorParseError::IncorrectLength(2)
        ))
    );
}

#[test]
fn yaml_groups_are_read() {
    let t = yaml_theme("#0d0e0f", "#000001", "zz");
    let colors = t.colors;
    let primary = ThemePrimary::try_from(colors.primary).unwrap();
    assert_eq!(primary.foreground, ThemeColor { r: 13, g: 14, b: 15 });
    let cursor = ThemeCursor::try_from(colors.cursor).unwrap();
    assert_eq!(cursor.text, ThemeColor { r: 17, g: 17, b: 17 });
    let normal = ThemeNormal::try_from(colors.normal).unwrap();
    assert_eq!(normal.magenta, ThemeColor { r: 0, g: 0, b: 6 });
    assert_eq!(
        ThemeBright::try_from(colors.bright),
        Err(ThemeColorsParseError::ThemeColor(
            ThemeColorParseError::IncorrectLength(2)
        ))
    );
}
