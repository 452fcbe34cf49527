//! The colour settings as the first layout of the configuration held them.

use vstd::prelude::*;
use vstd::string::*;

verus! {

/// Which colour of the theme to use.
#[derive(Copy, Clone, PartialEq, Eq, Debug, Structural)]
pub enum ColorTermusic {
    Reset,
    Foreground,
    Background,
    Black,
    Red,
    Green,
    Yellow,
    Blue,
    Magenta,
    Cyan,
    White,
    LightBlack,
    LightRed,
    LightGreen,
    LightYellow,
    LightBlue,
    LightMagenta,
    LightCyan,
    LightWhite,
}

/// A colour as red, green and blue.
#[derive(Copy, Clone, PartialEq, Eq, Debug, Structural)]
pub struct AlacrittyColor {
    pub r: u8,
    pub g: u8,
    pub b: u8,
}

/// A theme of twenty colours with its name and author.
#[derive(Clone, PartialEq, Eq, Debug)]
pub struct Alacritty {
    pub name: String,
    pub author: String,
    pub background: AlacrittyColor,
    pub foreground: AlacrittyColor,
    pub cursor: AlacrittyColor,
    pub text: AlacrittyColor,
    pub black: AlacrittyColor,
    pub red: AlacrittyColor,
    pub green: AlacrittyColor,
    pub yellow: AlacrittyColor,
    pub blue: AlacrittyColor,
    pub magenta: AlacrittyColor,
    pub cyan: AlacrittyColor,
    pub white: AlacrittyColor,
    pub light_black: AlacrittyColor,
    pub light_red: AlacrittyColor,
    pub light_green: AlacrittyColor,
    pub light_yellow: AlacrittyColor,
    pub light_blue: AlacrittyColor,
    pub light_magenta: AlacrittyColor,
    pub light_cyan: AlacrittyColor,
    pub light_white: AlacrittyColor,
}

/// The colours of the theme that comes with the program.
pub open spec fn default_theme_colors() -> Seq<AlacrittyColor> {
    seq![
        AlacrittyColor { r: 0x10, g: 0x14, b: 0x21 },
        AlacrittyColor { r: 0xff, g: 0xfb, b: 0xf6 },
        AlacrittyColor { r: 0xff, g: 0xff, b: 0xff },
        AlacrittyColor { r: 0x1e, g: 0x1e, b: 0x1e },
        AlacrittyColor { r: 0x2e, g: 0x2e, b: 0x2e },
        AlacrittyColor { r: 0xeb, g: 0x41, b: 0x29 },
        AlacrittyColor { r: 0xab, g: 0xe0, b: 0x47 },
        AlacrittyColor { r: 0xf6, g: 0xc7, b: 0x44 },
        AlacrittyColor { r: 0x47, g: 0xa0, b: 0xf3 },
        AlacrittyColor { r: 0x7b, g: 0x5c, b: 0xb0 },
        AlacrittyColor { r: 0x64, g: 0xdb, b: 0xed },
        AlacrittyColor { r: 0xe5, g: 0xe9, b: 0xf0 },
        AlacrittyColor { r: 0x56, g: 0x56, b: 0x56 },
        AlacrittyColor { r: 0xec, g: 0x53, b: 0x57 },
        AlacrittyColor { r: 0xc0, g: 0xe1, b: 0x7d },
        AlacrittyColor { r: 0xf9, g: 0xda, b: 0x6a },
        AlacrittyColor { r: 0x49, g: 0xa4, b: 0xf8 },
        AlacrittyColor { r: 0xa4, g: 0x7d, b: 0xe9 },
        AlacrittyColor { r: 0x99, g: 0xfa, b: 0xf2 },
        AlacrittyColor { r: 0xff, g: 0xff, b: 0xff },
    ]
}

impl Alacritty {
    /// The twenty colours in the order of the fields.
    pub open spec fn colors(self) -> Seq<AlacrittyColor> {
        seq![
            self.background,
            self.foreground,
            self.cursor,
            self.text,
            self.black,
            self.red,
            self.green,
            self.yellow,
            self.blue,
            self.magenta,
            self.cyan,
            self.white,
            self.light_black,
            self.light_red,
            self.light_green,
            self.light_yellow,
            self.light_blue,
            self.light_magenta,
            self.light_cyan,
            self.light_white,
        ]
    }
}

impl Default for Alacritty {
    /// The theme that comes with the program.
    fn default() -> (r: Alacritty)
        ensures
            r.name@ == "default"@,
            r.author@ == "Larry Hao"@,
            r.colors() == default_theme_colors(),
    {
        let r = Alacritty {
            name: String::from_str("default"),
            author: String::from_str("Larry Hao"),
            background: AlacrittyColor { r: 0x10, g: 0x14, b: 0x21 },
            foreground: AlacrittyColor { r: 0xff, g: 0xfb, b: 0xf6 },
            cursor: AlacrittyColor { r: 0xff, g: 0xff, b: 0xff },
            text: AlacrittyColor { r: 0x1e, g: 0x1e, b: 0x1e },
            black: AlacrittyColor { r: 0x2e, g: 0x2e, b: 0x2e },
            red: AlacrittyColor { r: 0xeb, g: 0x41, b: 0x29 },
            green: AlacrittyColor { r: 0xab, g: 0xe0, b: 0x47 },
            yellow: AlacrittyColor { r: 0xf6, g: 0xc7, b: 0x44 },
            blue: AlacrittyColor { r: 0x47, g: 0xa0, b: 0xf3 },
            magenta: AlacrittyColor { r: 0x7b, g: 0x5c, b: 0xb0 },
            cyan: AlacrittyColor { r: 0x64, g: 0xdb, b: 0xed },
            white: AlacrittyColor { r: 0xe5, g: 0xe9, b: 0xf0 },
            light_black: AlacrittyColor { r: 0x56, g: 0x56, b: 0x56 },
            light_red: AlacrittyColor { r: 0xec, g: 0x53, b: 0x57 },
            light_green: AlacrittyColor { r: 0xc0, g: 0xe1, b: 0x7d },
            light_yellow: AlacrittyColor { r: 0xf9, g: 0xda, b: 0x6a },
            light_blue: AlacrittyColor { r: 0x49, g: 0xa4, b: 0xf8 },
            light_magenta: AlacrittyColor { r: 0xa4, g: 0x7d, b: 0xe9 },
            light_cyan: AlacrittyColor { r: 0x99, g: 0xfa, b: 0xf2 },
            light_white: AlacrittyColor { r: 0xff, g: 0xff, b: 0xff },
        };
        assert(r.colors() =~= default_theme_colors());
        r
    }
}

/// Which colour of the theme each part of the screen uses, and the theme.
#[derive(Clone, PartialEq, Eq, Debug)]
pub struct StyleColorSymbol {
    pub library_foreground: ColorTermusic,
    pub library_background: ColorTermusic,
    pub library_border: ColorTermusic,
    pub library_highlight: ColorTermusic,
    pub playlist_foreground: ColorTermusic,
    pub playlist_background: ColorTermusic,
    pub playlist_border: ColorTermusic,
    pub playlist_highlight: ColorTermusic,
    pub lyric_foreground: ColorTermusic,
    pub lyric_background: ColorTermusic,
    pub lyric_border: ColorTermusic,
    pub progress_foreground: ColorTermusic,
    pub progress_background: ColorTermusic,
    pub progress_border: ColorTermusic,
    pub important_popup_foreground: ColorTermusic,
    pub important_popup_background: ColorTermusic,
    pub important_popup_border: ColorTermusic,
    pub fallback_foreground: ColorTermusic,
    pub fallback_background: ColorTermusic,
    pub fallback_border: ColorTermusic,
    pub fallback_highlight: ColorTermusic,
    pub alacritty_theme: Alacritty,
}

impl StyleColorSymbol {
    /// The twenty-one choices in the order of the fields.
    pub open spec fn choices(self) -> Seq<ColorTermusic> {
        seq![
            self.library_foreground,
            self.library_background,
            self.library_border,
            self.library_highlight,
            self.playlist_foreground,
            self.playlist_background,
            self.playlist_border,
            self.playlist_highlight,
            self.lyric_foreground,
            self.lyric_background,
            self.lyric_border,
            self.progress_foreground,
            self.progress_background,
            self.progress_border,
            self.important_popup_foreground,
            self.important_popup_background,
            self.important_popup_border,
            self.fallback_foreground,
            self.fallback_background,
            self.fallback_border,
            self.fallback_highlight,
        ]
    }
}

/// The choices that come with the program.
pub open spec fn default_choices() -> Seq<ColorTermusic> {
    seq![
        ColorTermusic::Foreground,
        ColorTermusic::Reset,
        ColorTermusic::Blue,
        ColorTermusic::LightYellow,
        ColorTermusic::Foreground,
        ColorTermusic::Reset,
        ColorTermusic::Blue,
        ColorTermusic::LightYellow,
        ColorTermusic::Foreground,
        ColorTermusic::Reset,
        ColorTermusic::Blue,
        ColorTermusic::LightBlack,
        ColorTermusic::Reset,
        ColorTermusic::Blue,
        ColorTermusic::Yellow,
        ColorTermusic::Reset,
        ColorTermusic::Yellow,
        ColorTermusic::Foreground,
        ColorTermusic::Reset,
        ColorTermusic::Blue,
        ColorTermusic::LightYellow,
    ]
}

impl Default for StyleColorSymbol {
    /// The choices and the theme that come with the program.
    fn default() -> (r: StyleColorSymbol)
        ensures
            r.choices() == default_choices(),
            r.alacritty_theme.name@ == "default"@,
            r.alacritty_theme.author@ == "Larry Hao"@,
            r.alacritty_theme.colors() == default_theme_colors(),
    {
        let r = StyleColorSymbol {
            library_foreground: ColorTermusic::Foreground,
            library_background: ColorTermusic::Reset,
            library_border: ColorTermusic::Blue,
            library_highlight: ColorTermusic::LightYellow,
            playlist_foreground: ColorTermusic::Foreground,
            playlist_background: ColorTermusic::Reset,
            playlist_border: ColorTermusic::Blue,
            playlist_highlight: ColorTermusic::LightYellow,
            lyric_foreground: ColorTermusic::Foreground,
            lyric_background: ColorTermusic::Reset,
            lyric_border: ColorTermusic::Blue,
            progress_foreground: ColorTermusic::LightBlack,
            progress_background: ColorTermusic::Reset,
            progress_border: ColorTermusic::Blue,
            important_popup_foreground: ColorTermusic::Yellow,
            important_popup_background: ColorTermusic::Reset,
            important_popup_border: ColorTermusic::Yellow,
            fallback_foreground: ColorTermusic::Foreground,
            fallback_background: ColorTermusic::Reset,
            fallback_border: ColorTermusic::Blue,
            fallback_highlight: ColorTermusic::LightYellow,
            alacritty_theme: Alacritty::default(),
        };
        assert(r.choices() =~= default_choices());
        r
    }
}

} // verus!
