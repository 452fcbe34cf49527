//! A theme as a theme file writes it: every colour a text.

use vstd::prelude::*;

verus! {

/// A theme file.
#[derive(Clone, PartialEq, Eq, Debug)]
pub struct YAMLTheme {
    pub colors: YAMLThemeColors,
}

/// The colours of a theme file with its name and author.
#[derive(Clone, PartialEq, Eq, Debug)]
pub struct YAMLThemeColors {
    pub name: String,
    pub author: String,
    pub primary: YAMLThemePrimary,
    pub cursor: YAMLThemeCursor,
    pub normal: YAMLThemeNormal,
    pub bright: YAMLThemeBright,
}

#[derive(Clone, PartialEq, Eq, Debug)]
pub struct YAMLThemePrimary {
    pub background: String,
    pub foreground: String,
}

#[derive(Clone, PartialEq, Eq, Debug)]
pub struct YAMLThemeCursor {
    pub text: String,
    pub cursor: String,
}

#[derive(Clone, PartialEq, Eq, Debug)]
pub struct YAMLThemeNormal {
    pub black: String,
    pub red: String,
    pub green: String,
    pub yellow: String,
    pub blue: String,
    pub magenta: String,
    pub cyan: String,
    pub white: String,
}

#[derive(Clone, PartialEq, Eq, Debug)]
pub struct YAMLThemeBright {
    pub black: String,
    pub red: String,
    pub green: String,
    pub yellow: String,
    pub blue: String,
    pub magenta: String,
    pub cyan: String,
    pub white: String,
}

impl YAMLThemePrimary {
    /// The colours as written, in the order of the fields.
    pub open spec fn texts(self) -> Seq<Seq<char>> {
        seq![self.background@, self.foreground@]
    }
}

impl YAMLThemeCursor {
    /// The colours as written, in the order of the fields.
    pub open spec fn texts(self) -> Seq<Seq<char>> {
        seq![self.text@, self.cursor@]
    }
}

impl YAMLThemeNormal {
    /// The colours as written, in the order of the fields.
    pub open spec fn texts(self) -> Seq<Seq<char>> {
        seq![
            self.black@,
            self.red@,
            self.green@,
            self.yellow@,
            self.blue@,
            self.magenta@,
            self.cyan@,
            self.white@,
        ]
    }
}

impl YAMLThemeBright {
    /// The colours as written, in the order of the fields.
    pub open spec fn texts(self) -> Seq<Seq<char>> {
        seq![
            self.black@,
            self.red@,
            self.green@,
            self.yellow@,
            self.blue@,
            self.magenta@,
            self.cyan@,
            self.white@,
        ]
    }
}

impl YAMLThemeColors {
    /// All twenty colours as written: primary, cursor, normal, bright.
    pub open spec fn texts(self) -> Seq<Seq<char>> {
        seq![
            self.primary.background@,
            self.primary.foreground@,
            self.cursor.text@,
            self.cursor.cursor@,
            self.normal.black@,
            self.normal.red@,
            self.normal.green@,
            self.normal.yellow@,
            self.normal.blue@,
            self.normal.magenta@,
            self.normal.cyan@,
            self.normal.white@,
            self.bright.black@,
            self.bright.red@,
            self.bright.green@,
            self.bright.yellow@,
            self.bright.blue@,
            self.bright.magenta@,
            self.bright.cyan@,
            self.bright.white@,
        ]
    }
}

} // verus!
