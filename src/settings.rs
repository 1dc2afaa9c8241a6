//! The settings of one run: the language pair, where text is taken from, and the
//! preferences of the display.
use vstd::prelude::*;

use crate::api::{known_639_1, Lang};

verus! {

/// A place that text to translate can come from.
#[derive(Debug, Clone, Copy, PartialEq, Eq, Structural)]
pub enum InputKind {
    /// The standard input stream, where data is piped in.
    Stdin,
    /// The primary selection.
    SelectionPrimary,
    /// The clipboard.
    SelectionClipboard,
}

/// The colour scheme of the graphical display.
#[derive(Debug, Clone, Copy, PartialEq, Eq, Structural)]
pub enum Theme {
    Dark,
    Light,
}

impl Default for Theme {
    fn default() -> (r: Theme)
        ensures
            r == Theme::Dark,
    {
        Theme::Dark
    }
}

/// The settings of a run. The languages are ISO 639-1 codes.
#[derive(Debug, Clone)]
pub struct Settings {
    pub source: String,
    pub target: String,
    pub order: Vec<InputKind>,
    pub width: u32,
    pub height: u32,
    pub centered: bool,
    pub theme: Theme,
    pub decorations: bool,
    pub textsize: u32,
    pub database: Option<String>,
}

impl Default for Settings {
    /// English to Spanish, text from the standard input, then the primary selection,
    /// then the clipboard; a centred 720 by 480 window, dark, decorated, text size 30;
    /// no database.
    fn default() -> (r: Settings)
        ensures
            r.source@ == "en"@,
            r.target@ == "es"@,
            r.order@ == seq![InputKind::Stdin, InputKind::SelectionPrimary, InputKind::SelectionClipboard],
            r.width == 720,
            r.height == 480,
            r.centered,
            r.theme == Theme::Dark,
            r.decorations,
            r.textsize == 30,
            r.database is None,
    {
        Settings {
            source: String::from_str("en"),
            target: String::from_str("es"),
            order: vec![InputKind::Stdin, InputKind::SelectionPrimary, InputKind::SelectionClipboard],
            width: 720,
            height: 480,
            centered: true,
            theme: Theme::Dark,
            decorations: true,
            textsize: 30,
            database: None,
        }
    }
}

impl Settings {
    pub fn source(&self) -> (r: &String)
        ensures
            r == self.source,
    {
        &self.source
    }

    pub fn target(&self) -> (r: &String)
        ensures
            r == self.target,
    {
        &self.target
    }

    pub fn order(&self) -> (r: &Vec<InputKind>)
        ensures
            r == self.order,
    {
        &self.order
    }

    /// The language pair of the settings, where both codes name a language.
    pub fn lang(&self) -> (r: Option<Lang>)
        ensures
            r is Some <==> known_639_1(self.source@) && known_639_1(self.target@),
            r matches Some(l) ==> l.from@ == self.source@ && l.to@ == self.target@,
    {
        Lang::new(self.source.as_str(), self.target.as_str())
    }
}

} // verus!
