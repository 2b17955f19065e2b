//! The spring-night themes: one palette of named colors, rendered as the
//! editor's color scheme, as the theme of its status line and as the theme of
//! a terminal emulator.

pub mod airline;
pub mod alacritty;
pub mod colorscheme;
pub mod defaults;
pub mod error;
pub mod highlight;
pub mod palette;
pub mod render;
pub mod text;

use crate::airline::AirlineTheme;
use crate::alacritty::AlacrittyTheme;
use crate::colorscheme::{scheme_text, Colorscheme};
use crate::defaults::{default_highlights, default_term_colors, lemma_default_scheme_closed};
use crate::error::ConfigError;
use crate::highlight::highlights_of;
use crate::palette::{default_colors, names_of, Palette};
use vstd::prelude::*;
use vstd::string::*;

verus! {

/// The three themes that the library comes with, one after the other with an
/// empty line between them: the color scheme, the theme of the status line,
/// the theme of the terminal emulator.
pub open spec fn all_text() -> Seq<char> {
    scheme_text(
        default_colors(),
        highlights_of(default_highlights()),
        names_of(default_term_colors()),
    ) + "\n"@ + airline::theme_text(default_colors(), airline::default_theme()) + "\n"@
        + alacritty::theme_text(default_colors(), alacritty::default_theme())
}

/// Appends the three themes that the library comes with. This cannot fail:
/// the palette holds every color that the themes refer to.
pub fn write_to(out: &mut String) -> (written: Result<(), ConfigError>)
    ensures
        written is Ok,
        final(out)@ == old(out)@ + all_text(),
{
    proof {
        lemma_default_scheme_closed();
        airline::lemma_default_theme_closed();
        alacritty::lemma_default_theme_closed();
    }
    let palette = Palette::default();
    let mut text = String::new();
    match Colorscheme::new(&palette).write_to(&mut text) {
        Ok(()) => {},
        Err(e) => {
            return Err(e);
        },
    }
    text.append("\n");
    match AirlineTheme::new(&palette).write_to(&mut text) {
        Ok(()) => {},
        Err(e) => {
            return Err(e);
        },
    }
    text.append("\n");
    match AlacrittyTheme::new(&palette).write_to(&mut text) {
        Ok(()) => {},
        Err(e) => {
            return Err(e);
        },
    }
    out.append(text.as_str());
    Ok(())
}

/// One of the files that the themes are written to.
#[derive(Debug, Clone, PartialEq, Eq)]
pub struct ThemeFile {
    /// What the file holds, for messages.
    pub name: &'static str,
    /// Where the file stands below the root of the repository, directory by
    /// directory.
    pub path: Vec<&'static str>,
    /// What the file holds.
    pub text: String,
}

/// Where the color scheme stands below the root of the repository.
pub open spec fn colorscheme_path() -> Seq<&'static str> {
    seq!["colors", "spring-night.vim"]
}

/// Where the theme of the status line stands below the root of the
/// repository.
pub open spec fn airline_path() -> Seq<&'static str> {
    seq!["autoload", "airline", "themes", "spring_night.vim"]
}

/// Where the theme of the terminal emulator stands below the root of the
/// repository.
pub open spec fn alacritty_path() -> Seq<&'static str> {
    seq!["alacritty", "spring_night.toml"]
}

/// The three themes that the library comes with, each as the file that it is
/// written to: the color scheme, the theme of the status line, the theme of
/// the terminal emulator. This cannot fail: the palette holds every color
/// that the themes refer to.
pub fn files() -> (made: Result<Vec<ThemeFile>, ConfigError>)
    ensures
        made matches Ok(list) && {
            &&& list@.len() == 3
            &&& list@[0].name@ == "colorscheme"@
            &&& list@[0].path@ == colorscheme_path()
            &&& list@[0].text@ == scheme_text(
                default_colors(),
                highlights_of(default_highlights()),
                names_of(default_term_colors()),
            )
            &&& list@[1].name@ == "airline theme"@
            &&& list@[1].path@ == airline_path()
            &&& list@[1].text@ == airline::theme_text(default_colors(), airline::default_theme())
            &&& list@[2].name@ == "alacritty theme"@
            &&& list@[2].path@ == alacritty_path()
            &&& list@[2].text@ == alacritty::theme_text(
                default_colors(),
                alacritty::default_theme(),
            )
        },
{
    proof {
        lemma_default_scheme_closed();
        airline::lemma_default_theme_closed();
        alacritty::lemma_default_theme_closed();
    }
    let palette = Palette::default();
    let mut scheme = String::new();
    match Colorscheme::new(&palette).write_to(&mut scheme) {
        Ok(()) => {},
        Err(e) => {
            return Err(e);
        },
    }
    let mut status_line = String::new();
    match AirlineTheme::new(&palette).write_to(&mut status_line) {
        Ok(()) => {},
        Err(e) => {
            return Err(e);
        },
    }
    let mut terminal = String::new();
    match AlacrittyTheme::new(&palette).write_to(&mut terminal) {
        Ok(()) => {},
        Err(e) => {
            return Err(e);
        },
    }
    Ok(
        vec![
            ThemeFile { name: "colorscheme", path: vec!["colors", "spring-night.vim"], text: scheme },
            ThemeFile {
                name: "airline theme",
                path: vec!["autoload", "airline", "themes", "spring_night.vim"],
                text: status_line,
            },
            ThemeFile {
                name: "alacritty theme",
                path: vec!["alacritty", "spring_night.toml"],
                text: terminal,
            },
        ],
    )
}

} // verus!
