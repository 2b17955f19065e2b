//! The terminal emulator's theme: the display values of the primary colors,
//! of the eight colors in their dim, normal and bright forms, and of the
//! colors of search matches.

use crate::error::{ConfigError, ConfigErrorSpec};
use crate::palette::{default_colors, Colors, Palette};
use vstd::prelude::*;
use vstd::string::*;

verus! {

/// What the theme starts with.
pub const HEADER: &'static str = "# Alacritty theme for spring-night colorscheme
#
# Author: rhysd <lin90162@yahoo.co.jp>
# License: MIT
#   Copyright (c) 2016 rhysd
#
# PLEASE DO NOT MODIFY THIS FILE DIRECTLY!
# Generated by script vim-color-spring-night/gen/src/alacritty.rs

";

/// The foreground and the eight colors of one form, by the names of their
/// palette colors.
#[derive(Debug, Clone, Copy)]
pub struct AlacrittyFgColors<'a> {
    /// The name of the form, which is the name of its section.
    pub name: &'a str,
    pub foreground: &'a str,
    pub black: &'a str,
    pub red: &'a str,
    pub green: &'a str,
    pub yellow: &'a str,
    pub blue: &'a str,
    pub magenta: &'a str,
    pub cyan: &'a str,
    pub white: &'a str,
}

/// The colors of search matches, each a foreground and a background.
#[derive(Debug, Clone, Copy)]
pub struct AlacrittySearchColors<'a> {
    pub matches: (&'a str, &'a str),
    pub focused_match: (&'a str, &'a str),
}

/// The theme of the terminal emulator.
pub struct AlacrittyTheme<'a> {
    pub palette: &'a Palette<'a>,
    pub background: &'a str,
    pub dim: AlacrittyFgColors<'a>,
    pub normal: AlacrittyFgColors<'a>,
    pub bright: AlacrittyFgColors<'a>,
    pub search: AlacrittySearchColors<'a>,
}

/// One form with its names as texts.
pub struct FormSpec {
    pub name: Seq<char>,
    pub foreground: Seq<char>,
    pub black: Seq<char>,
    pub red: Seq<char>,
    pub green: Seq<char>,
    pub yellow: Seq<char>,
    pub blue: Seq<char>,
    pub magenta: Seq<char>,
    pub cyan: Seq<char>,
    pub white: Seq<char>,
}

impl<'a> View for AlacrittyFgColors<'a> {
    type V = FormSpec;

    open spec fn view(&self) -> FormSpec {
        FormSpec {
            name: self.name@,
            foreground: self.foreground@,
            black: self.black@,
            red: self.red@,
            green: self.green@,
            yellow: self.yellow@,
            blue: self.blue@,
            magenta: self.magenta@,
            cyan: self.cyan@,
            white: self.white@,
        }
    }
}

/// A foreground and a background as texts.
pub type PairSpec = (Seq<char>, Seq<char>);

/// The colors of search matches with their names as texts.
pub struct SearchSpec {
    pub matches: PairSpec,
    pub focused_match: PairSpec,
}

impl<'a> View for AlacrittySearchColors<'a> {
    type V = SearchSpec;

    open spec fn view(&self) -> SearchSpec {
        SearchSpec {
            matches: (self.matches.0@, self.matches.1@),
            focused_match: (self.focused_match.0@, self.focused_match.1@),
        }
    }
}

/// What the theme is made from, with its names as texts.
pub struct AlacrittySpec {
    pub background: Seq<char>,
    pub dim: FormSpec,
    pub normal: FormSpec,
    pub bright: FormSpec,
    pub search: SearchSpec,
}

impl<'a> View for AlacrittyTheme<'a> {
    type V = AlacrittySpec;

    open spec fn view(&self) -> AlacrittySpec {
        AlacrittySpec {
            background: self.background@,
            dim: self.dim@,
            normal: self.normal@,
            bright: self.bright@,
            search: self.search@,
        }
    }
}

/// One line of a section: a key and the name of the color that it gets.
#[derive(Debug, Clone, Copy)]
pub struct Field<'a> {
    pub key: &'static str,
    pub color: &'a str,
}

/// A line of a section with its names as texts.
pub struct FieldSpec {
    pub key: Seq<char>,
    pub color: Seq<char>,
}

impl<'a> View for Field<'a> {
    type V = FieldSpec;

    open spec fn view(&self) -> FieldSpec {
        FieldSpec { key: self.key@, color: self.color@ }
    }
}

/// The lines of a list with their names as texts.
pub open spec fn fields_of(rows: Seq<Field>) -> Seq<FieldSpec> {
    Seq::new(rows.len(), |i: int| rows[i]@)
}

/// The lines of the primary colors: the background, and the foreground in
/// its normal, dim and bright form.
pub open spec fn primary_fields(theme: AlacrittySpec) -> Seq<FieldSpec> {
    seq![
        FieldSpec { key: "background"@, color: theme.background },
        FieldSpec { key: "foreground"@, color: theme.normal.foreground },
        FieldSpec { key: "dim_foreground"@, color: theme.dim.foreground },
        FieldSpec { key: "bright_foreground"@, color: theme.bright.foreground },
    ]
}

/// The lines of the eight colors of one form.
pub open spec fn color_fields(form: FormSpec) -> Seq<FieldSpec> {
    seq![
        FieldSpec { key: "black"@, color: form.black },
        FieldSpec { key: "red"@, color: form.red },
        FieldSpec { key: "green"@, color: form.green },
        FieldSpec { key: "yellow"@, color: form.yellow },
        FieldSpec { key: "blue"@, color: form.blue },
        FieldSpec { key: "magenta"@, color: form.magenta },
        FieldSpec { key: "cyan"@, color: form.cyan },
        FieldSpec { key: "white"@, color: form.white },
    ]
}

/// The first of the first `n` lines whose color `colors` lacks.
pub open spec fn fields_unknown(colors: Colors, rows: Seq<FieldSpec>, n: int) -> Option<Seq<char>>
    decreases n,
{
    if n <= 0 {
        None
    } else if fields_unknown(colors, rows, n - 1) is Some {
        fields_unknown(colors, rows, n - 1)
    } else if !colors.contains_key(rows[n - 1].color) {
        Some(rows[n - 1].color)
    } else {
        None
    }
}

/// A line: the key and the display value of its color, in quotes.
pub open spec fn field_text(colors: Colors, row: FieldSpec) -> Seq<char> {
    row.key + " = \""@ + colors[row.color].gui.spec_normal() + "\"\n"@
}

/// The first `n` lines.
pub open spec fn fields_text(colors: Colors, rows: Seq<FieldSpec>, n: int) -> Seq<char>
    decreases n,
{
    if n <= 0 {
        Seq::empty()
    } else {
        fields_text(colors, rows, n - 1) + field_text(colors, rows[n - 1])
    }
}

/// The section called `title` with the lines `rows`, and an empty line.
pub open spec fn section_text(colors: Colors, title: Seq<char>, rows: Seq<FieldSpec>) -> Seq<char> {
    "[colors."@ + title + "]\n"@ + fields_text(colors, rows, rows.len() as int) + "\n"@
}

/// The first color of a pair that `colors` lacks.
pub open spec fn pair_unknown(colors: Colors, pair: PairSpec) -> Option<Seq<char>> {
    if !colors.contains_key(pair.0) {
        Some(pair.0)
    } else if !colors.contains_key(pair.1) {
        Some(pair.1)
    } else {
        None
    }
}

/// The line of a pair: the key, then the display values of foreground and
/// background as an inline table.
pub open spec fn pair_text(colors: Colors, key: Seq<char>, pair: PairSpec) -> Seq<char> {
    key + " = { foreground = \""@ + colors[pair.0].gui.spec_normal() + "\", background = \""@
        + colors[pair.1].gui.spec_normal() + "\" }\n"@
}

/// The section of the colors of search matches.
pub open spec fn search_text(colors: Colors, search: SearchSpec) -> Seq<char> {
    "[colors.search]\n"@ + pair_text(colors, "matches"@, search.matches) + pair_text(
        colors,
        "focused_match"@,
        search.focused_match,
    )
}

/// The first color of the search matches that `colors` lacks.
pub open spec fn search_unknown(colors: Colors, search: SearchSpec) -> Option<Seq<char>> {
    if pair_unknown(colors, search.matches) is Some {
        pair_unknown(colors, search.matches)
    } else {
        pair_unknown(colors, search.focused_match)
    }
}

/// The first color that the theme refers to and `colors` lacks, in the order
/// of the sections: primary, dim, normal, bright, search.
pub open spec fn theme_unknown(colors: Colors, theme: AlacrittySpec) -> Option<Seq<char>> {
    let primary = fields_unknown(colors, primary_fields(theme), 4);
    let dim = fields_unknown(colors, color_fields(theme.dim), 8);
    let normal = fields_unknown(colors, color_fields(theme.normal), 8);
    let bright = fields_unknown(colors, color_fields(theme.bright), 8);
    if primary is Some {
        primary
    } else if dim is Some {
        dim
    } else if normal is Some {
        normal
    } else if bright is Some {
        bright
    } else {
        search_unknown(colors, theme.search)
    }
}

/// The whole theme.
pub open spec fn theme_text(colors: Colors, theme: AlacrittySpec) -> Seq<char> {
    HEADER@ + section_text(colors, "primary"@, primary_fields(theme)) + section_text(
        colors,
        theme.dim.name,
        color_fields(theme.dim),
    ) + section_text(colors, theme.normal.name, color_fields(theme.normal)) + section_text(
        colors,
        theme.bright.name,
        color_fields(theme.bright),
    ) + search_text(colors, theme.search)
}

/// An unknown color found among the first `m` lines is the one found among
/// more.
pub proof fn lemma_fields_unknown_persists(colors: Colors, rows: Seq<FieldSpec>, m: int, n: int)
    requires
        m <= n,
        fields_unknown(colors, rows, m) is Some,
    ensures
        fields_unknown(colors, rows, n) == fields_unknown(colors, rows, m),
    decreases n - m,
{
    if m < n {
        lemma_fields_unknown_persists(colors, rows, m, n - 1);
    }
}

/// Where `colors` holds the color of each of the first `n` lines, none is
/// unknown.
pub proof fn lemma_fields_known(colors: Colors, rows: Seq<FieldSpec>, n: int)
    requires
        0 <= n <= rows.len(),
        forall|i: int| 0 <= i < n ==> colors.contains_key((#[trigger] rows[i]).color),
    ensures
        fields_unknown(colors, rows, n) is None,
    decreases n,
{
    if n > 0 {
        lemma_fields_known(colors, rows, n - 1);
    }
}

/// The dim colors that the theme comes with.
pub open spec fn default_dim() -> AlacrittyFgColors<'static> {
    AlacrittyFgColors {
        name: "dim",
        foreground: "yellow",
        black: "black",
        red: "mildred",
        green: "darkgreen",
        yellow: "dullgold",
        blue: "blue",
        magenta: "fuchsia",
        cyan: "cloudy",
        white: "gray",
    }
}

/// The normal colors that the theme comes with.
pub open spec fn default_normal() -> AlacrittyFgColors<'static> {
    AlacrittyFgColors {
        name: "normal",
        foreground: "fg",
        black: "black",
        red: "crimson",
        green: "green",
        yellow: "gold",
        blue: "blue",
        magenta: "purple",
        cyan: "skyblue",
        white: "white",
    }
}

/// The bright colors that the theme comes with.
pub open spec fn default_bright() -> AlacrittyFgColors<'static> {
    AlacrittyFgColors {
        name: "bright",
        foreground: "fg",
        black: "gray",
        red: "red",
        green: "lime",
        yellow: "yellow",
        blue: "paleblue",
        magenta: "purple",
        cyan: "sunny",
        white: "white",
    }
}

/// The colors of search matches that the theme comes with.
pub open spec fn default_search() -> AlacrittySearchColors<'static> {
    AlacrittySearchColors { matches: ("fg", "nasu"), focused_match: ("fg", "sakura") }
}

/// What the theme that the library comes with is made from.
pub open spec fn default_theme() -> AlacrittySpec {
    AlacrittySpec {
        background: "bg"@,
        dim: default_dim()@,
        normal: default_normal()@,
        bright: default_bright()@,
        search: default_search()@,
    }
}

/// Whether `colors` holds every color that the theme refers to.
pub open spec fn theme_closed(colors: Colors, theme: AlacrittySpec) -> bool {
    &&& forall|i: int| 0 <= i < 4 ==> colors.contains_key((#[trigger] primary_fields(theme)[i]).color)
    &&& forall|i: int| 0 <= i < 8 ==> colors.contains_key((#[trigger] color_fields(theme.dim)[i]).color)
    &&& forall|i: int|
        0 <= i < 8 ==> colors.contains_key((#[trigger] color_fields(theme.normal)[i]).color)
    &&& forall|i: int|
        0 <= i < 8 ==> colors.contains_key((#[trigger] color_fields(theme.bright)[i]).color)
    &&& colors.contains_key(theme.search.matches.0)
    &&& colors.contains_key(theme.search.matches.1)
    &&& colors.contains_key(theme.search.focused_match.0)
    &&& colors.contains_key(theme.search.focused_match.1)
}

/// A theme that refers only to colors that `colors` holds has no unknown
/// color.
pub proof fn lemma_theme_closed(colors: Colors, theme: AlacrittySpec)
    requires
        theme_closed(colors, theme),
    ensures
        theme_unknown(colors, theme) is None,
{
    lemma_fields_known(colors, primary_fields(theme), 4);
    lemma_fields_known(colors, color_fields(theme.dim), 8);
    lemma_fields_known(colors, color_fields(theme.normal), 8);
    lemma_fields_known(colors, color_fields(theme.bright), 8);
}

/// The palette that the themes are made from holds every color that the
/// theme above refers to.
pub proof fn lemma_default_theme_closed()
    ensures
        theme_closed(default_colors(), default_theme()),
        theme_unknown(default_colors(), default_theme()) is None,
{
    lemma_theme_closed(default_colors(), default_theme());
}

/// Appends the section called `title` with the lines `rows` and an empty
/// line, or names the first color that a line refers to and the palette
/// lacks and leaves `out` as it is.
fn write_section(out: &mut String, palette: &Palette, title: &str, rows: &Vec<Field>) -> (written:
    Result<(), ConfigError>)
    ensures
        match written {
            Ok(()) => {
                &&& fields_unknown(palette@, fields_of(rows@), rows@.len() as int) is None
                &&& final(out)@ == old(out)@ + section_text(palette@, title@, fields_of(rows@))
            },
            Err(e) => {
                &&& fields_unknown(palette@, fields_of(rows@), rows@.len() as int) is Some
                &&& e@ == ConfigErrorSpec::UnknownColorName(
                    fields_unknown(palette@, fields_of(rows@), rows@.len() as int)->0,
                )
                &&& final(out)@ == old(out)@
            },
        },
{
    let ghost list = fields_of(rows@);
    let mut lines = String::new();
    let mut i: usize = 0;
    while i < rows.len()
        invariant
            i <= rows@.len(),
            list == fields_of(rows@),
            out@ == old(out)@,
            fields_unknown(palette@, list, i as int) is None,
            lines@ == fields_text(palette@, list, i as int),
        decreases rows@.len() - i,
    {
        match palette.lookup(rows[i].color) {
            Ok(color) => {
                let mut line = String::from_str(rows[i].key);
                line.append(" = \"");
                line.append(color.gui_normal());
                line.append("\"\n");
                lines.append(line.as_str());
            },
            Err(e) => {
                proof {
                    lemma_fields_unknown_persists(palette@, list, i + 1, list.len() as int);
                }
                return Err(e);
            },
        }
        i += 1;
    }
    let mut text = String::from_str("[colors.");
    text.append(title);
    text.append("]\n");
    text.append(lines.as_str());
    text.append("\n");
    out.append(text.as_str());
    Ok(())
}

/// Appends the line of a pair, or names the first of its colors that the
/// palette lacks and leaves `out` as it is.
fn write_pair(out: &mut String, palette: &Palette, key: &str, pair: (&str, &str)) -> (written:
    Result<(), ConfigError>)
    ensures
        match written {
            Ok(()) => {
                &&& pair_unknown(palette@, (pair.0@, pair.1@)) is None
                &&& final(out)@ == old(out)@ + pair_text(palette@, key@, (pair.0@, pair.1@))
            },
            Err(e) => {
                &&& pair_unknown(palette@, (pair.0@, pair.1@)) is Some
                &&& e@ == ConfigErrorSpec::UnknownColorName(
                    pair_unknown(palette@, (pair.0@, pair.1@))->0,
                )
                &&& final(out)@ == old(out)@
            },
        },
{
    let fg = match palette.lookup(pair.0) {
        Ok(c) => c,
        Err(e) => {
            return Err(e);
        },
    };
    let bg = match palette.lookup(pair.1) {
        Ok(c) => c,
        Err(e) => {
            return Err(e);
        },
    };
    let mut line = String::from_str(key);
    line.append(" = { foreground = \"");
    line.append(fg.gui_normal());
    line.append("\", background = \"");
    line.append(bg.gui_normal());
    line.append("\" }\n");
    out.append(line.as_str());
    Ok(())
}

/// The lines of the eight colors of one form.
fn make_color_fields<'a>(form: &AlacrittyFgColors<'a>) -> (rows: Vec<Field<'a>>)
    ensures
        fields_of(rows@) == color_fields(form@),
{
    let rows = vec![
        Field { key: "black", color: form.black },
        Field { key: "red", color: form.red },
        Field { key: "green", color: form.green },
        Field { key: "yellow", color: form.yellow },
        Field { key: "blue", color: form.blue },
        Field { key: "magenta", color: form.magenta },
        Field { key: "cyan", color: form.cyan },
        Field { key: "white", color: form.white },
    ];
    rows
}

impl<'a> AlacrittyTheme<'a> {
    /// The theme that the library comes with, over the colors of `palette`.
    pub fn new(palette: &'a Palette<'a>) -> (theme: Self)
        ensures
            theme.palette == palette,
            theme@ == default_theme(),
    {
        AlacrittyTheme {
            palette,
            background: "bg",
            dim: AlacrittyFgColors {
                name: "dim",
                foreground: "yellow",
                black: "black",
                red: "mildred",
                green: "darkgreen",
                yellow: "dullgold",
                blue: "blue",
                magenta: "fuchsia",
                cyan: "cloudy",
                white: "gray",
            },
            normal: AlacrittyFgColors {
                name: "normal",
                foreground: "fg",
                black: "black",
                red: "crimson",
                green: "green",
                yellow: "gold",
                blue: "blue",
                magenta: "purple",
                cyan: "skyblue",
                white: "white",
            },
            bright: AlacrittyFgColors {
                name: "bright",
                foreground: "fg",
                black: "gray",
                red: "red",
                green: "lime",
                yellow: "yellow",
                blue: "paleblue",
                magenta: "purple",
                cyan: "sunny",
                white: "white",
            },
            search: AlacrittySearchColors {
                matches: ("fg", "nasu"),
                focused_match: ("fg", "sakura"),
            },
        }
    }

    /// Appends the section of the primary colors and an empty line, or
    /// names the first of them that the palette lacks and leaves `out` as it
    /// is.
    pub fn write_primary(&self, out: &mut String) -> (written: Result<(), ConfigError>)
        ensures
            match written {
                Ok(()) => {
                    &&& fields_unknown(self.palette@, primary_fields(self@), 4) is None
                    &&& final(out)@ == old(out)@ + section_text(
                        self.palette@,
                        "primary"@,
                        primary_fields(self@),
                    )
                },
                Err(e) => {
                    &&& fields_unknown(self.palette@, primary_fields(self@), 4) is Some
                    &&& e@ == ConfigErrorSpec::UnknownColorName(
                        fields_unknown(self.palette@, primary_fields(self@), 4)->0,
                    )
                    &&& final(out)@ == old(out)@
                },
            },
    {
        let rows = vec![
            Field { key: "background", color: self.background },
            Field { key: "foreground", color: self.normal.foreground },
            Field { key: "dim_foreground", color: self.dim.foreground },
            Field { key: "bright_foreground", color: self.bright.foreground },
        ];
        assert(fields_of(rows@) =~= primary_fields(self@));
        write_section(out, self.palette, "primary", &rows)
    }

    /// Appends the section of the eight colors of one form and an empty
    /// line, or names the first of them that the palette lacks and leaves
    /// `out` as it is.
    pub fn write_colors(&self, out: &mut String, form: &AlacrittyFgColors<'a>) -> (written: Result<
        (),
        ConfigError,
    >)
        ensures
            match written {
                Ok(()) => {
                    &&& fields_unknown(self.palette@, color_fields(form@), 8) is None
                    &&& final(out)@ == old(out)@ + section_text(
                        self.palette@,
                        form.name@,
                        color_fields(form@),
                    )
                },
                Err(e) => {
                    &&& fields_unknown(self.palette@, color_fields(form@), 8) is Some
                    &&& e@ == ConfigErrorSpec::UnknownColorName(
                        fields_unknown(self.palette@, color_fields(form@), 8)->0,
                    )
                    &&& final(out)@ == old(out)@
                },
            },
    {
        let rows = make_color_fields(form);
        assert(fields_of(rows@).len() == 8);
        write_section(out, self.palette, form.name, &rows)
    }

    /// Appends the section of the colors of search matches, or names the
    /// first of them that the palette lacks and leaves `out` as it is.
    pub fn write_search(&self, out: &mut String) -> (written: Result<(), ConfigError>)
        ensures
            match written {
                Ok(()) => {
                    &&& search_unknown(self.palette@, self.search@) is None
                    &&& final(out)@ == old(out)@ + search_text(self.palette@, self.search@)
                },
                Err(e) => {
                    &&& search_unknown(self.palette@, self.search@) is Some
                    &&& e@ == ConfigErrorSpec::UnknownColorName(
                        search_unknown(self.palette@, self.search@)->0,
                    )
                    &&& final(out)@ == old(out)@
                },
            },
    {
        let mut text = String::from_str("[colors.search]\n");
        match write_pair(&mut text, self.palette, "matches", self.search.matches) {
            Ok(()) => {},
            Err(e) => {
                return Err(e);
            },
        }
        match write_pair(&mut text, self.palette, "focused_match", self.search.focused_match) {
            Ok(()) => {},
            Err(e) => {
                return Err(e);
            },
        }
        out.append(text.as_str());
        Ok(())
    }

    /// Appends the whole theme; or names the first color that it refers to
    /// and the palette lacks, and leaves `out` as it is.
    pub fn write_to(&self, out: &mut String) -> (written: Result<(), ConfigError>)
        ensures
            match written {
                Ok(()) => {
                    &&& theme_unknown(self.palette@, self@) is None
                    &&& final(out)@ == old(out)@ + theme_text(self.palette@, self@)
                },
                Err(e) => {
                    &&& theme_unknown(self.palette@, self@) is Some
                    &&& e@ == ConfigErrorSpec::UnknownColorName(
                        theme_unknown(self.palette@, self@)->0,
                    )
                    &&& final(out)@ == old(out)@
                },
            },
    {
        let mut text = String::from_str(HEADER);
        match self.write_primary(&mut text) {
            Ok(()) => {},
            Err(e) => {
                return Err(e);
            },
        }
        match self.write_colors(&mut text, &self.dim) {
            Ok(()) => {},
            Err(e) => {
                return Err(e);
            },
        }
        match self.write_colors(&mut text, &self.normal) {
            Ok(()) => {},
            Err(e) => {
                return Err(e);
            },
        }
        match self.write_colors(&mut text, &self.bright) {
            Ok(()) => {},
            Err(e) => {
                return Err(e);
            },
        }
        match self.write_search(&mut text) {
            Ok(()) => {},
            Err(e) => {
                return Err(e);
            },
        }
        out.append(text.as_str());
        Ok(())
    }
}

} // verus!
