//! The status line's theme: for each mode of the editor a table that gives
//! every section of the status line its colors, with one more table for a
//! modified buffer and one for paste mode.

use crate::error::{ConfigError, ConfigErrorSpec};
use crate::palette::{default_colors, Colors, Palette};
use crate::text::{decimal, push_decimal};
use vstd::prelude::*;
use vstd::string::*;

verus! {

/// What the theme starts with.
pub const HEADER: &'static str = "\" vim-airline theme for spring-night colorscheme
\"
\" Author: rhysd <lin90162@yahoo.co.jp>
\" License: MIT
\"   Copyright (c) 2016 rhysd
\"
\" PLEASE DO NOT MODIFY THIS FILE DIRECTLY!
\" Generated by script vim-color-spring-night/gen/src/airline.rs

let g:airline#themes#spring_night#palette = {}

";

/// The color that the accent of the status line is made from.
pub const ACCENT: &'static str = "red";

/// A foreground and a background, by the names of their colors.
pub type ColorPair<'a> = (&'a str, &'a str);

/// The colors of one mode.
#[derive(Debug, Clone, Copy)]
pub struct AirlineModeColors<'a> {
    /// The colors of the outermost sections.
    pub label: ColorPair<'a>,
    /// The colors of the sections next to them.
    pub info: ColorPair<'a>,
    /// The colors of the innermost sections.
    pub main: ColorPair<'a>,
    /// The color that marks a modified buffer, if the mode marks one.
    pub modified: Option<&'a str>,
    /// The foreground of the innermost sections of a modified buffer, where
    /// it is another than usual.
    pub modified_main: Option<&'a str>,
}

/// The theme of the status line.
pub struct AirlineTheme<'a> {
    pub palette: &'a Palette<'a>,
    /// The modes by their names, in the order in which they are emitted.
    pub modes: Vec<(&'a str, AirlineModeColors<'a>)>,
    /// The color that marks paste mode.
    pub paste: &'a str,
    /// The background of the sections next to the outermost ones where a
    /// mark is shown.
    pub info_mod: &'a str,
    pub error: ColorPair<'a>,
    pub warning: ColorPair<'a>,
}

/// A foreground and a background as texts.
pub type PairSpec = (Seq<char>, Seq<char>);

/// The colors of a mode with their names as texts.
pub struct ModeColorsSpec {
    pub label: PairSpec,
    pub info: PairSpec,
    pub main: PairSpec,
    pub modified: Option<Seq<char>>,
    pub modified_main: Option<Seq<char>>,
}

/// A mode with its names as texts.
pub struct ModeSpec {
    pub name: Seq<char>,
    pub colors: ModeColorsSpec,
}

/// What the theme is made from, with its names as texts.
pub struct AirlineSpec {
    pub modes: Seq<ModeSpec>,
    pub paste: Seq<char>,
    pub info_mod: Seq<char>,
    pub error: PairSpec,
    pub warning: PairSpec,
}

/// A pair of names as texts.
pub open spec fn pair_spec(pair: ColorPair) -> PairSpec {
    (pair.0@, pair.1@)
}

/// A name that may be missing, as text.
pub open spec fn name_spec(name: Option<&str>) -> Option<Seq<char>> {
    match name {
        Some(n) => Some(n@),
        None => None,
    }
}

impl<'a> View for AirlineModeColors<'a> {
    type V = ModeColorsSpec;

    open spec fn view(&self) -> ModeColorsSpec {
        ModeColorsSpec {
            label: pair_spec(self.label),
            info: pair_spec(self.info),
            main: pair_spec(self.main),
            modified: name_spec(self.modified),
            modified_main: name_spec(self.modified_main),
        }
    }
}

/// A mode with its names as texts.
pub open spec fn mode_spec(mode: (&str, AirlineModeColors)) -> ModeSpec {
    ModeSpec { name: mode.0@, colors: mode.1@ }
}

/// The modes of a list with their names as texts.
pub open spec fn modes_of(modes: Seq<(&str, AirlineModeColors)>) -> Seq<ModeSpec> {
    Seq::new(modes.len(), |i: int| mode_spec(modes[i]))
}

impl<'a> View for AirlineTheme<'a> {
    type V = AirlineSpec;

    open spec fn view(&self) -> AirlineSpec {
        AirlineSpec {
            modes: modes_of(self.modes@),
            paste: self.paste@,
            info_mod: self.info_mod@,
            error: pair_spec(self.error),
            warning: pair_spec(self.warning),
        }
    }
}

/// The colors of one section of the status line.
#[derive(Debug, Clone, Copy)]
pub struct Section<'a> {
    pub key: &'static str,
    pub fg: &'a str,
    pub bg: &'a str,
}

/// A section with its names as texts.
pub struct SectionSpec {
    pub key: Seq<char>,
    pub fg: Seq<char>,
    pub bg: Seq<char>,
}

impl<'a> View for Section<'a> {
    type V = SectionSpec;

    open spec fn view(&self) -> SectionSpec {
        SectionSpec { key: self.key@, fg: self.fg@, bg: self.bg@ }
    }
}

/// The sections of a list with their names as texts.
pub open spec fn sections_of(rows: Seq<Section>) -> Seq<SectionSpec> {
    Seq::new(rows.len(), |i: int| rows[i]@)
}

/// The section `key` in the colors `pair`.
pub open spec fn section(key: Seq<char>, pair: PairSpec) -> SectionSpec {
    SectionSpec { key, fg: pair.0, bg: pair.1 }
}

/// The sections of a mode: the outermost sections `a` and `z`, next to them
/// `b` and `y`, innermost `c` and `x`, and those for errors and warnings.
pub open spec fn mode_sections(theme: AirlineSpec, mode: ModeColorsSpec) -> Seq<SectionSpec> {
    seq![
        section("a"@, mode.label),
        section("b"@, mode.info),
        section("c"@, mode.main),
        section("x"@, mode.main),
        section("y"@, mode.info),
        section("z"@, mode.label),
        section("error"@, theme.error),
        section("warning"@, theme.warning),
    ]
}

/// The sections that show the mark `mark` over the colors of a mode: the
/// mark is the background of `a` and the foreground of `b`, and `c` has the
/// foreground `main_fg`.
pub open spec fn marked_sections(
    theme: AirlineSpec,
    mode: ModeColorsSpec,
    mark: Seq<char>,
    main_fg: Seq<char>,
) -> Seq<SectionSpec> {
    seq![
        section("a"@, (mode.label.0, mark)),
        section("b"@, (mark, theme.info_mod)),
        section("c"@, (main_fg, mode.main.1)),
        section("error"@, theme.error),
        section("warning"@, theme.warning),
    ]
}

/// The foreground of the innermost sections of a modified buffer.
pub open spec fn modified_main_fg(mode: ModeColorsSpec) -> Seq<char> {
    match mode.modified_main {
        Some(name) => name,
        None => mode.main.0,
    }
}

/// The first color that a section refers to and `colors` lacks: foreground
/// before background.
pub open spec fn section_unknown(colors: Colors, row: SectionSpec) -> Option<Seq<char>> {
    if !colors.contains_key(row.fg) {
        Some(row.fg)
    } else if !colors.contains_key(row.bg) {
        Some(row.bg)
    } else {
        None
    }
}

/// The first color that one of the first `n` sections refers to and `colors`
/// lacks.
pub open spec fn sections_unknown(colors: Colors, rows: Seq<SectionSpec>, n: int) -> Option<
    Seq<char>,
>
    decreases n,
{
    if n <= 0 {
        None
    } else if sections_unknown(colors, rows, n - 1) is Some {
        sections_unknown(colors, rows, n - 1)
    } else {
        section_unknown(colors, rows[n - 1])
    }
}

/// The line of a section: display values of foreground and background,
/// then their terminal indices, then no decoration.
pub open spec fn section_text(colors: Colors, row: SectionSpec) -> Seq<char> {
    "\\   'airline_"@ + row.key + "': ['"@ + colors[row.fg].gui.spec_normal() + "', '"@
        + colors[row.bg].gui.spec_normal() + "', "@ + decimal(
        colors[row.fg].cterm.spec_normal() as nat,
    ) + ", "@ + decimal(colors[row.bg].cterm.spec_normal() as nat) + ", ''],\n"@
}

/// The lines of the first `n` sections.
pub open spec fn sections_text(colors: Colors, rows: Seq<SectionSpec>, n: int) -> Seq<char>
    decreases n,
{
    if n <= 0 {
        Seq::empty()
    } else {
        sections_text(colors, rows, n - 1) + section_text(colors, rows[n - 1])
    }
}

/// The table called `title` with the sections `rows`.
pub open spec fn table_text(colors: Colors, title: Seq<char>, rows: Seq<SectionSpec>) -> Seq<char> {
    "let g:airline#themes#spring_night#palette."@ + title + " = {\n"@ + sections_text(
        colors,
        rows,
        rows.len() as int,
    ) + "\\ }\n"@
}

/// The first color that the tables of a mode refer to and `colors` lacks:
/// the mode's own table before that of a modified buffer before that of
/// paste mode.
pub open spec fn mode_unknown(colors: Colors, theme: AirlineSpec, mode: ModeColorsSpec) -> Option<
    Seq<char>,
> {
    let own = sections_unknown(colors, mode_sections(theme, mode), 8);
    let modified = match mode.modified {
        Some(mark) => sections_unknown(
            colors,
            marked_sections(theme, mode, mark, modified_main_fg(mode)),
            5,
        ),
        None => None,
    };
    let paste = sections_unknown(
        colors,
        marked_sections(theme, mode, theme.paste, mode.main.0),
        5,
    );
    if own is Some {
        own
    } else if modified is Some {
        modified
    } else {
        paste
    }
}

/// The tables of a mode and an empty line: the mode's own table, that of a
/// modified buffer where the mode marks one, and that of paste mode.
pub open spec fn mode_text(
    colors: Colors,
    theme: AirlineSpec,
    name: Seq<char>,
    mode: ModeColorsSpec,
) -> Seq<char> {
    table_text(colors, name, mode_sections(theme, mode)) + (match mode.modified {
        Some(mark) => table_text(
            colors,
            name + "_modified"@,
            marked_sections(theme, mode, mark, modified_main_fg(mode)),
        ),
        None => Seq::empty(),
    }) + table_text(
        colors,
        name + "_paste"@,
        marked_sections(theme, mode, theme.paste, mode.main.0),
    ) + "\n"@
}

/// The first color that one of the first `n` modes refers to and `colors`
/// lacks.
pub open spec fn modes_unknown(colors: Colors, theme: AirlineSpec, n: int) -> Option<Seq<char>>
    decreases n,
{
    if n <= 0 {
        None
    } else if modes_unknown(colors, theme, n - 1) is Some {
        modes_unknown(colors, theme, n - 1)
    } else {
        mode_unknown(colors, theme, theme.modes[n - 1].colors)
    }
}

/// The tables of the first `n` modes.
pub open spec fn modes_text(colors: Colors, theme: AirlineSpec, n: int) -> Seq<char>
    decreases n,
{
    if n <= 0 {
        Seq::empty()
    } else {
        modes_text(colors, theme, n - 1) + mode_text(
            colors,
            theme,
            theme.modes[n - 1].name,
            theme.modes[n - 1].colors,
        )
    }
}

/// The table of the accent and an empty line.
pub open spec fn accents_text(colors: Colors) -> Seq<char> {
    "let g:airline#themes#spring_night#palette.accents = {\n"@ + "\\   'red': ['"@
        + colors[ACCENT@].gui.spec_normal() + "', '', "@ + decimal(
        colors[ACCENT@].cterm.spec_normal() as nat,
    ) + ", '', ''],\n"@ + "\\ }\n\n"@
}

/// The first color that the theme refers to and `colors` lacks: that of the
/// accent before those of the modes.
pub open spec fn theme_unknown(colors: Colors, theme: AirlineSpec) -> Option<Seq<char>> {
    if !colors.contains_key(ACCENT@) {
        Some(ACCENT@)
    } else {
        modes_unknown(colors, theme, theme.modes.len() as int)
    }
}

/// The whole theme.
pub open spec fn theme_text(colors: Colors, theme: AirlineSpec) -> Seq<char> {
    HEADER@ + accents_text(colors) + modes_text(colors, theme, theme.modes.len() as int)
}

/// An unknown color found among the first `m` sections is the one found among
/// more.
pub proof fn lemma_sections_unknown_persists(
    colors: Colors,
    rows: Seq<SectionSpec>,
    m: int,
    n: int,
)
    requires
        m <= n,
        sections_unknown(colors, rows, m) is Some,
    ensures
        sections_unknown(colors, rows, n) == sections_unknown(colors, rows, m),
    decreases n - m,
{
    if m < n {
        lemma_sections_unknown_persists(colors, rows, m, n - 1);
    }
}

/// An unknown color found among the first `m` modes is the one found among
/// more.
pub proof fn lemma_modes_unknown_persists(colors: Colors, theme: AirlineSpec, m: int, n: int)
    requires
        m <= n,
        modes_unknown(colors, theme, m) is Some,
    ensures
        modes_unknown(colors, theme, n) == modes_unknown(colors, theme, m),
    decreases n - m,
{
    if m < n {
        lemma_modes_unknown_persists(colors, theme, m, n - 1);
    }
}

/// Whether `colors` holds both colors of a pair.
pub open spec fn pair_known(colors: Colors, pair: PairSpec) -> bool {
    colors.contains_key(pair.0) && colors.contains_key(pair.1)
}

/// Whether `colors` holds every color that the tables of a mode refer to.
pub open spec fn mode_closed(colors: Colors, theme: AirlineSpec, mode: ModeColorsSpec) -> bool {
    &&& pair_known(colors, mode.label)
    &&& pair_known(colors, mode.info)
    &&& pair_known(colors, mode.main)
    &&& pair_known(colors, theme.error)
    &&& pair_known(colors, theme.warning)
    &&& colors.contains_key(theme.paste)
    &&& colors.contains_key(theme.info_mod)
    &&& mode.modified matches Some(mark) ==> colors.contains_key(mark) && colors.contains_key(
        modified_main_fg(mode),
    )
}

/// Whether `colors` holds every color that the theme refers to.
pub open spec fn theme_closed(colors: Colors, theme: AirlineSpec) -> bool {
    &&& colors.contains_key(ACCENT@)
    &&& forall|i: int|
        0 <= i < theme.modes.len() ==> mode_closed(colors, theme, (#[trigger] theme.modes[i]).colors)
}

/// Where `colors` holds every color that a list of sections refers to, none
/// is unknown.
pub proof fn lemma_sections_known(colors: Colors, rows: Seq<SectionSpec>, n: int)
    requires
        0 <= n <= rows.len(),
        forall|i: int|
            0 <= i < n ==> colors.contains_key((#[trigger] rows[i]).fg) && colors.contains_key(
                rows[i].bg,
            ),
    ensures
        sections_unknown(colors, rows, n) is None,
    decreases n,
{
    if n > 0 {
        lemma_sections_known(colors, rows, n - 1);
    }
}

/// Where `colors` holds every color that the tables of a mode refer to, none
/// is unknown.
pub proof fn lemma_mode_closed(colors: Colors, theme: AirlineSpec, mode: ModeColorsSpec)
    requires
        mode_closed(colors, theme, mode),
    ensures
        mode_unknown(colors, theme, mode) is None,
{
    lemma_sections_known(colors, mode_sections(theme, mode), 8);
    lemma_sections_known(colors, marked_sections(theme, mode, theme.paste, mode.main.0), 5);
    match mode.modified {
        Some(mark) => {
            lemma_sections_known(
                colors,
                marked_sections(theme, mode, mark, modified_main_fg(mode)),
                5,
            );
        },
        None => {},
    }
}

/// A theme that refers only to colors that `colors` holds has no unknown
/// color.
pub proof fn lemma_theme_closed(colors: Colors, theme: AirlineSpec)
    requires
        theme_closed(colors, theme),
    ensures
        theme_unknown(colors, theme) is None,
{
    lemma_modes_closed(colors, theme, theme.modes.len() as int);
}

/// Where `colors` holds every color that the first `n` modes refer to, none
/// is unknown.
proof fn lemma_modes_closed(colors: Colors, theme: AirlineSpec, n: int)
    requires
        0 <= n <= theme.modes.len(),
        forall|i: int| 0 <= i < n ==> mode_closed(colors, theme, (#[trigger] theme.modes[i]).colors),
    ensures
        modes_unknown(colors, theme, n) is None,
    decreases n,
{
    if n > 0 {
        lemma_modes_closed(colors, theme, n - 1);
        lemma_mode_closed(colors, theme, theme.modes[n - 1].colors);
    }
}

/// The modes that the theme comes with.
pub open spec fn default_modes() -> Seq<(&'static str, AirlineModeColors<'static>)> {
    seq![
        (
            "normal",
            AirlineModeColors {
                label: ("bg", "gold"),
                info: ("gold", "hiddenfg"),
                main: ("yellow", "bglight"),
                modified: Some("green"),
                modified_main: Some("whitegreen"),
            },
        ),
        (
            "insert",
            AirlineModeColors {
                label: ("bg", "skyblue"),
                info: ("skyblue", "hiddenfg"),
                main: ("whiteblue", "bglight"),
                modified: None,
                modified_main: None,
            },
        ),
        (
            "visual",
            AirlineModeColors {
                label: ("bg", "palepink"),
                info: ("palepink", "hiddenfg"),
                main: ("whitepink", "bglight"),
                modified: None,
                modified_main: None,
            },
        ),
        (
            "replace",
            AirlineModeColors {
                label: ("bg", "red"),
                info: ("red", "hiddenfg"),
                main: ("whitered", "bglight"),
                modified: None,
                modified_main: None,
            },
        ),
        (
            "inactive",
            AirlineModeColors {
                label: ("weakfg", "bgemphasis"),
                info: ("weakfg", "bgemphasis"),
                main: ("weakfg", "bglight"),
                modified: None,
                modified_main: None,
            },
        ),
    ]
}

/// What the theme that the library comes with is made from.
pub open spec fn default_theme() -> AirlineSpec {
    AirlineSpec {
        modes: modes_of(default_modes()),
        paste: "mikan"@,
        info_mod: "hiddenfg"@,
        error: ("bg"@, "red"@),
        warning: ("bg"@, "mikan"@),
    }
}

/// The palette that the themes are made from holds every color that the
/// theme above refers to.
pub proof fn lemma_default_theme_closed()
    ensures
        theme_closed(default_colors(), default_theme()),
        theme_unknown(default_colors(), default_theme()) is None,
{
    let colors = default_colors();
    let theme = default_theme();
    lemma_theme_closed(colors, theme);
}

/// Appends the line of a section, or names the first color that the section
/// refers to and the palette lacks and leaves `out` as it is.
fn write_section(out: &mut String, palette: &Palette, row: &Section) -> (written: Result<
    (),
    ConfigError,
>)
    ensures
        match written {
            Ok(()) => {
                &&& section_unknown(palette@, row@) is None
                &&& final(out)@ == old(out)@ + section_text(palette@, row@)
            },
            Err(e) => {
                &&& section_unknown(palette@, row@) is Some
                &&& e@ == ConfigErrorSpec::UnknownColorName(section_unknown(palette@, row@)->0)
                &&& final(out)@ == old(out)@
            },
        },
{
    let fg = match palette.lookup(row.fg) {
        Ok(c) => c,
        Err(e) => {
            return Err(e);
        },
    };
    let bg = match palette.lookup(row.bg) {
        Ok(c) => c,
        Err(e) => {
            return Err(e);
        },
    };
    let mut line = String::from_str("\\   'airline_");
    line.append(row.key);
    line.append("': ['");
    line.append(fg.gui_normal());
    line.append("', '");
    line.append(bg.gui_normal());
    line.append("', ");
    push_decimal(&mut line, fg.cterm_normal() as usize);
    line.append(", ");
    push_decimal(&mut line, bg.cterm_normal() as usize);
    line.append(", ''],\n");
    out.append(line.as_str());
    Ok(())
}

/// Appends the table called `title` with the sections `rows`, or names the
/// first color that a section refers to and the palette lacks and leaves
/// `out` as it is.
fn write_table(out: &mut String, palette: &Palette, title: &str, rows: &Vec<Section>) -> (written:
    Result<(), ConfigError>)
    ensures
        match written {
            Ok(()) => {
                &&& sections_unknown(palette@, sections_of(rows@), rows@.len() as int) is None
                &&& final(out)@ == old(out)@ + table_text(palette@, title@, sections_of(rows@))
            },
            Err(e) => {
                &&& sections_unknown(palette@, sections_of(rows@), rows@.len() as int) is Some
                &&& e@ == ConfigErrorSpec::UnknownColorName(
                    sections_unknown(palette@, sections_of(rows@), rows@.len() as int)->0,
                )
                &&& final(out)@ == old(out)@
            },
        },
{
    let ghost list = sections_of(rows@);
    let mut lines = String::new();
    let mut i: usize = 0;
    while i < rows.len()
        invariant
            i <= rows@.len(),
            list == sections_of(rows@),
            out@ == old(out)@,
            sections_unknown(palette@, list, i as int) is None,
            lines@ == sections_text(palette@, list, i as int),
        decreases rows@.len() - i,
    {
        match write_section(&mut lines, palette, &rows[i]) {
            Ok(()) => {},
            Err(e) => {
                proof {
                    lemma_sections_unknown_persists(palette@, list, i + 1, list.len() as int);
                }
                return Err(e);
            },
        }
        i += 1;
    }
    let mut text = String::from_str("let g:airline#themes#spring_night#palette.");
    text.append(title);
    text.append(" = {\n");
    text.append(lines.as_str());
    text.append("\\ }\n");
    out.append(text.as_str());
    Ok(())
}

impl<'a> AirlineTheme<'a> {
    /// The theme that the library comes with, over the colors of `palette`.
    pub fn new(palette: &'a Palette<'a>) -> (theme: Self)
        ensures
            theme.palette == palette,
            theme@ == default_theme(),
    {
        AirlineTheme {
            palette,
            modes: vec![
                (
                    "normal",
                    AirlineModeColors {
                        label: ("bg", "gold"),
                        info: ("gold", "hiddenfg"),
                        main: ("yellow", "bglight"),
                        modified: Some("green"),
                        modified_main: Some("whitegreen"),
                    },
                ),
                (
                    "insert",
                    AirlineModeColors {
                        label: ("bg", "skyblue"),
                        info: ("skyblue", "hiddenfg"),
                        main: ("whiteblue", "bglight"),
                        modified: None,
                        modified_main: None,
                    },
                ),
                (
                    "visual",
                    AirlineModeColors {
                        label: ("bg", "palepink"),
                        info: ("palepink", "hiddenfg"),
                        main: ("whitepink", "bglight"),
                        modified: None,
                        modified_main: None,
                    },
                ),
                (
                    "replace",
                    AirlineModeColors {
                        label: ("bg", "red"),
                        info: ("red", "hiddenfg"),
                        main: ("whitered", "bglight"),
                        modified: None,
                        modified_main: None,
                    },
                ),
                (
                    "inactive",
                    AirlineModeColors {
                        label: ("weakfg", "bgemphasis"),
                        info: ("weakfg", "bgemphasis"),
                        main: ("weakfg", "bglight"),
                        modified: None,
                        modified_main: None,
                    },
                ),
            ],
            paste: "mikan",
            info_mod: "hiddenfg",
            error: ("bg", "red"),
            warning: ("bg", "mikan"),
        }
    }

    /// The sections of a mode.
    fn mode_sections(&self, mode: &AirlineModeColors<'a>) -> (rows: Vec<Section<'a>>)
        ensures
            sections_of(rows@) == mode_sections(self@, mode@),
    {
        let rows = vec![
            Section { key: "a", fg: mode.label.0, bg: mode.label.1 },
            Section { key: "b", fg: mode.info.0, bg: mode.info.1 },
            Section { key: "c", fg: mode.main.0, bg: mode.main.1 },
            Section { key: "x", fg: mode.main.0, bg: mode.main.1 },
            Section { key: "y", fg: mode.info.0, bg: mode.info.1 },
            Section { key: "z", fg: mode.label.0, bg: mode.label.1 },
            Section { key: "error", fg: self.error.0, bg: self.error.1 },
            Section { key: "warning", fg: self.warning.0, bg: self.warning.1 },
        ];
        rows
    }

    /// The sections that show the mark `mark` over the colors of a mode.
    fn marked_sections(
        &self,
        mode: &AirlineModeColors<'a>,
        mark: &'a str,
        main_fg: &'a str,
    ) -> (rows: Vec<Section<'a>>)
        ensures
            sections_of(rows@) == marked_sections(self@, mode@, mark@, main_fg@),
    {
        let rows = vec![
            Section { key: "a", fg: mode.label.0, bg: mark },
            Section { key: "b", fg: mark, bg: self.info_mod },
            Section { key: "c", fg: main_fg, bg: mode.main.1 },
            Section { key: "error", fg: self.error.0, bg: self.error.1 },
            Section { key: "warning", fg: self.warning.0, bg: self.warning.1 },
        ];
        rows
    }

    /// Appends the header and the table of the accent, or names the color of
    /// the accent where the palette lacks it and leaves `out` as it is.
    pub fn write_header(&self, out: &mut String) -> (written: Result<(), ConfigError>)
        ensures
            match written {
                Ok(()) => {
                    &&& self.palette@.contains_key(ACCENT@)
                    &&& final(out)@ == old(out)@ + (HEADER@ + accents_text(self.palette@))
                },
                Err(e) => {
                    &&& !self.palette@.contains_key(ACCENT@)
                    &&& e@ == ConfigErrorSpec::UnknownColorName(ACCENT@)
                    &&& final(out)@ == old(out)@
                },
            },
    {
        let accent = match self.palette.lookup(ACCENT) {
            Ok(c) => c,
            Err(e) => {
                return Err(e);
            },
        };
        let mut table = String::from_str("let g:airline#themes#spring_night#palette.accents = {\n");
        table.append("\\   'red': ['");
        table.append(accent.gui_normal());
        table.append("', '', ");
        push_decimal(&mut table, accent.cterm_normal() as usize);
        table.append(", '', ''],\n");
        table.append("\\ }\n\n");
        let mut text = String::from_str(HEADER);
        text.append(table.as_str());
        out.append(text.as_str());
        Ok(())
    }

    /// Appends the tables of the mode `name` and an empty line, or names
    /// the first color that they refer to and the palette lacks and leaves
    /// `out` as it is.
    pub fn write_mode(&self, out: &mut String, name: &'a str, mode: &AirlineModeColors<'a>) -> (written:
        Result<(), ConfigError>)
        ensures
            match written {
                Ok(()) => {
                    &&& mode_unknown(self.palette@, self@, mode@) is None
                    &&& final(out)@ == old(out)@ + mode_text(self.palette@, self@, name@, mode@)
                },
                Err(e) => {
                    &&& mode_unknown(self.palette@, self@, mode@) is Some
                    &&& e@ == ConfigErrorSpec::UnknownColorName(
                        mode_unknown(self.palette@, self@, mode@)->0,
                    )
                    &&& final(out)@ == old(out)@
                },
            },
    {
        let mut text = String::new();
        let rows = self.mode_sections(mode);
        assert(sections_of(rows@).len() == 8);
        match write_table(&mut text, self.palette, name, &rows) {
            Ok(()) => {},
            Err(e) => {
                return Err(e);
            },
        }
        let mut marked = String::new();
        match mode.modified {
            Some(mark) => {
                let main_fg = match mode.modified_main {
                    Some(fg) => fg,
                    None => mode.main.0,
                };
                let rows = self.marked_sections(mode, mark, main_fg);
                assert(sections_of(rows@).len() == 5);
                let mut title = String::from_str(name);
                title.append("_modified");
                match write_table(&mut marked, self.palette, title.as_str(), &rows) {
                    Ok(()) => {},
                    Err(e) => {
                        return Err(e);
                    },
                }
            },
            None => {},
        }
        text.append(marked.as_str());
        let rows = self.marked_sections(mode, self.paste, mode.main.0);
        assert(sections_of(rows@).len() == 5);
        let mut title = String::from_str(name);
        title.append("_paste");
        match write_table(&mut text, self.palette, title.as_str(), &rows) {
            Ok(()) => {},
            Err(e) => {
                return Err(e);
            },
        }
        text.append("\n");
        out.append(text.as_str());
        Ok(())
    }

    /// Appends the whole theme; or names the first color that it refers to
    /// and the palette lacks, and leaves `out` as it is.
    pub fn write_to(&self, out: &mut String) -> (written: Result<(), ConfigError>)
        ensures
            match written {
                Ok(()) => {
                    &&& theme_unknown(self.palette@, self@) is None
                    &&& final(out)@ == old(out)@ + theme_text(self.palette@, self@)
                },
                Err(e) => {
                    &&& theme_unknown(self.palette@, self@) is Some
                    &&& e@ == ConfigErrorSpec::UnknownColorName(
                        theme_unknown(self.palette@, self@)->0,
                    )
                    &&& final(out)@ == old(out)@
                },
            },
    {
        let mut head = String::new();
        match self.write_header(&mut head) {
            Ok(()) => {},
            Err(e) => {
                return Err(e);
            },
        }
        let mut tables = String::new();
        let mut i: usize = 0;
        while i < self.modes.len()
            invariant
                i <= self.modes@.len(),
                out@ == old(out)@,
                self.palette@.contains_key(ACCENT@),
                modes_unknown(self.palette@, self@, i as int) is None,
                tables@ == modes_text(self.palette@, self@, i as int),
            decreases self.modes@.len() - i,
        {
            let name = self.modes[i].0;
            match self.write_mode(&mut tables, name, &self.modes[i].1) {
                Ok(()) => {},
                Err(e) => {
                    proof {
                        lemma_modes_unknown_persists(
                            self.palette@,
                            self@,
                            i + 1,
                            self@.modes.len() as int,
                        );
                    }
                    return Err(e);
                },
            }
            i += 1;
        }
        head.append(tables.as_str());
        out.append(head.as_str());
        Ok(())
    }
}

} // verus!
