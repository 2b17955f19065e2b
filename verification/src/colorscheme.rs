//! The editor's color scheme: a header, the variables of the colors between
//! whose values the host chooses, one statement per highlight, and the colors
//! of the editor's terminal.

use crate::defaults::{
    default_highlights, default_term_colors, lemma_default_highlights_well_formed,
    make_default_highlights, make_default_term_colors,
};
use crate::error::{ConfigError, ConfigErrorSpec};
use crate::highlight::{
    highlights_of, HiCommand, Highlight, HighlightSet, HighlightSpec,
};
use crate::palette::{
    first_missing, gui_spec, lemma_insert_commutes, lists_in_order, names_of, resolves,
    sorted_names, Color, ColorCode, ColorSpec, Colors, Palette,
};
use crate::render::{command_text, editor_syntax, unknown_color, write_command, Syntax};
use crate::text::{decimal, indent, indent_text, indentation, push_decimal};
use vstd::prelude::*;
use vstd::string::*;

verus! {

/// What the script starts with: the settings that the statements after it
/// rely on.
pub const HEADER: &'static str = "\" spring-night: Calm-colored dark color scheme
\"
\" Author: rhysd <lin90162@yahoo.co.jp>
\" License: MIT
\"   Copyright (c) 2016 rhysd
\"
\" PLEASE DO NOT MODIFY THIS FILE DIRECTLY!
\" Generated by script vim-color-spring-night/gen/src/colorscheme.rs

\" Optimization:
\" `:set background=dark` has some side effects which takes a time.
\" Avoid the side effects when the value is already 'dark'.
if &background !=# 'dark'
    set background=dark
endif

\" Optimization:
\" `:hi clear` takes a lot of time since it clears all highlights and set default
\" highlights. This guard avoids `:hi clear` if spring-night is the first colorscheme.
\" applied in vimrc. In almost all cases no additional highlights are set at start
\" up since they are set by Vim plugins.
if exists('g:colors_name')
    \" Remove all existing user-defined highlights and set the defaults.
    hi clear
endif

if exists('g:syntax_on')
    syntax reset
endif

let g:colors_name = 'spring-night'

let g:spring_night_italic_comments = get(g:, 'spring_night_italic_comments', 0)
let g:spring_night_kill_italic = get(g:, 'spring_night_kill_italic', 0)
let g:spring_night_kill_bold = get(g:, 'spring_night_kill_bold', 0)
let g:spring_night_highlight_terminal = get(g:, 'spring_night_highlight_terminal', 1)
let g:spring_night_cterm_italic = get(g:, 'spring_night_cterm_italic', 0)

let s:gui_running = has('gui_running')
let s:true_colors = has('termguicolors') && &termguicolors
let s:undercurl_attr = s:gui_running ? 'gui=undercurl cterm=undercurl' : 'gui=underline cterm=underline'
let s:italic_attr = g:spring_night_kill_italic ? '' : g:spring_night_cterm_italic ? 'gui=italic cterm=italic' : 'gui=italic'
let s:bold_attr = g:spring_night_kill_bold ? '' : 'gui=bold cterm=bold'

if exists('g:spring_night_high_contrast')
    if type(g:spring_night_high_contrast) != type(0)
        echoerr 'g:spring_night_high_contrast was changed to number value. Please read README.md of vim-color-spring-night repository and set proper value'
        let g:spring_night_high_contrast = !s:gui_running && s:true_colors
    endif
else
    let g:spring_night_high_contrast = !s:gui_running && s:true_colors
endif

";

/// The variable that holds the host's choice of a display value, if there is
/// a choice.
pub open spec fn gui_variable_text(name: Seq<char>, code: ColorCode<Seq<char>>) -> Seq<char> {
    match code {
        ColorCode::Normal(_) => Seq::empty(),
        ColorCode::Contrast(high, low) => "let s:"@ + name
            + "_gui = g:spring_night_high_contrast ? '"@ + high + "' : '"@ + low + "'\n"@,
    }
}

/// The variable that holds the host's choice of a terminal index, if there is
/// a choice.
pub open spec fn cterm_variable_text(name: Seq<char>, code: ColorCode<u8>) -> Seq<char> {
    match code {
        ColorCode::Normal(_) => Seq::empty(),
        ColorCode::Contrast(high, low) => "let s:"@ + name
            + "_cterm = g:spring_night_high_contrast ? "@ + decimal(high as nat) + " : "@ + decimal(
            low as nat,
        ) + "\n"@,
    }
}

/// The variables of one color: that of the display value, then that of the
/// terminal index.
pub open spec fn color_variables_text(name: Seq<char>, color: ColorSpec) -> Seq<char> {
    gui_variable_text(name, color.gui) + cterm_variable_text(name, color.cterm)
}

/// The variables of the first `n` of `names`.
pub open spec fn variables_text(colors: Colors, names: Seq<Seq<char>>, n: int) -> Seq<char>
    decreases n,
{
    if n <= 0 {
        Seq::empty()
    } else {
        variables_text(colors, names, n - 1) + color_variables_text(
            names[n - 1],
            colors[names[n - 1]],
        )
    }
}

/// The variables of all colors, in the ascending order of their names, and an
/// empty line.
pub open spec fn contrast_variables_text(colors: Colors) -> Seq<char> {
    variables_text(colors, sorted_names(colors), sorted_names(colors).len() as int) + "\n"@
}

/// The first color that an entry refers to and `colors` lacks.
pub open spec fn highlight_unknown(colors: Colors, highlight: HighlightSpec) -> Option<Seq<char>> {
    match highlight {
        HighlightSpec::Fixed(c) => unknown_color(colors, c),
        HighlightSpec::Dynamic { gui, term } => if unknown_color(colors, gui) is Some {
            unknown_color(colors, gui)
        } else {
            unknown_color(colors, term)
        },
    }
}

/// The first color that one of the first `n` entries refers to and `colors`
/// lacks.
pub open spec fn first_unknown(colors: Colors, rules: Seq<HighlightSpec>, n: int) -> Option<
    Seq<char>,
>
    decreases n,
{
    if n <= 0 {
        None
    } else if first_unknown(colors, rules, n - 1) is Some {
        first_unknown(colors, rules, n - 1)
    } else {
        highlight_unknown(colors, rules[n - 1])
    }
}

/// The statements of one entry: one statement, or two in the branches of a
/// test for a graphical display.
pub open spec fn highlight_text(colors: Colors, highlight: HighlightSpec) -> Seq<char> {
    match highlight {
        HighlightSpec::Fixed(c) => command_text(editor_syntax(), colors, c, 0),
        HighlightSpec::Dynamic { gui, term } => "if s:gui_running\n"@ + command_text(
            editor_syntax(),
            colors,
            gui,
            1,
        ) + "else\n"@ + command_text(editor_syntax(), colors, term, 1) + "endif\n"@,
    }
}

/// The statements of the first `n` entries, in their order.
pub open spec fn highlights_text(colors: Colors, rules: Seq<HighlightSpec>, n: int) -> Seq<char>
    decreases n,
{
    if n <= 0 {
        Seq::empty()
    } else {
        highlights_text(colors, rules, n - 1) + highlight_text(colors, rules[n - 1])
    }
}

/// The statements of all entries and an empty line.
pub open spec fn highlights_block(colors: Colors, rules: Seq<HighlightSpec>) -> Seq<char> {
    highlights_text(colors, rules, rules.len() as int) + "\n"@
}

/// The assignments of the display values to the first `n` terminal colors,
/// one a line, slot by slot.
pub open spec fn gui_slots_text(colors: Colors, names: Seq<Seq<char>>, indents: nat, n: int) -> Seq<
    char,
>
    decreases n,
{
    if n <= 0 {
        Seq::empty()
    } else {
        gui_slots_text(colors, names, indents, n - 1) + (indent_text(indents)
            + "let g:terminal_color_"@ + decimal((n - 1) as nat) + " = '"@ + colors[names[n
            - 1]].gui.spec_normal() + "'\n"@)
    }
}

/// The assignments of the terminal indices to the first `n` terminal colors,
/// one a line, slot by slot.
pub open spec fn cterm_slots_text(
    colors: Colors,
    names: Seq<Seq<char>>,
    indents: nat,
    n: int,
) -> Seq<char>
    decreases n,
{
    if n <= 0 {
        Seq::empty()
    } else {
        cterm_slots_text(colors, names, indents, n - 1) + (indent_text(indents)
            + "let g:terminal_color_"@ + decimal((n - 1) as nat) + " = "@ + decimal(
            colors[names[n - 1]].cterm.spec_normal() as nat,
        ) + "\n"@)
    }
}

/// The terminal colors as one editor wants them: a variable for each slot.
pub open spec fn nvim_term_colors_text(colors: Colors, names: Seq<Seq<char>>, indents: nat) -> Seq<
    char,
> {
    indent_text(indents) + "if s:gui_running || s:true_colors\n"@ + gui_slots_text(
        colors,
        names,
        indents + 1,
        names.len() as int,
    ) + indent_text(indents) + "else\n"@ + cterm_slots_text(
        colors,
        names,
        indents + 1,
        names.len() as int,
    ) + indent_text(indents) + "endif\n"@ + indent_text(indents)
        + "let g:terminal_color_background = g:terminal_color_0\n"@ + indent_text(indents)
        + "let g:terminal_color_foreground = g:terminal_color_7\n"@
}

/// The display values of the first `n` terminal colors, each in quotes, with
/// commas between them.
pub open spec fn ansi_items_text(colors: Colors, names: Seq<Seq<char>>, n: int) -> Seq<char>
    decreases n,
{
    if n <= 0 {
        Seq::empty()
    } else {
        ansi_items_text(colors, names, n - 1) + ((if n > 1 {
            ","@
        } else {
            Seq::empty()
        }) + "'"@ + colors[names[n - 1]].gui.spec_normal() + "'"@)
    }
}

/// The terminal colors as the other editor wants them: one list.
pub open spec fn vim_term_colors_text(colors: Colors, names: Seq<Seq<char>>, indents: nat) -> Seq<
    char,
> {
    indent_text(indents) + "let g:terminal_ansi_colors = ["@ + ansi_items_text(
        colors,
        names,
        names.len() as int,
    ) + "]\n"@
}

/// The terminal colors in both forms, each under the test for its editor.
pub open spec fn term_colors_text(colors: Colors, names: Seq<Seq<char>>) -> Seq<char> {
    "if g:spring_night_highlight_terminal\n"@ + indent_text(1) + "if has('nvim')\n"@
        + nvim_term_colors_text(colors, names, 2) + indent_text(1)
        + "elseif (s:gui_running || s:true_colors) && exists('*term_setansicolors')\n"@
        + vim_term_colors_text(colors, names, 2) + indent_text(1) + "endif\n"@ + "endif\n"@
}

/// The first color that the highlights or, after them, the terminal colors
/// refer to and `colors` lacks.
pub open spec fn scheme_unknown(
    colors: Colors,
    rules: Seq<HighlightSpec>,
    names: Seq<Seq<char>>,
) -> Option<Seq<char>> {
    if first_unknown(colors, rules, rules.len() as int) is Some {
        first_unknown(colors, rules, rules.len() as int)
    } else {
        first_missing(colors, names, names.len() as int)
    }
}

/// The whole script.
pub open spec fn scheme_text(
    colors: Colors,
    rules: Seq<HighlightSpec>,
    names: Seq<Seq<char>>,
) -> Seq<char> {
    HEADER@ + contrast_variables_text(colors) + highlights_block(colors, rules) + term_colors_text(
        colors,
        names,
    )
}

/// The script depends on the palette only through the colors that it holds
/// under their names: the order in which two colors were put into it does
/// not show in the text, nor in the color that is found missing.
pub proof fn lemma_order_of_colors_does_not_show(
    colors: Colors,
    first: Seq<char>,
    first_color: ColorSpec,
    second: Seq<char>,
    second_color: ColorSpec,
    rules: Seq<HighlightSpec>,
    names: Seq<Seq<char>>,
)
    requires
        first != second,
    ensures
        scheme_text(
            colors.insert(first, first_color).insert(second, second_color),
            rules,
            names,
        ) == scheme_text(
            colors.insert(second, second_color).insert(first, first_color),
            rules,
            names,
        ),
        scheme_unknown(
            colors.insert(first, first_color).insert(second, second_color),
            rules,
            names,
        ) == scheme_unknown(
            colors.insert(second, second_color).insert(first, first_color),
            rules,
            names,
        ),
{
    lemma_insert_commutes(colors, first, first_color, second, second_color);
}

/// An unknown color found among the first `m` entries is the one found among
/// more.
pub proof fn lemma_unknown_persists(colors: Colors, rules: Seq<HighlightSpec>, m: int, n: int)
    requires
        m <= n,
        first_unknown(colors, rules, m) is Some,
    ensures
        first_unknown(colors, rules, n) == first_unknown(colors, rules, m),
    decreases n - m,
{
    if m < n {
        lemma_unknown_persists(colors, rules, m, n - 1);
    }
}

/// Where each of the first `n` entries refers to known colors only, none of
/// them has an unknown color.
pub proof fn lemma_all_known(colors: Colors, rules: Seq<HighlightSpec>, n: int)
    requires
        0 <= n <= rules.len(),
        forall|i: int| 0 <= i < n ==> highlight_unknown(colors, #[trigger] rules[i]) is None,
    ensures
        first_unknown(colors, rules, n) is None,
    decreases n,
{
    if n > 0 {
        lemma_all_known(colors, rules, n - 1);
    }
}

/// The color scheme of the editor.
pub struct Colorscheme<'a> {
    pub palette: &'a Palette<'a>,
    pub highlights: HighlightSet,
    pub term_colors: [&'static str; 16],
}

/// The variable for a display value, if the host has a choice.
fn gui_variable(name: &str, code: ColorCode<&str>) -> (text: String)
    ensures
        text@ == gui_variable_text(name@, gui_spec(code)),
{
    match code {
        ColorCode::Normal(_) => String::new(),
        ColorCode::Contrast(high, low) => {
            let mut text = String::from_str("let s:");
            text.append(name);
            text.append("_gui = g:spring_night_high_contrast ? '");
            text.append(high);
            text.append("' : '");
            text.append(low);
            text.append("'\n");
            text
        },
    }
}

/// The variable for a terminal index, if the host has a choice.
fn cterm_variable(name: &str, code: ColorCode<u8>) -> (text: String)
    ensures
        text@ == cterm_variable_text(name@, code),
{
    match code {
        ColorCode::Normal(_) => String::new(),
        ColorCode::Contrast(high, low) => {
            let mut text = String::from_str("let s:");
            text.append(name);
            text.append("_cterm = g:spring_night_high_contrast ? ");
            push_decimal(&mut text, high as usize);
            text.append(" : ");
            push_decimal(&mut text, low as usize);
            text.append("\n");
            text
        },
    }
}

impl<'a> Colorscheme<'a> {
    /// The color scheme with the highlights and the terminal colors that it
    /// comes with, over the colors of `palette`.
    pub fn new(palette: &'a Palette<'a>) -> (scheme: Self)
        ensures
            scheme.palette == palette,
            scheme.highlights@ == highlights_of(default_highlights()),
            scheme.term_colors@ == default_term_colors(),
    {
        proof {
            lemma_default_highlights_well_formed();
        }
        Colorscheme {
            palette,
            highlights: HighlightSet::from_well_formed(make_default_highlights()),
            term_colors: make_default_term_colors(),
        }
    }

    /// Appends the header.
    pub fn write_header(&self, out: &mut String)
        ensures
            final(out)@ == old(out)@ + HEADER@,
    {
        out.append(HEADER);
    }

    /// Appends the variables of the colors between whose values the host
    /// chooses, in the ascending order of the colors' names, and an empty
    /// line.
    pub fn write_contrast_color_variables(&self, out: &mut String)
        ensures
            final(out)@ == old(out)@ + contrast_variables_text(self.palette@),
    {
        let names = self.palette.sorted_names();
        let ghost listing = sorted_names(self.palette@);
        let mut text = String::new();
        let mut i: usize = 0;
        while i < names.len()
            invariant
                i <= names@.len(),
                names_of(names@) == listing,
                listing == sorted_names(self.palette@),
                lists_in_order(listing, self.palette@.dom()),
                text@ == variables_text(self.palette@, listing, i as int),
            decreases names@.len() - i,
        {
            let name = names[i];
            match self.palette.get(name) {
                Some(color) => {
                    let mut entry = gui_variable(name, color.gui);
                    entry.append(cterm_variable(name, color.cterm).as_str());
                    text.append(entry.as_str());
                },
                None => {
                },
            }
            i += 1;
        }
        text.append("\n");
        out.append(text.as_str());
    }

    /// Appends the statement for `command` at `indents` steps of indentation,
    /// or names the first color that it refers to and the palette lacks and
    /// leaves `out` as it is.
    pub fn write_hi_command(&self, out: &mut String, command: &HiCommand, indents: u8) -> (written:
        Result<(), ConfigError>)
        ensures
            match written {
                Ok(()) => {
                    &&& unknown_color(self.palette@, command@) is None
                    &&& final(out)@ == old(out)@ + command_text(
                        editor_syntax(),
                        self.palette@,
                        command@,
                        indents as nat,
                    )
                },
                Err(e) => {
                    &&& unknown_color(self.palette@, command@) is Some
                    &&& e@ == ConfigErrorSpec::UnknownColorName(
                        unknown_color(self.palette@, command@)->0,
                    )
                    &&& final(out)@ == old(out)@
                },
            },
    {
        write_command(out, &Syntax::editor(), self.palette, command, indents)
    }

    /// Appends the statements of one entry.
    fn write_highlight(&self, out: &mut String, highlight: &Highlight) -> (written: Result<
        (),
        ConfigError,
    >)
        ensures
            match written {
                Ok(()) => {
                    &&& highlight_unknown(self.palette@, highlight@) is None
                    &&& final(out)@ == old(out)@ + highlight_text(self.palette@, highlight@)
                },
                Err(e) => {
                    &&& highlight_unknown(self.palette@, highlight@) is Some
                    &&& e@ == ConfigErrorSpec::UnknownColorName(
                        highlight_unknown(self.palette@, highlight@)->0,
                    )
                    &&& final(out)@ == old(out)@
                },
            },
    {
        match highlight {
            Highlight::Fixed(command) => self.write_hi_command(out, command, 0),
            Highlight::Dynamic { gui, term } => {
                let mut text = String::from_str("if s:gui_running\n");
                match self.write_hi_command(&mut text, gui, 1) {
                    Ok(()) => {},
                    Err(e) => {
                        return Err(e);
                    },
                }
                text.append("else\n");
                match self.write_hi_command(&mut text, term, 1) {
                    Ok(()) => {},
                    Err(e) => {
                        return Err(e);
                    },
                }
                text.append("endif\n");
                out.append(text.as_str());
                Ok(())
            },
        }
    }

    /// Appends the statements of all highlights, in their order, and an empty
    /// line; or names the first color that a highlight refers to and the
    /// palette lacks and leaves `out` as it is.
    pub fn write_highlights(&self, out: &mut String) -> (written: Result<(), ConfigError>)
        ensures
            match written {
                Ok(()) => {
                    &&& first_unknown(self.palette@, self.highlights@, self.highlights@.len() as int)
                        is None
                    &&& final(out)@ == old(out)@ + highlights_block(
                        self.palette@,
                        self.highlights@,
                    )
                },
                Err(e) => {
                    &&& first_unknown(self.palette@, self.highlights@, self.highlights@.len() as int)
                        is Some
                    &&& e@ == ConfigErrorSpec::UnknownColorName(
                        first_unknown(
                            self.palette@,
                            self.highlights@,
                            self.highlights@.len() as int,
                        )->0,
                    )
                    &&& final(out)@ == old(out)@
                },
            },
    {
        let entries = self.highlights.entries();
        let ghost rules = self.highlights@;
        let mut text = String::new();
        let mut i: usize = 0;
        while i < entries.len()
            invariant
                i <= entries@.len(),
                highlights_of(entries@) == rules,
                rules == self.highlights@,
                out@ == old(out)@,
                first_unknown(self.palette@, rules, i as int) is None,
                text@ == highlights_text(self.palette@, rules, i as int),
            decreases entries@.len() - i,
        {
            match self.write_highlight(&mut text, &entries[i]) {
                Ok(()) => {},
                Err(e) => {
                    proof {
                        lemma_unknown_persists(self.palette@, rules, i + 1, rules.len() as int);
                    }
                    return Err(e);
                },
            }
            i += 1;
        }
        text.append("\n");
        out.append(text.as_str());
        Ok(())
    }

    /// The terminal colors as a variable for each slot, from the colors of
    /// the slots.
    fn nvim_term_colors(&self, list: &Vec<Color>, indents: u8) -> (text: String)
        requires
            resolves(list@, self.palette@, names_of(self.term_colors@)),
        ensures
            text@ == nvim_term_colors_text(
                self.palette@,
                names_of(self.term_colors@),
                indents as nat,
            ),
    {
        let ghost colors = self.palette@;
        let ghost names = names_of(self.term_colors@);
        let outer = indent(indents);
        let inner = indentation(indents as usize + 1);
        let mut text = String::from_str(outer.as_str());
        text.append("if s:gui_running || s:true_colors\n");
        let mut slots = String::new();
        let mut i: usize = 0;
        while i < list.len()
            invariant
                i <= list@.len(),
                resolves(list@, colors, names),
                inner@ == indent_text(indents as nat + 1),
                slots@ == gui_slots_text(colors, names, indents as nat + 1, i as int),
            decreases list@.len() - i,
        {
            let mut line = String::from_str(inner.as_str());
            line.append("let g:terminal_color_");
            push_decimal(&mut line, i);
            line.append(" = '");
            line.append(list[i].gui_normal());
            line.append("'\n");
            slots.append(line.as_str());
            i += 1;
        }
        text.append(slots.as_str());
        text.append(outer.as_str());
        text.append("else\n");
        let mut slots = String::new();
        let mut i: usize = 0;
        while i < list.len()
            invariant
                i <= list@.len(),
                resolves(list@, colors, names),
                inner@ == indent_text(indents as nat + 1),
                slots@ == cterm_slots_text(colors, names, indents as nat + 1, i as int),
            decreases list@.len() - i,
        {
            let mut line = String::from_str(inner.as_str());
            line.append("let g:terminal_color_");
            push_decimal(&mut line, i);
            line.append(" = ");
            push_decimal(&mut line, list[i].cterm_normal() as usize);
            line.append("\n");
            slots.append(line.as_str());
            i += 1;
        }
        text.append(slots.as_str());
        text.append(outer.as_str());
        text.append("endif\n");
        text.append(outer.as_str());
        text.append("let g:terminal_color_background = g:terminal_color_0\n");
        text.append(outer.as_str());
        text.append("let g:terminal_color_foreground = g:terminal_color_7\n");
        text
    }

    /// The terminal colors as one list of display values, from the colors of
    /// the slots.
    fn vim_term_colors(&self, list: &Vec<Color>, indents: u8) -> (text: String)
        requires
            resolves(list@, self.palette@, names_of(self.term_colors@)),
        ensures
            text@ == vim_term_colors_text(
                self.palette@,
                names_of(self.term_colors@),
                indents as nat,
            ),
    {
        let ghost colors = self.palette@;
        let ghost names = names_of(self.term_colors@);
        let mut text = indent(indents);
        text.append("let g:terminal_ansi_colors = [");
        let mut items = String::new();
        let mut i: usize = 0;
        while i < list.len()
            invariant
                i <= list@.len(),
                resolves(list@, colors, names),
                items@ == ansi_items_text(colors, names, i as int),
            decreases list@.len() - i,
        {
            let mut item = String::new();
            if i > 0 {
                item.append(",");
            }
            item.append("'");
            item.append(list[i].gui_normal());
            item.append("'");
            items.append(item.as_str());
            i += 1;
        }
        text.append(items.as_str());
        text.append("]\n");
        text
    }

    /// The colors of the terminal slots, slot by slot; or the first name
    /// among them that the palette lacks.
    pub fn resolve_term_colors(&self) -> (found: Result<Vec<Color<'a>>, ConfigError>)
        ensures
            match found {
                Ok(list) => {
                    &&& first_missing(self.palette@, names_of(self.term_colors@), 16) is None
                    &&& resolves(list@, self.palette@, names_of(self.term_colors@))
                },
                Err(e) => {
                    &&& first_missing(self.palette@, names_of(self.term_colors@), 16) is Some
                    &&& e@ == ConfigErrorSpec::UnknownColorName(
                        first_missing(self.palette@, names_of(self.term_colors@), 16)->0,
                    )
                },
            },
    {
        self.palette.resolve(self.term_colors.as_slice())
    }

    /// Appends the terminal colors as a variable for each slot, first the
    /// display values and then the terminal indices; or names the first
    /// terminal color that the palette lacks and leaves `out` as it is.
    pub fn write_nvim_term_colors(&self, out: &mut String, indents: u8) -> (written: Result<
        (),
        ConfigError,
    >)
        ensures
            match written {
                Ok(()) => {
                    &&& first_missing(self.palette@, names_of(self.term_colors@), 16) is None
                    &&& final(out)@ == old(out)@ + nvim_term_colors_text(
                        self.palette@,
                        names_of(self.term_colors@),
                        indents as nat,
                    )
                },
                Err(e) => {
                    &&& first_missing(self.palette@, names_of(self.term_colors@), 16) is Some
                    &&& e@ == ConfigErrorSpec::UnknownColorName(
                        first_missing(self.palette@, names_of(self.term_colors@), 16)->0,
                    )
                    &&& final(out)@ == old(out)@
                },
            },
    {
        match self.resolve_term_colors() {
            Ok(list) => {
                let text = self.nvim_term_colors(&list, indents);
                out.append(text.as_str());
                Ok(())
            },
            Err(e) => Err(e),
        }
    }

    /// Appends the terminal colors as one list of display values; or names
    /// the first terminal color that the palette lacks and leaves `out` as it
    /// is.
    pub fn write_vim_term_colors(&self, out: &mut String, indents: u8) -> (written: Result<
        (),
        ConfigError,
    >)
        ensures
            match written {
                Ok(()) => {
                    &&& first_missing(self.palette@, names_of(self.term_colors@), 16) is None
                    &&& final(out)@ == old(out)@ + vim_term_colors_text(
                        self.palette@,
                        names_of(self.term_colors@),
                        indents as nat,
                    )
                },
                Err(e) => {
                    &&& first_missing(self.palette@, names_of(self.term_colors@), 16) is Some
                    &&& e@ == ConfigErrorSpec::UnknownColorName(
                        first_missing(self.palette@, names_of(self.term_colors@), 16)->0,
                    )
                    &&& final(out)@ == old(out)@
                },
            },
    {
        match self.resolve_term_colors() {
            Ok(list) => {
                let text = self.vim_term_colors(&list, indents);
                out.append(text.as_str());
                Ok(())
            },
            Err(e) => Err(e),
        }
    }

    /// Appends the terminal colors in both forms, each under the test for
    /// its editor; or names the first terminal color that the palette lacks
    /// and leaves `out` as it is.
    pub fn write_term_colors(&self, out: &mut String) -> (written: Result<(), ConfigError>)
        ensures
            match written {
                Ok(()) => {
                    &&& first_missing(self.palette@, names_of(self.term_colors@), 16) is None
                    &&& final(out)@ == old(out)@ + term_colors_text(
                        self.palette@,
                        names_of(self.term_colors@),
                    )
                },
                Err(e) => {
                    &&& first_missing(self.palette@, names_of(self.term_colors@), 16) is Some
                    &&& e@ == ConfigErrorSpec::UnknownColorName(
                        first_missing(self.palette@, names_of(self.term_colors@), 16)->0,
                    )
                    &&& final(out)@ == old(out)@
                },
            },
    {
        match self.resolve_term_colors() {
            Ok(list) => {
                let mut text = String::from_str("if g:spring_night_highlight_terminal\n");
                text.append(indent(1).as_str());
                text.append("if has('nvim')\n");
                text.append(self.nvim_term_colors(&list, 2).as_str());
                text.append(indent(1).as_str());
                text.append(
                    "elseif (s:gui_running || s:true_colors) && exists('*term_setansicolors')\n",
                );
                text.append(self.vim_term_colors(&list, 2).as_str());
                text.append(indent(1).as_str());
                text.append("endif\n");
                text.append("endif\n");
                out.append(text.as_str());
                Ok(())
            },
            Err(e) => Err(e),
        }
    }

    /// Appends the whole script; or names the first color that the
    /// highlights or, after them, the terminal colors refer to and the
    /// palette lacks, and leaves `out` as it is.
    pub fn write_to(&mut self, out: &mut String) -> (written: Result<(), ConfigError>)
        ensures
            *final(self) == *old(self),
            match written {
                Ok(()) => {
                    &&& scheme_unknown(
                        old(self).palette@,
                        old(self).highlights@,
                        names_of(old(self).term_colors@),
                    ) is None
                    &&& final(out)@ == old(out)@ + scheme_text(
                        old(self).palette@,
                        old(self).highlights@,
                        names_of(old(self).term_colors@),
                    )
                },
                Err(e) => {
                    &&& scheme_unknown(
                        old(self).palette@,
                        old(self).highlights@,
                        names_of(old(self).term_colors@),
                    ) is Some
                    &&& e@ == ConfigErrorSpec::UnknownColorName(
                        scheme_unknown(
                            old(self).palette@,
                            old(self).highlights@,
                            names_of(old(self).term_colors@),
                        )->0,
                    )
                    &&& final(out)@ == old(out)@
                },
            },
    {
        let mut text = String::from_str(HEADER);
        self.write_contrast_color_variables(&mut text);
        match self.write_highlights(&mut text) {
            Ok(()) => {},
            Err(e) => {
                return Err(e);
            },
        }
        match self.write_term_colors(&mut text) {
            Ok(()) => {},
            Err(e) => {
                return Err(e);
            },
        }
        out.append(text.as_str());
        Ok(())
    }
}

} // verus!
