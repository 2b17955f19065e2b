//! From a highlight definition to a statement of the target format.
//!
//! A definition becomes a list of fragments. A fragment whose text the host
//! settles when it loads the output is deferred; the others are literal. One
//! deferred fragment makes the whole statement an indirect one, in which the
//! host evaluates the arguments and every literal fragment stands in quotes.

use crate::error::{ConfigError, ConfigErrorSpec};
use crate::highlight::{
    color_name_spec, HiAttr, HiCommand, HiCommandSpec,
};
use crate::palette::{gui_spec, ColorCode, Colors, Palette};
use crate::text::{decimal, indent, indent_text, push_decimal, str_eq};
use vstd::prelude::*;
use vstd::string::*;

verus! {

/// The words of a target format's statements.
#[derive(Debug, Clone, Copy)]
pub struct Syntax {
    /// What opens a statement whose arguments are all literal.
    pub direct: &'static str,
    /// What opens a statement that the host evaluates.
    pub indirect: &'static str,
    /// What follows the style class in the first argument.
    pub class_suffix: &'static str,
    /// The key of the foreground's display value.
    pub fg_display: &'static str,
    /// The key of the foreground's terminal index.
    pub fg_index: &'static str,
    /// The key of the background's display value.
    pub bg_display: &'static str,
    /// The key of the background's terminal index.
    pub bg_index: &'static str,
    /// The key of the decoration's display value.
    pub decoration: &'static str,
}

/// The words of a target format as texts.
pub struct SyntaxSpec {
    pub direct: Seq<char>,
    pub indirect: Seq<char>,
    pub class_suffix: Seq<char>,
    pub fg_display: Seq<char>,
    pub fg_index: Seq<char>,
    pub bg_display: Seq<char>,
    pub bg_index: Seq<char>,
    pub decoration: Seq<char>,
}

impl View for Syntax {
    type V = SyntaxSpec;

    open spec fn view(&self) -> SyntaxSpec {
        SyntaxSpec {
            direct: self.direct@,
            indirect: self.indirect@,
            class_suffix: self.class_suffix@,
            fg_display: self.fg_display@,
            fg_index: self.fg_index@,
            bg_display: self.bg_display@,
            bg_index: self.bg_index@,
            decoration: self.decoration@,
        }
    }
}

/// The words of the editor's `:highlight` command.
pub open spec fn editor_syntax() -> SyntaxSpec {
    SyntaxSpec {
        direct: "hi"@,
        indirect: "exe 'hi'"@,
        class_suffix: " term=NONE"@,
        fg_display: "guifg"@,
        fg_index: "ctermfg"@,
        bg_display: "guibg"@,
        bg_index: "ctermbg"@,
        decoration: "guisp"@,
    }
}

impl Syntax {
    /// The words of the editor's `:highlight` command.
    pub fn editor() -> (syntax: Syntax)
        ensures
            syntax@ == editor_syntax(),
    {
        Syntax {
            direct: "hi",
            indirect: "exe 'hi'",
            class_suffix: " term=NONE",
            fg_display: "guifg",
            fg_index: "ctermfg",
            bg_display: "guibg",
            bg_index: "ctermbg",
            decoration: "guisp",
        }
    }
}

/// One argument of a statement.
#[derive(Debug, Clone, PartialEq, Eq)]
pub enum Fragment {
    /// Text that is known now.
    Literal(String),
    /// An expression that the host evaluates.
    Deferred(String),
}

/// An argument with its text as a sequence.
pub enum FragmentSpec {
    Literal(Seq<char>),
    Deferred(Seq<char>),
}

impl View for Fragment {
    type V = FragmentSpec;

    open spec fn view(&self) -> FragmentSpec {
        match self {
            Fragment::Literal(t) => FragmentSpec::Literal(t@),
            Fragment::Deferred(t) => FragmentSpec::Deferred(t@),
        }
    }
}

/// The arguments of a list with their texts as sequences.
pub open spec fn fragments_of(fragments: Seq<Fragment>) -> Seq<FragmentSpec> {
    Seq::new(fragments.len(), |i: int| fragments[i]@)
}

/// The argument for a display value: the value itself, or the variable that
/// holds the host's choice.
pub open spec fn display_fragment(
    key: Seq<char>,
    name: Seq<char>,
    code: ColorCode<Seq<char>>,
) -> FragmentSpec {
    match code {
        ColorCode::Normal(c) => FragmentSpec::Literal(key + "="@ + c),
        ColorCode::Contrast(_, _) => FragmentSpec::Deferred("'"@ + key + "='.s:"@ + name + "_gui"@),
    }
}

/// The argument for a terminal index: the index itself, or the variable that
/// holds the host's choice.
pub open spec fn index_fragment(key: Seq<char>, name: Seq<char>, code: ColorCode<u8>) -> FragmentSpec {
    match code {
        ColorCode::Normal(c) => FragmentSpec::Literal(key + "="@ + decimal(c as nat)),
        ColorCode::Contrast(_, _) => FragmentSpec::Deferred(
            "'"@ + key + "='.s:"@ + name + "_cterm"@,
        ),
    }
}

/// Whether a foreground or background names a color of the palette.
pub open spec fn is_palette_color(name: Seq<char>) -> bool {
    name != "NONE"@
}

/// The arguments for a foreground or a background.
pub open spec fn ground_fragments(
    display_key: Seq<char>,
    index_key: Seq<char>,
    colors: Colors,
    color: Option<Seq<char>>,
) -> Seq<FragmentSpec> {
    match color {
        None => seq![],
        Some(name) => if is_palette_color(name) {
            seq![
                display_fragment(display_key, name, colors[name].gui),
                index_fragment(index_key, name, colors[name].cterm),
            ]
        } else {
            seq![
                FragmentSpec::Literal(display_key + "="@ + "NONE"@),
                FragmentSpec::Literal(index_key + "="@ + "NONE"@),
            ]
        },
    }
}

/// The argument for a decoration color, which has a display value only.
pub open spec fn decoration_fragments(
    key: Seq<char>,
    colors: Colors,
    color: Option<Seq<char>>,
) -> Seq<FragmentSpec> {
    match color {
        None => seq![],
        Some(name) => seq![display_fragment(key, name, colors[name].gui)],
    }
}

/// The argument for a style attribute.
pub open spec fn attr_fragments(attr: HiAttr) -> Seq<FragmentSpec> {
    match attr {
        HiAttr::Nothing => seq![],
        HiAttr::Bold => seq![FragmentSpec::Deferred("s:bold_attr"@)],
        HiAttr::Italic => seq![FragmentSpec::Deferred("s:italic_attr"@)],
        HiAttr::Underline => seq![FragmentSpec::Literal("gui=underline cterm=underline"@)],
        HiAttr::Reverse => seq![FragmentSpec::Literal("gui=reverse cterm=reverse"@)],
        HiAttr::Cleared => seq![FragmentSpec::Literal("gui=NONE cterm=NONE"@)],
        HiAttr::CommentItalic => seq![
            FragmentSpec::Deferred("g:spring_night_italic_comments ? s:italic_attr : ''"@),
        ],
        HiAttr::Undercurl => seq![FragmentSpec::Deferred("s:undercurl_attr"@)],
    }
}

/// The arguments of the statement for `command`: the style class, then
/// foreground, background, decoration and attribute as far as they are given.
pub open spec fn command_fragments(
    syntax: SyntaxSpec,
    colors: Colors,
    command: HiCommandSpec,
) -> Seq<FragmentSpec> {
    seq![FragmentSpec::Literal(command.name + syntax.class_suffix)] + ground_fragments(
        syntax.fg_display,
        syntax.fg_index,
        colors,
        command.fg,
    ) + ground_fragments(syntax.bg_display, syntax.bg_index, colors, command.bg)
        + decoration_fragments(syntax.decoration, colors, command.sp) + attr_fragments(command.attr)
}

/// The color that a foreground or background refers to and `colors` lacks.
pub open spec fn ground_unknown(colors: Colors, color: Option<Seq<char>>) -> Option<Seq<char>> {
    match color {
        Some(name) if is_palette_color(name) && !colors.contains_key(name) => Some(name),
        _ => None,
    }
}

/// The color that a decoration refers to and `colors` lacks.
pub open spec fn decoration_unknown(colors: Colors, color: Option<Seq<char>>) -> Option<Seq<char>> {
    match color {
        Some(name) if !colors.contains_key(name) => Some(name),
        _ => None,
    }
}

/// The first color that `command` refers to and `colors` lacks: foreground
/// before background before decoration.
pub open spec fn unknown_color(colors: Colors, command: HiCommandSpec) -> Option<Seq<char>> {
    if ground_unknown(colors, command.fg) is Some {
        ground_unknown(colors, command.fg)
    } else if ground_unknown(colors, command.bg) is Some {
        ground_unknown(colors, command.bg)
    } else {
        decoration_unknown(colors, command.sp)
    }
}

/// Whether one of the arguments is deferred.
pub open spec fn any_deferred(fragments: Seq<FragmentSpec>) -> bool {
    exists|i: int| 0 <= i < fragments.len() && (#[trigger] fragments[i]) is Deferred
}

/// An argument as it stands in a statement: in an indirect statement a
/// literal argument stands in quotes.
pub open spec fn argument_text(fragment: FragmentSpec, indirect: bool) -> Seq<char> {
    match fragment {
        FragmentSpec::Literal(t) => if indirect {
            "'"@ + t + "'"@
        } else {
            t
        },
        FragmentSpec::Deferred(t) => t,
    }
}

/// The arguments of a statement, a space before each.
pub open spec fn arguments_text(fragments: Seq<FragmentSpec>, indirect: bool) -> Seq<char>
    decreases fragments.len(),
{
    if fragments.len() == 0 {
        Seq::empty()
    } else {
        arguments_text(fragments.drop_last(), indirect) + " "@ + argument_text(
            fragments.last(),
            indirect,
        )
    }
}

/// The line of a statement: indentation, the opening word of the direct or
/// the indirect form, the arguments, and a line end.
pub open spec fn statement_text(
    syntax: SyntaxSpec,
    fragments: Seq<FragmentSpec>,
    indents: nat,
) -> Seq<char> {
    let indirect = any_deferred(fragments);
    indent_text(indents) + (if indirect {
        syntax.indirect
    } else {
        syntax.direct
    }) + arguments_text(fragments, indirect) + "\n"@
}

/// The line of the statement for `command`.
pub open spec fn command_text(
    syntax: SyntaxSpec,
    colors: Colors,
    command: HiCommandSpec,
    indents: nat,
) -> Seq<char> {
    statement_text(syntax, command_fragments(syntax, colors, command), indents)
}

/// Whether the host chooses the value that a foreground or background
/// stands for, as a display value or as a terminal index.
pub open spec fn ground_is_switchable(colors: Colors, color: Option<Seq<char>>) -> bool {
    match color {
        Some(name) => is_palette_color(name) && (colors[name].gui is Contrast
            || colors[name].cterm is Contrast),
        None => false,
    }
}

/// Whether the host chooses the display value that a decoration stands for.
pub open spec fn decoration_is_switchable(colors: Colors, color: Option<Seq<char>>) -> bool {
    match color {
        Some(name) => colors[name].gui is Contrast,
        None => false,
    }
}

/// Whether `command` refers to a color whose value the host chooses.
pub open spec fn refers_to_switchable(colors: Colors, command: HiCommandSpec) -> bool {
    ||| ground_is_switchable(colors, command.fg)
    ||| ground_is_switchable(colors, command.bg)
    ||| decoration_is_switchable(colors, command.sp)
}

/// Whether the host settles what a style attribute amounts to.
pub open spec fn attr_is_deferred(attr: HiAttr) -> bool {
    attr is Bold || attr is Italic || attr is CommentItalic || attr is Undercurl
}

/// A list of arguments has a deferred one exactly when one of its two parts
/// has one.
pub proof fn lemma_any_deferred_concat(a: Seq<FragmentSpec>, b: Seq<FragmentSpec>)
    ensures
        any_deferred(a + b) == (any_deferred(a) || any_deferred(b)),
{
    let whole = a + b;
    if any_deferred(a) {
        let i = choose|i: int| 0 <= i < a.len() && (#[trigger] a[i]) is Deferred;
        assert(whole[i] is Deferred);
    }
    if any_deferred(b) {
        let i = choose|i: int| 0 <= i < b.len() && (#[trigger] b[i]) is Deferred;
        assert(whole[a.len() + i] is Deferred);
    }
}

/// The statement for a definition is an indirect one exactly when the
/// definition refers to a color whose value the host chooses, or has an
/// attribute that the host settles.
pub proof fn lemma_indirect_iff_host_decides(
    syntax: SyntaxSpec,
    colors: Colors,
    command: HiCommandSpec,
)
    ensures
        any_deferred(command_fragments(syntax, colors, command)) == (refers_to_switchable(
            colors,
            command,
        ) || attr_is_deferred(command.attr)),
{
    let class = seq![FragmentSpec::Literal(command.name + syntax.class_suffix)];
    let fg = ground_fragments(syntax.fg_display, syntax.fg_index, colors, command.fg);
    let bg = ground_fragments(syntax.bg_display, syntax.bg_index, colors, command.bg);
    let sp = decoration_fragments(syntax.decoration, colors, command.sp);
    let attr = attr_fragments(command.attr);
    lemma_any_deferred_concat(class, fg);
    lemma_any_deferred_concat(class + fg, bg);
    lemma_any_deferred_concat(class + fg + bg, sp);
    lemma_any_deferred_concat(class + fg + bg + sp, attr);
    assert(any_deferred(sp) == decoration_is_switchable(colors, command.sp)) by {
        if decoration_is_switchable(colors, command.sp) {
            assert(sp[0] is Deferred);
        }
    }
    assert(any_deferred(attr) == attr_is_deferred(command.attr)) by {
        if attr_is_deferred(command.attr) {
            assert(attr[0] is Deferred);
        }
    }
}

/// A definition that refers to no color whose value the host chooses, and
/// whose attribute the host does not settle, becomes a direct statement in
/// which every argument stands as it is.
pub proof fn lemma_direct_statement(
    syntax: SyntaxSpec,
    colors: Colors,
    command: HiCommandSpec,
    indents: nat,
)
    requires
        !refers_to_switchable(colors, command),
        !attr_is_deferred(command.attr),
    ensures
        command_text(syntax, colors, command, indents) == indent_text(indents) + syntax.direct
            + arguments_text(command_fragments(syntax, colors, command), false) + "\n"@,
        forall|i: int|
            0 <= i < command_fragments(syntax, colors, command).len() ==> (
            #[trigger] command_fragments(syntax, colors, command)[i]) is Literal,
{
    lemma_indirect_iff_host_decides(syntax, colors, command);
}

/// A definition that refers to a color whose value the host chooses becomes
/// an indirect statement, in which every literal argument stands in quotes.
pub proof fn lemma_indirect_statement(
    syntax: SyntaxSpec,
    colors: Colors,
    command: HiCommandSpec,
    indents: nat,
)
    requires
        refers_to_switchable(colors, command),
    ensures
        command_text(syntax, colors, command, indents) == indent_text(indents) + syntax.indirect
            + arguments_text(command_fragments(syntax, colors, command), true) + "\n"@,
        forall|i: int|
            0 <= i < command_fragments(syntax, colors, command).len() ==> (
            #[trigger] command_fragments(syntax, colors, command)[i] matches FragmentSpec::Literal(
                text,
            ) ==> argument_text(command_fragments(syntax, colors, command)[i], true) == "'"@
                + text + "'"@),
{
    lemma_indirect_iff_host_decides(syntax, colors, command);
}

fn make_display_fragment(key: &str, name: &str, code: ColorCode<&str>) -> (fragment: Fragment)
    ensures
        fragment@ == display_fragment(key@, name@, gui_spec(code)),
{
    match code {
        ColorCode::Normal(c) => {
            let mut text = String::from_str(key);
            text.append("=");
            text.append(c);
            Fragment::Literal(text)
        },
        ColorCode::Contrast(_, _) => {
            let mut text = String::from_str("'");
            text.append(key);
            text.append("='.s:");
            text.append(name);
            text.append("_gui");
            Fragment::Deferred(text)
        },
    }
}

fn make_index_fragment(key: &str, name: &str, code: ColorCode<u8>) -> (fragment: Fragment)
    ensures
        fragment@ == index_fragment(key@, name@, code),
{
    match code {
        ColorCode::Normal(c) => {
            let mut text = String::from_str(key);
            text.append("=");
            push_decimal(&mut text, c as usize);
            Fragment::Literal(text)
        },
        ColorCode::Contrast(_, _) => {
            let mut text = String::from_str("'");
            text.append(key);
            text.append("='.s:");
            text.append(name);
            text.append("_cterm");
            Fragment::Deferred(text)
        },
    }
}

fn make_none_fragment(key: &str) -> (fragment: Fragment)
    ensures
        fragment@ == FragmentSpec::Literal(key@ + "="@ + "NONE"@),
{
    let mut text = String::from_str(key);
    text.append("=");
    text.append("NONE");
    Fragment::Literal(text)
}

/// Appends the arguments for a foreground or a background.
fn push_ground_fragments(
    fragments: &mut Vec<Fragment>,
    palette: &Palette,
    display_key: &str,
    index_key: &str,
    color: Option<&str>,
) -> (pushed: Result<(), ConfigError>)
    ensures
        match pushed {
            Ok(()) => {
                &&& ground_unknown(palette@, color_name_spec(color)) is None
                &&& fragments_of(final(fragments)@) == fragments_of(old(fragments)@)
                    + ground_fragments(
                    display_key@,
                    index_key@,
                    palette@,
                    color_name_spec(color),
                )
            },
            Err(e) => {
                &&& ground_unknown(palette@, color_name_spec(color)) is Some
                &&& e@ == ConfigErrorSpec::UnknownColorName(
                    ground_unknown(palette@, color_name_spec(color))->0,
                )
                &&& final(fragments)@ == old(fragments)@
            },
        },
{
    match color {
        None => Ok(()),
        Some(name) => {
            if str_eq(name, "NONE") {
                fragments.push(make_none_fragment(display_key));
                fragments.push(make_none_fragment(index_key));
                Ok(())
            } else {
                match palette.get(name) {
                    Some(c) => {
                        fragments.push(make_display_fragment(display_key, name, c.gui));
                        fragments.push(make_index_fragment(index_key, name, c.cterm));
                        Ok(())
                    },
                    None => Err(ConfigError::UnknownColorName(String::from_str(name))),
                }
            }
        },
    }
}

/// Appends the argument for a decoration color.
fn push_decoration_fragments(
    fragments: &mut Vec<Fragment>,
    palette: &Palette,
    key: &str,
    color: Option<&str>,
) -> (pushed: Result<(), ConfigError>)
    ensures
        match pushed {
            Ok(()) => {
                &&& decoration_unknown(palette@, color_name_spec(color)) is None
                &&& fragments_of(final(fragments)@) == fragments_of(old(fragments)@)
                    + decoration_fragments(key@, palette@, color_name_spec(color))
            },
            Err(e) => {
                &&& decoration_unknown(palette@, color_name_spec(color)) is Some
                &&& e@ == ConfigErrorSpec::UnknownColorName(
                    decoration_unknown(palette@, color_name_spec(color))->0,
                )
                &&& final(fragments)@ == old(fragments)@
            },
        },
{
    match color {
        None => Ok(()),
        Some(name) => match palette.get(name) {
            Some(c) => {
                fragments.push(make_display_fragment(key, name, c.gui));
                Ok(())
            },
            None => Err(ConfigError::UnknownColorName(String::from_str(name))),
        },
    }
}

/// Appends the argument for a style attribute.
fn push_attr_fragments(fragments: &mut Vec<Fragment>, attr: HiAttr)
    ensures
        fragments_of(final(fragments)@) == fragments_of(old(fragments)@) + attr_fragments(attr),
{
    match attr {
        HiAttr::Nothing => {},
        HiAttr::Bold => {
            fragments.push(Fragment::Deferred(String::from_str("s:bold_attr")));
        },
        HiAttr::Italic => {
            fragments.push(Fragment::Deferred(String::from_str("s:italic_attr")));
        },
        HiAttr::Underline => {
            fragments.push(Fragment::Literal(String::from_str("gui=underline cterm=underline")));
        },
        HiAttr::Reverse => {
            fragments.push(Fragment::Literal(String::from_str("gui=reverse cterm=reverse")));
        },
        HiAttr::Cleared => {
            fragments.push(Fragment::Literal(String::from_str("gui=NONE cterm=NONE")));
        },
        HiAttr::CommentItalic => {
            fragments.push(
                Fragment::Deferred(
                    String::from_str("g:spring_night_italic_comments ? s:italic_attr : ''"),
                ),
            );
        },
        HiAttr::Undercurl => {
            fragments.push(Fragment::Deferred(String::from_str("s:undercurl_attr")));
        },
    }
}

/// The arguments of the statement for `command`, or the first color that it
/// refers to and the palette lacks.
pub fn fragments(syntax: &Syntax, palette: &Palette, command: &HiCommand) -> (made: Result<
    Vec<Fragment>,
    ConfigError,
>)
    ensures
        match made {
            Ok(list) => {
                &&& unknown_color(palette@, command@) is None
                &&& fragments_of(list@) == command_fragments(syntax@, palette@, command@)
            },
            Err(e) => {
                &&& unknown_color(palette@, command@) is Some
                &&& e@ == ConfigErrorSpec::UnknownColorName(unknown_color(palette@, command@)->0)
            },
        },
{
    let mut class = String::from_str(command.name);
    class.append(syntax.class_suffix);
    let mut list: Vec<Fragment> = Vec::new();
    list.push(Fragment::Literal(class));
    match push_ground_fragments(&mut list, palette, syntax.fg_display, syntax.fg_index, command.fg) {
        Ok(()) => {},
        Err(e) => {
            return Err(e);
        },
    }
    match push_ground_fragments(&mut list, palette, syntax.bg_display, syntax.bg_index, command.bg) {
        Ok(()) => {},
        Err(e) => {
            return Err(e);
        },
    }
    match push_decoration_fragments(&mut list, palette, syntax.decoration, command.sp) {
        Ok(()) => {},
        Err(e) => {
            return Err(e);
        },
    }
    push_attr_fragments(&mut list, command.attr);
    Ok(list)
}

/// Whether one of the arguments is deferred.
pub fn has_deferred(fragments: &Vec<Fragment>) -> (found: bool)
    ensures
        found == any_deferred(fragments_of(fragments@)),
{
    let mut i: usize = 0;
    while i < fragments.len()
        invariant
            i <= fragments@.len(),
            forall|k: int| 0 <= k < i ==> !((#[trigger] fragments_of(fragments@)[k]) is Deferred),
        decreases fragments@.len() - i,
    {
        match &fragments[i] {
            Fragment::Deferred(_) => {
                assert(fragments_of(fragments@)[i as int] is Deferred);
                return true;
            },
            Fragment::Literal(_) => {},
        }
        i += 1;
    }
    false
}

/// Appends the line of the statement with the arguments `fragments`.
pub fn write_statement(out: &mut String, syntax: &Syntax, fragments: &Vec<Fragment>, indents: u8)
    ensures
        final(out)@ == old(out)@ + statement_text(
            syntax@,
            fragments_of(fragments@),
            indents as nat,
        ),
{
    let ghost list = fragments_of(fragments@);
    let indirect = has_deferred(fragments);
    let mut line = indent(indents);
    if indirect {
        line.append(syntax.indirect);
    } else {
        line.append(syntax.direct);
    }
    let ghost head = line@;
    let mut i: usize = 0;
    while i < fragments.len()
        invariant
            i <= fragments@.len(),
            list == fragments_of(fragments@),
            line@ == head + arguments_text(list.take(i as int), indirect),
        decreases fragments@.len() - i,
    {
        line.append(" ");
        match &fragments[i] {
            Fragment::Literal(text) => {
                if indirect {
                    line.append("'");
                    line.append(text.as_str());
                    line.append("'");
                } else {
                    line.append(text.as_str());
                }
            },
            Fragment::Deferred(text) => {
                line.append(text.as_str());
            },
        }
        assert(list.take(i + 1).drop_last() =~= list.take(i as int));
        i += 1;
    }
    assert(list.take(i as int) =~= list);
    line.append("\n");
    out.append(line.as_str());
}

/// Appends the line of the statement for `command`, or names the first color
/// that it refers to and the palette lacks and leaves `out` as it is.
pub fn write_command(
    out: &mut String,
    syntax: &Syntax,
    palette: &Palette,
    command: &HiCommand,
    indents: u8,
) -> (written: Result<(), ConfigError>)
    ensures
        match written {
            Ok(()) => {
                &&& unknown_color(palette@, command@) is None
                &&& final(out)@ == old(out)@ + command_text(
                    syntax@,
                    palette@,
                    command@,
                    indents as nat,
                )
            },
            Err(e) => {
                &&& unknown_color(palette@, command@) is Some
                &&& e@ == ConfigErrorSpec::UnknownColorName(unknown_color(palette@, command@)->0)
                &&& final(out)@ == old(out)@
            },
        },
{
    match fragments(syntax, palette, command) {
        Ok(list) => {
            write_statement(out, syntax, &list, indents);
            Ok(())
        },
        Err(e) => Err(e),
    }
}

} // verus!
