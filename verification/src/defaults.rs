//! The highlights and the terminal colors that the color scheme comes with.

use crate::colorscheme::{highlight_unknown, lemma_all_known, scheme_unknown};
use crate::highlight::{
    highlights_of, well_formed, ColorName, HiAttr, HiCommand, Highlight,
};
use crate::palette::{default_colors, lemma_none_missing, names_of};
use vstd::prelude::*;

verus! {

/// A highlight definition.
pub open spec fn spec_hi(
    name: &'static str,
    fg: ColorName,
    bg: ColorName,
    sp: ColorName,
    attr: HiAttr,
) -> HiCommand {
    HiCommand { name, fg, bg, sp, attr }
}

/// A highlight definition.
#[verifier::when_used_as_spec(spec_hi)]
pub fn hi(name: &'static str, fg: ColorName, bg: ColorName, sp: ColorName, attr: HiAttr) -> (command:
    HiCommand)
    ensures
        command == spec_hi(name, fg, bg, sp, attr),
{
    HiCommand { name, fg, bg, sp, attr }
}

/// The highlights that the color scheme comes with, in the order in which
/// they are emitted.
pub open spec fn default_highlights() -> Seq<Highlight> {
    seq![
        // The editor's own style classes.
        Highlight::Fixed(hi("Boolean", Some("red"), None, None, HiAttr::Nothing)),
        Highlight::Fixed(hi("Character", Some("green"), None, None, HiAttr::Nothing)),
        Highlight::Fixed(hi("ColorColumn", None, Some("bgstrong"), None, HiAttr::Nothing)),
        Highlight::Fixed(hi("Comment", Some("weakfg"), None, None, HiAttr::CommentItalic)),
        Highlight::Fixed(hi("Conceal", Some("mikan"), Some("bg"), None, HiAttr::Nothing)),
        Highlight::Fixed(hi("Conditional", Some("skyblue"), None, None, HiAttr::Nothing)),
        Highlight::Fixed(hi("Constant", Some("red"), None, None, HiAttr::Nothing)),
        Highlight::Fixed(hi("Cursor", Some("bg"), Some("fg"), None, HiAttr::Nothing)),
        Highlight::Fixed(hi("lCursor", Some("bg"), Some("fg"), None, HiAttr::Nothing)),
        Highlight::Fixed(hi("CursorColumn", None, Some("bgemphasis"), None, HiAttr::Nothing)),
        Highlight::Fixed(hi("CursorLine", None, Some("bgemphasis"), None, HiAttr::Cleared)),
        Highlight::Fixed(hi("CursorLineNr", Some("purple"), Some("bgstrong"), None, HiAttr::Nothing)),
        Highlight::Fixed(hi("Define", Some("orange"), None, None, HiAttr::Nothing)),
        Highlight::Fixed(hi("Directory", Some("green"), None, None, HiAttr::Nothing)),
        Highlight::Fixed(hi("EndOfBuffer", Some("bgstrong"), None, None, HiAttr::Nothing)),
        Highlight::Fixed(hi("Error", Some("red"), Some("bgemphasis"), None, HiAttr::Bold)),
        Highlight::Fixed(hi("ErrorMsg", Some("red"), Some("bg"), None, HiAttr::Bold)),
        Highlight::Fixed(hi("Float", Some("red"), None, None, HiAttr::Nothing)),
        Highlight::Fixed(hi("NormalFloat", Some("fg"), Some("bgweaker"), None, HiAttr::Nothing)),
        Highlight::Fixed(hi("FloatBorder", Some("weakfg"), Some("bgweaker"), None, HiAttr::Nothing)),
        Highlight::Fixed(hi("FoldColumn", Some("purple"), Some("bgemphasis"), None, HiAttr::Nothing)),
        Highlight::Fixed(hi("Folded", Some("purple"), Some("light"), None, HiAttr::Nothing)),
        Highlight::Fixed(hi("Function", Some("orange"), None, None, HiAttr::Nothing)),
        Highlight::Fixed(hi("Identifier", Some("gold"), None, None, HiAttr::Italic)),
        Highlight::Fixed(hi("IncSearch", Some("NONE"), Some("sakura"), None, HiAttr::Underline)),
        Highlight::Fixed(hi("Keyword", Some("yellow"), None, None, HiAttr::Bold)),
        Highlight::Fixed(hi("Label", Some("skyblue"), None, None, HiAttr::Nothing)),
        Highlight::Fixed(hi("LineNr", Some("weakerfg"), Some("bgemphasis"), None, HiAttr::Nothing)),
        Highlight::Fixed(hi("MatchParen", Some("bg"), Some("gold"), None, HiAttr::Bold)),
        Highlight::Fixed(hi("ModeMsg", Some("gold"), None, None, HiAttr::Nothing)),
        Highlight::Fixed(hi("MoreMsg", Some("green"), None, None, HiAttr::Nothing)),
        Highlight::Fixed(hi("NonText", Some("light"), None, None, HiAttr::Nothing)),
        Highlight::Fixed(hi("Normal", Some("fg"), Some("bg"), None, HiAttr::Nothing)),
        Highlight::Fixed(hi("Number", Some("red"), None, None, HiAttr::Nothing)),
        Highlight::Fixed(hi("Operater", Some("orange"), None, None, HiAttr::Nothing)),
        Highlight::Fixed(hi("Pmenu", Some("purple"), Some("bgemphasis"), None, HiAttr::Nothing)),
        Highlight::Fixed(hi("PmenuSbar", Some("gold"), Some("bgstrong"), None, HiAttr::Nothing)),
        Highlight::Fixed(hi("PmenuSel", Some("gold"), Some("bgstrong"), None, HiAttr::Nothing)),
        Highlight::Fixed(hi("PmenuThumb", Some("gold"), Some("weakfg"), None, HiAttr::Nothing)),
        Highlight::Fixed(hi("PreProc", Some("orange"), None, None, HiAttr::Nothing)),
        Highlight::Fixed(hi("Question", Some("skyblue"), None, None, HiAttr::Nothing)),
        Highlight::Fixed(hi("Search", Some("NONE"), Some("nasu"), None, HiAttr::Underline)),
        Highlight::Fixed(hi("SignColumn", Some("fg"), Some("bgemphasis"), None, HiAttr::Nothing)),
        Highlight::Fixed(hi("Special", Some("yellow"), None, None, HiAttr::Bold)),
        Highlight::Fixed(hi("SpecialKey", Some("hiddenfg"), None, None, HiAttr::Nothing)),
        Highlight::Fixed(hi("SpecialComment", Some("palepink"), None, None, HiAttr::Nothing)),
        Highlight::Dynamic {
            gui: hi("SpellBad", Some("red"), None, Some("red"), HiAttr::Undercurl),
            term: hi("SpellBad", Some("red"), Some("NONE"), Some("red"), HiAttr::Undercurl),
        },
        Highlight::Dynamic {
            gui: hi("SpellCap", Some("purple"), None, Some("purple"), HiAttr::Undercurl),
            term: hi("SpellCap", Some("purple"), Some("NONE"), Some("purple"), HiAttr::Undercurl),
        },
        Highlight::Dynamic {
            gui: hi("SpellLocal", Some("red"), None, Some("red"), HiAttr::Undercurl),
            term: hi("SpellLocal", Some("red"), Some("NONE"), Some("red"), HiAttr::Undercurl),
        },
        Highlight::Dynamic {
            gui: hi("SpellRare", Some("yellow"), None, Some("yellow"), HiAttr::Undercurl),
            term: hi("SpellRare", Some("yellow"), Some("NONE"), Some("yellow"), HiAttr::Undercurl),
        },
        Highlight::Fixed(hi("Statement", Some("skyblue"), None, None, HiAttr::Nothing)),
        Highlight::Fixed(hi("StatusLine", Some("fg"), Some("bgstrong"), None, HiAttr::Bold)),
        Highlight::Fixed(hi("StatusLineNC", Some("weakfg"), Some("bgemphasis"), None, HiAttr::Cleared)),
        Highlight::Fixed(hi("StatusLineTerm", Some("fg"), Some("bgstrong"), None, HiAttr::Bold)),
        Highlight::Fixed(hi("StatusLineTermNC", Some("weakfg"), Some("bgemphasis"), None, HiAttr::Cleared)),
        Highlight::Fixed(hi("StorageClass", Some("gold"), None, None, HiAttr::Italic)),
        Highlight::Fixed(hi("String", Some("green"), None, None, HiAttr::Nothing)),
        Highlight::Fixed(hi("TabLine", Some("weakfg"), Some("bgstrong"), None, HiAttr::Nothing)),
        Highlight::Fixed(hi("TabLineFill", Some("bgemphasis"), None, None, HiAttr::Nothing)),
        Highlight::Fixed(hi("TabLineSel", Some("gold"), Some("bg"), None, HiAttr::Bold)),
        Highlight::Fixed(hi("Tag", Some("orange"), None, None, HiAttr::Nothing)),
        Highlight::Fixed(hi("Title", Some("gold"), None, None, HiAttr::Bold)),
        Highlight::Fixed(hi("Todo", Some("bg"), Some("red"), None, HiAttr::Bold)),
        Highlight::Fixed(hi("ToolbarButton", Some("gold"), Some("bg"), None, HiAttr::Bold)),
        Highlight::Fixed(hi("ToolbarLine", Some("weakfg"), Some("bgstrong"), None, HiAttr::Nothing)),
        Highlight::Fixed(hi("Type", Some("gold"), None, None, HiAttr::Nothing)),
        Highlight::Fixed(hi("Underlined", Some("skyblue"), None, None, HiAttr::Underline)),
        Highlight::Fixed(hi("VertSplit", Some("bgemphasis"), Some("bg"), None, HiAttr::Nothing)),
        Highlight::Fixed(hi("Visual", None, Some("yaezakura"), None, HiAttr::Nothing)),
        Highlight::Fixed(hi("WarningMsg", Some("mikan"), Some("bgemphasis"), None, HiAttr::Nothing)),
        Highlight::Fixed(hi("WildMenu", Some("bg"), Some("gold"), None, HiAttr::Nothing)),
        // The style classes of file types.
        Highlight::Fixed(hi("cmakeArguments", Some("yellow"), None, None, HiAttr::Nothing)),
        Highlight::Fixed(hi("cmakeOperators", Some("red"), None, None, HiAttr::Nothing)),
        Highlight::Fixed(hi("cStorageClass", Some("yellow"), None, None, HiAttr::Nothing)),
        Highlight::Fixed(hi("cTypedef", Some("yellow"), None, None, HiAttr::Nothing)),
        Highlight::Fixed(hi("DiffAdd", None, Some("darkgreen"), None, HiAttr::Bold)),
        Highlight::Fixed(hi("DiffChange", None, Some("darkgold"), None, HiAttr::Bold)),
        Highlight::Fixed(hi("DiffDelete", Some("fg"), Some("mildred"), None, HiAttr::Bold)),
        Highlight::Fixed(hi("DiffText", None, Some("bg"), None, HiAttr::Nothing)),
        Highlight::Fixed(hi("diffAdded", Some("green"), None, None, HiAttr::Nothing)),
        Highlight::Fixed(hi("diffFile", Some("yellow"), None, None, HiAttr::Nothing)),
        Highlight::Fixed(hi("diffIndexLine", Some("gold"), None, None, HiAttr::Nothing)),
        Highlight::Fixed(hi("diffNewFile", Some("yellow"), None, None, HiAttr::Nothing)),
        Highlight::Fixed(hi("diffRemoved", Some("red"), None, None, HiAttr::Nothing)),
        Highlight::Fixed(hi("gitCommitOverflow", None, Some("mildred"), None, HiAttr::Nothing)),
        Highlight::Fixed(hi("gitCommitSummary", Some("yellow"), None, None, HiAttr::Nothing)),
        Highlight::Fixed(hi("gitCommitSelectedFile", Some("skyblue"), None, None, HiAttr::Nothing)),
        Highlight::Fixed(hi("gitconfigSection", Some("skyblue"), None, None, HiAttr::Bold)),
        Highlight::Fixed(hi("goBuiltins", Some("red"), None, None, HiAttr::Nothing)),
        Highlight::Fixed(hi("helpExample", Some("skyblue"), None, None, HiAttr::Nothing)),
        Highlight::Fixed(hi("helpCommand", Some("purple"), None, None, HiAttr::Nothing)),
        Highlight::Fixed(hi("htmlBold", None, Some("bgemphasis"), None, HiAttr::Nothing)),
        Highlight::Fixed(hi("htmlLinkText", Some("skyblue"), None, None, HiAttr::Nothing)),
        Highlight::Fixed(hi("htmlTagName", Some("orange"), None, None, HiAttr::Nothing)),
        Highlight::Fixed(hi("javaScriptBraces", Some("fg"), None, None, HiAttr::Nothing)),
        Highlight::Fixed(hi("makeCommands", Some("yellow"), None, None, HiAttr::Nothing)),
        Highlight::Fixed(hi("markdownCode", Some("yellow"), None, None, HiAttr::Nothing)),
        Highlight::Fixed(hi("markdownUrl", Some("weakfg"), None, None, HiAttr::Nothing)),
        Highlight::Fixed(hi("ocamlConstructor", Some("gold"), None, None, HiAttr::Nothing)),
        Highlight::Fixed(hi("ocamlKeyChar", Some("skyblue"), None, None, HiAttr::Nothing)),
        Highlight::Fixed(hi("ocamlKeyword", Some("gold"), None, None, HiAttr::Nothing)),
        Highlight::Fixed(hi("ocamlFunDef", Some("skyblue"), None, None, HiAttr::Nothing)),
        Highlight::Fixed(hi("plantumlColonLine", Some("skyblue"), None, None, HiAttr::Nothing)),
        Highlight::Fixed(hi("pythonBuiltin", Some("red"), None, None, HiAttr::Nothing)),
        Highlight::Fixed(hi("qfFileName", Some("gold"), None, None, HiAttr::Nothing)),
        Highlight::Fixed(hi("qfLineNr", Some("skyblue"), None, None, HiAttr::Nothing)),
        Highlight::Fixed(hi("rstEmphasis", None, Some("bgemphasis"), None, HiAttr::Italic)),
        Highlight::Fixed(hi("rstStrongEmphasis", None, Some("bgstrong"), None, HiAttr::Bold)),
        Highlight::Fixed(hi("rubyFunction", Some("yellow"), None, None, HiAttr::Nothing)),
        Highlight::Fixed(hi("rubyIdentifier", Some("yellow"), None, None, HiAttr::Nothing)),
        Highlight::Fixed(hi("rustEnumVariant", Some("gold"), None, None, HiAttr::Nothing)),
        Highlight::Fixed(hi("rustFuncCall", Some("fg"), None, None, HiAttr::Nothing)),
        Highlight::Fixed(hi("rustCommentLineDoc", Some("palepink"), None, None, HiAttr::Nothing)),
        Highlight::Fixed(hi("scalaInstanceDeclaration", Some("gold"), None, None, HiAttr::Nothing)),
        Highlight::Fixed(hi("tomlTable", Some("skyblue"), None, None, HiAttr::Nothing)),
        Highlight::Fixed(hi("tomlTableArray", Some("skyblue"), None, None, HiAttr::Nothing)),
        Highlight::Fixed(hi("tomlKey", Some("gold"), None, None, HiAttr::Nothing)),
        Highlight::Fixed(hi("tmuxCommands", Some("skyblue"), None, None, HiAttr::Nothing)),
        Highlight::Fixed(hi("tmuxFlags", Some("gold"), None, None, HiAttr::Nothing)),
        Highlight::Fixed(hi("tmuxFormatString", Some("yellow"), None, None, HiAttr::Nothing)),
        Highlight::Fixed(hi("typescriptBraces", Some("fg"), None, None, HiAttr::Nothing)),
        Highlight::Fixed(hi("typescriptAsyncFuncKeyword", Some("skyblue"), None, None, HiAttr::Nothing)),
        Highlight::Fixed(hi("typescriptKeywordOp", Some("yellow"), None, None, HiAttr::Bold)),
        Highlight::Fixed(hi("vimfilerColumn__SizeLine", Some("weakfg"), None, None, HiAttr::Nothing)),
        Highlight::Fixed(hi("vimfilerClosedFile", Some("green"), None, None, HiAttr::Nothing)),
        Highlight::Fixed(hi("vimCommand", Some("skyblue"), None, None, HiAttr::Nothing)),
        Highlight::Fixed(hi("watListDelimiter", Some("fg"), None, None, HiAttr::Nothing)),
        Highlight::Fixed(hi("watInstGeneral", Some("yellow"), None, None, HiAttr::Nothing)),
        Highlight::Fixed(hi("watInstGetSet", Some("yellow"), None, None, HiAttr::Nothing)),
        Highlight::Fixed(hi("watInstWithType", Some("yellow"), None, None, HiAttr::Nothing)),
        Highlight::Fixed(hi("watUnnamedVar", Some("purple"), None, None, HiAttr::Nothing)),
        Highlight::Fixed(hi("zshDelimiter", Some("skyblue"), None, None, HiAttr::Nothing)),
        Highlight::Fixed(hi("zshPrecommand", Some("red"), None, None, HiAttr::Nothing)),
        Highlight::Fixed(hi("debugPC", Some("bg"), Some("skyblue"), None, HiAttr::Nothing)),
        Highlight::Fixed(hi("debugBreakPoint", Some("bg"), Some("gold"), None, HiAttr::Nothing)),
        Highlight::Fixed(hi("zigMultilineStringDelimiter", Some("yellow"), None, None, HiAttr::Nothing)),
        // The style classes of plugins, adjusted so that the plugins go well with
        // this color scheme.
        Highlight::Fixed(hi("ALEWarningSign", Some("orange"), Some("bgemphasis"), None, HiAttr::Bold)),
        Highlight::Fixed(hi("ALEErrorSign", Some("bgemphasis"), Some("mildred"), None, HiAttr::Bold)),
        Highlight::Fixed(hi("ALEInfoSign", None, Some("light"), None, HiAttr::Nothing)),
        Highlight::Fixed(hi("ALEError", None, Some("mildred"), None, HiAttr::Nothing)),
        Highlight::Fixed(hi("ALEWarning", None, Some("darkgold"), None, HiAttr::Nothing)),
        Highlight::Fixed(hi("Flake8_Error", Some("red"), Some("bgemphasis"), None, HiAttr::Nothing)),
        Highlight::Fixed(hi("Flake8_Warning", Some("yellow"), Some("bgemphasis"), None, HiAttr::Nothing)),
        Highlight::Fixed(hi("Flake8_PyFlake", Some("skyblue"), Some("bgemphasis"), None, HiAttr::Nothing)),
        Highlight::Fixed(hi("Flake8_Complexity", Some("skyblue"), Some("bgemphasis"), None, HiAttr::Nothing)),
        Highlight::Fixed(hi("Flake8_Naming", Some("skyblue"), Some("bgemphasis"), None, HiAttr::Nothing)),
        Highlight::Fixed(hi("SignifySignAdd", Some("green"), Some("bgemphasis"), None, HiAttr::Nothing)),
        Highlight::Fixed(hi("SignifySignChange", Some("yellow"), Some("bgemphasis"), None, HiAttr::Nothing)),
        Highlight::Fixed(hi("SignifySignChangeDelete", Some("gold"), Some("bgemphasis"), None, HiAttr::Nothing)),
        Highlight::Fixed(hi("SignifySignDelete", Some("red"), Some("bgemphasis"), None, HiAttr::Nothing)),
        Highlight::Fixed(hi("CleverFChar", Some("bg"), Some("red"), None, HiAttr::Nothing)),
        Highlight::Fixed(hi("CleverFDirect", Some("bg"), Some("red"), None, HiAttr::Nothing)),
        Highlight::Fixed(hi("DirvishArg", Some("yellow"), None, None, HiAttr::Bold)),
        Highlight::Fixed(hi("EasyMotionTarget", Some("red"), None, None, HiAttr::Bold)),
        Highlight::Fixed(hi("EasyMotionShade", Some("weakfg"), Some("bg"), None, HiAttr::Nothing)),
        Highlight::Fixed(hi("GitGutterAdd", Some("green"), Some("bgemphasis"), None, HiAttr::Nothing)),
        Highlight::Fixed(hi("GitGutterChange", Some("yellow"), Some("bgemphasis"), None, HiAttr::Nothing)),
        Highlight::Fixed(hi("GitGutterChangeDelete", Some("gold"), Some("bgemphasis"), None, HiAttr::Nothing)),
        Highlight::Fixed(hi("GitGutterDelete", Some("red"), Some("bgemphasis"), None, HiAttr::Nothing)),
        Highlight::Fixed(hi("HighlightedyankRegion", None, Some("bgemphasis"), None, HiAttr::Nothing)),
        Highlight::Dynamic {
            gui: hi("EasyMotionIncCursor", Some("bg"), Some("fg"), None, HiAttr::Nothing),
            term: hi("EasyMotionIncCursor", None, None, None, HiAttr::Reverse),
        },
        Highlight::Fixed(hi("plugDeleted", Some("weakfg"), None, None, HiAttr::Nothing)),
        Highlight::Fixed(hi("ConflictMarker", None, Some("mildred"), None, HiAttr::Nothing)),
        Highlight::Fixed(hi("IndentGuidesOdd", None, Some("bgweaker"), None, HiAttr::Nothing)),
        Highlight::Fixed(hi("IndentGuidesEven", None, Some("bgemphasis"), None, HiAttr::Nothing)),
    ]
}

/// The highlights that the color scheme comes with.
pub fn make_default_highlights() -> (list: Vec<Highlight>)
    ensures
        list@ == default_highlights(),
{
    vec![
        // The editor's own style classes.
        Highlight::Fixed(hi("Boolean", Some("red"), None, None, HiAttr::Nothing)),
        Highlight::Fixed(hi("Character", Some("green"), None, None, HiAttr::Nothing)),
        Highlight::Fixed(hi("ColorColumn", None, Some("bgstrong"), None, HiAttr::Nothing)),
        Highlight::Fixed(hi("Comment", Some("weakfg"), None, None, HiAttr::CommentItalic)),
        Highlight::Fixed(hi("Conceal", Some("mikan"), Some("bg"), None, HiAttr::Nothing)),
        Highlight::Fixed(hi("Conditional", Some("skyblue"), None, None, HiAttr::Nothing)),
        Highlight::Fixed(hi("Constant", Some("red"), None, None, HiAttr::Nothing)),
        Highlight::Fixed(hi("Cursor", Some("bg"), Some("fg"), None, HiAttr::Nothing)),
        Highlight::Fixed(hi("lCursor", Some("bg"), Some("fg"), None, HiAttr::Nothing)),
        Highlight::Fixed(hi("CursorColumn", None, Some("bgemphasis"), None, HiAttr::Nothing)),
        Highlight::Fixed(hi("CursorLine", None, Some("bgemphasis"), None, HiAttr::Cleared)),
        Highlight::Fixed(hi("CursorLineNr", Some("purple"), Some("bgstrong"), None, HiAttr::Nothing)),
        Highlight::Fixed(hi("Define", Some("orange"), None, None, HiAttr::Nothing)),
        Highlight::Fixed(hi("Directory", Some("green"), None, None, HiAttr::Nothing)),
        Highlight::Fixed(hi("EndOfBuffer", Some("bgstrong"), None, None, HiAttr::Nothing)),
        Highlight::Fixed(hi("Error", Some("red"), Some("bgemphasis"), None, HiAttr::Bold)),
        Highlight::Fixed(hi("ErrorMsg", Some("red"), Some("bg"), None, HiAttr::Bold)),
        Highlight::Fixed(hi("Float", Some("red"), None, None, HiAttr::Nothing)),
        Highlight::Fixed(hi("NormalFloat", Some("fg"), Some("bgweaker"), None, HiAttr::Nothing)),
        Highlight::Fixed(hi("FloatBorder", Some("weakfg"), Some("bgweaker"), None, HiAttr::Nothing)),
        Highlight::Fixed(hi("FoldColumn", Some("purple"), Some("bgemphasis"), None, HiAttr::Nothing)),
        Highlight::Fixed(hi("Folded", Some("purple"), Some("light"), None, HiAttr::Nothing)),
        Highlight::Fixed(hi("Function", Some("orange"), None, None, HiAttr::Nothing)),
        Highlight::Fixed(hi("Identifier", Some("gold"), None, None, HiAttr::Italic)),
        Highlight::Fixed(hi("IncSearch", Some("NONE"), Some("sakura"), None, HiAttr::Underline)),
        Highlight::Fixed(hi("Keyword", Some("yellow"), None, None, HiAttr::Bold)),
        Highlight::Fixed(hi("Label", Some("skyblue"), None, None, HiAttr::Nothing)),
        Highlight::Fixed(hi("LineNr", Some("weakerfg"), Some("bgemphasis"), None, HiAttr::Nothing)),
        Highlight::Fixed(hi("MatchParen", Some("bg"), Some("gold"), None, HiAttr::Bold)),
        Highlight::Fixed(hi("ModeMsg", Some("gold"), None, None, HiAttr::Nothing)),
        Highlight::Fixed(hi("MoreMsg", Some("green"), None, None, HiAttr::Nothing)),
        Highlight::Fixed(hi("NonText", Some("light"), None, None, HiAttr::Nothing)),
        Highlight::Fixed(hi("Normal", Some("fg"), Some("bg"), None, HiAttr::Nothing)),
        Highlight::Fixed(hi("Number", Some("red"), None, None, HiAttr::Nothing)),
        Highlight::Fixed(hi("Operater", Some("orange"), None, None, HiAttr::Nothing)),
        Highlight::Fixed(hi("Pmenu", Some("purple"), Some("bgemphasis"), None, HiAttr::Nothing)),
        Highlight::Fixed(hi("PmenuSbar", Some("gold"), Some("bgstrong"), None, HiAttr::Nothing)),
        Highlight::Fixed(hi("PmenuSel", Some("gold"), Some("bgstrong"), None, HiAttr::Nothing)),
        Highlight::Fixed(hi("PmenuThumb", Some("gold"), Some("weakfg"), None, HiAttr::Nothing)),
        Highlight::Fixed(hi("PreProc", Some("orange"), None, None, HiAttr::Nothing)),
        Highlight::Fixed(hi("Question", Some("skyblue"), None, None, HiAttr::Nothing)),
        Highlight::Fixed(hi("Search", Some("NONE"), Some("nasu"), None, HiAttr::Underline)),
        Highlight::Fixed(hi("SignColumn", Some("fg"), Some("bgemphasis"), None, HiAttr::Nothing)),
        Highlight::Fixed(hi("Special", Some("yellow"), None, None, HiAttr::Bold)),
        Highlight::Fixed(hi("SpecialKey", Some("hiddenfg"), None, None, HiAttr::Nothing)),
        Highlight::Fixed(hi("SpecialComment", Some("palepink"), None, None, HiAttr::Nothing)),
        Highlight::Dynamic {
            gui: hi("SpellBad", Some("red"), None, Some("red"), HiAttr::Undercurl),
            term: hi("SpellBad", Some("red"), Some("NONE"), Some("red"), HiAttr::Undercurl),
        },
        Highlight::Dynamic {
            gui: hi("SpellCap", Some("purple"), None, Some("purple"), HiAttr::Undercurl),
            term: hi("SpellCap", Some("purple"), Some("NONE"), Some("purple"), HiAttr::Undercurl),
        },
        Highlight::Dynamic {
            gui: hi("SpellLocal", Some("red"), None, Some("red"), HiAttr::Undercurl),
            term: hi("SpellLocal", Some("red"), Some("NONE"), Some("red"), HiAttr::Undercurl),
        },
        Highlight::Dynamic {
            gui: hi("SpellRare", Some("yellow"), None, Some("yellow"), HiAttr::Undercurl),
            term: hi("SpellRare", Some("yellow"), Some("NONE"), Some("yellow"), HiAttr::Undercurl),
        },
        Highlight::Fixed(hi("Statement", Some("skyblue"), None, None, HiAttr::Nothing)),
        Highlight::Fixed(hi("StatusLine", Some("fg"), Some("bgstrong"), None, HiAttr::Bold)),
        Highlight::Fixed(hi("StatusLineNC", Some("weakfg"), Some("bgemphasis"), None, HiAttr::Cleared)),
        Highlight::Fixed(hi("StatusLineTerm", Some("fg"), Some("bgstrong"), None, HiAttr::Bold)),
        Highlight::Fixed(hi("StatusLineTermNC", Some("weakfg"), Some("bgemphasis"), None, HiAttr::Cleared)),
        Highlight::Fixed(hi("StorageClass", Some("gold"), None, None, HiAttr::Italic)),
        Highlight::Fixed(hi("String", Some("green"), None, None, HiAttr::Nothing)),
        Highlight::Fixed(hi("TabLine", Some("weakfg"), Some("bgstrong"), None, HiAttr::Nothing)),
        Highlight::Fixed(hi("TabLineFill", Some("bgemphasis"), None, None, HiAttr::Nothing)),
        Highlight::Fixed(hi("TabLineSel", Some("gold"), Some("bg"), None, HiAttr::Bold)),
        Highlight::Fixed(hi("Tag", Some("orange"), None, None, HiAttr::Nothing)),
        Highlight::Fixed(hi("Title", Some("gold"), None, None, HiAttr::Bold)),
        Highlight::Fixed(hi("Todo", Some("bg"), Some("red"), None, HiAttr::Bold)),
        Highlight::Fixed(hi("ToolbarButton", Some("gold"), Some("bg"), None, HiAttr::Bold)),
        Highlight::Fixed(hi("ToolbarLine", Some("weakfg"), Some("bgstrong"), None, HiAttr::Nothing)),
        Highlight::Fixed(hi("Type", Some("gold"), None, None, HiAttr::Nothing)),
        Highlight::Fixed(hi("Underlined", Some("skyblue"), None, None, HiAttr::Underline)),
        Highlight::Fixed(hi("VertSplit", Some("bgemphasis"), Some("bg"), None, HiAttr::Nothing)),
        Highlight::Fixed(hi("Visual", None, Some("yaezakura"), None, HiAttr::Nothing)),
        Highlight::Fixed(hi("WarningMsg", Some("mikan"), Some("bgemphasis"), None, HiAttr::Nothing)),
        Highlight::Fixed(hi("WildMenu", Some("bg"), Some("gold"), None, HiAttr::Nothing)),
        // The style classes of file types.
        Highlight::Fixed(hi("cmakeArguments", Some("yellow"), None, None, HiAttr::Nothing)),
        Highlight::Fixed(hi("cmakeOperators", Some("red"), None, None, HiAttr::Nothing)),
        Highlight::Fixed(hi("cStorageClass", Some("yellow"), None, None, HiAttr::Nothing)),
        Highlight::Fixed(hi("cTypedef", Some("yellow"), None, None, HiAttr::Nothing)),
        Highlight::Fixed(hi("DiffAdd", None, Some("darkgreen"), None, HiAttr::Bold)),
        Highlight::Fixed(hi("DiffChange", None, Some("darkgold"), None, HiAttr::Bold)),
        Highlight::Fixed(hi("DiffDelete", Some("fg"), Some("mildred"), None, HiAttr::Bold)),
        Highlight::Fixed(hi("DiffText", None, Some("bg"), None, HiAttr::Nothing)),
        Highlight::Fixed(hi("diffAdded", Some("green"), None, None, HiAttr::Nothing)),
        Highlight::Fixed(hi("diffFile", Some("yellow"), None, None, HiAttr::Nothing)),
        Highlight::Fixed(hi("diffIndexLine", Some("gold"), None, None, HiAttr::Nothing)),
        Highlight::Fixed(hi("diffNewFile", Some("yellow"), None, None, HiAttr::Nothing)),
        Highlight::Fixed(hi("diffRemoved", Some("red"), None, None, HiAttr::Nothing)),
        Highlight::Fixed(hi("gitCommitOverflow", None, Some("mildred"), None, HiAttr::Nothing)),
        Highlight::Fixed(hi("gitCommitSummary", Some("yellow"), None, None, HiAttr::Nothing)),
        Highlight::Fixed(hi("gitCommitSelectedFile", Some("skyblue"), None, None, HiAttr::Nothing)),
        Highlight::Fixed(hi("gitconfigSection", Some("skyblue"), None, None, HiAttr::Bold)),
        Highlight::Fixed(hi("goBuiltins", Some("red"), None, None, HiAttr::Nothing)),
        Highlight::Fixed(hi("helpExample", Some("skyblue"), None, None, HiAttr::Nothing)),
        Highlight::Fixed(hi("helpCommand", Some("purple"), None, None, HiAttr::Nothing)),
        Highlight::Fixed(hi("htmlBold", None, Some("bgemphasis"), None, HiAttr::Nothing)),
        Highlight::Fixed(hi("htmlLinkText", Some("skyblue"), None, None, HiAttr::Nothing)),
        Highlight::Fixed(hi("htmlTagName", Some("orange"), None, None, HiAttr::Nothing)),
        Highlight::Fixed(hi("javaScriptBraces", Some("fg"), None, None, HiAttr::Nothing)),
        Highlight::Fixed(hi("makeCommands", Some("yellow"), None, None, HiAttr::Nothing)),
        Highlight::Fixed(hi("markdownCode", Some("yellow"), None, None, HiAttr::Nothing)),
        Highlight::Fixed(hi("markdownUrl", Some("weakfg"), None, None, HiAttr::Nothing)),
        Highlight::Fixed(hi("ocamlConstructor", Some("gold"), None, None, HiAttr::Nothing)),
        Highlight::Fixed(hi("ocamlKeyChar", Some("skyblue"), None, None, HiAttr::Nothing)),
        Highlight::Fixed(hi("ocamlKeyword", Some("gold"), None, None, HiAttr::Nothing)),
        Highlight::Fixed(hi("ocamlFunDef", Some("skyblue"), None, None, HiAttr::Nothing)),
        Highlight::Fixed(hi("plantumlColonLine", Some("skyblue"), None, None, HiAttr::Nothing)),
        Highlight::Fixed(hi("pythonBuiltin", Some("red"), None, None, HiAttr::Nothing)),
        Highlight::Fixed(hi("qfFileName", Some("gold"), None, None, HiAttr::Nothing)),
        Highlight::Fixed(hi("qfLineNr", Some("skyblue"), None, None, HiAttr::Nothing)),
        Highlight::Fixed(hi("rstEmphasis", None, Some("bgemphasis"), None, HiAttr::Italic)),
        Highlight::Fixed(hi("rstStrongEmphasis", None, Some("bgstrong"), None, HiAttr::Bold)),
        Highlight::Fixed(hi("rubyFunction", Some("yellow"), None, None, HiAttr::Nothing)),
        Highlight::Fixed(hi("rubyIdentifier", Some("yellow"), None, None, HiAttr::Nothing)),
        Highlight::Fixed(hi("rustEnumVariant", Some("gold"), None, None, HiAttr::Nothing)),
        Highlight::Fixed(hi("rustFuncCall", Some("fg"), None, None, HiAttr::Nothing)),
        Highlight::Fixed(hi("rustCommentLineDoc", Some("palepink"), None, None, HiAttr::Nothing)),
        Highlight::Fixed(hi("scalaInstanceDeclaration", Some("gold"), None, None, HiAttr::Nothing)),
        Highlight::Fixed(hi("tomlTable", Some("skyblue"), None, None, HiAttr::Nothing)),
        Highlight::Fixed(hi("tomlTableArray", Some("skyblue"), None, None, HiAttr::Nothing)),
        Highlight::Fixed(hi("tomlKey", Some("gold"), None, None, HiAttr::Nothing)),
        Highlight::Fixed(hi("tmuxCommands", Some("skyblue"), None, None, HiAttr::Nothing)),
        Highlight::Fixed(hi("tmuxFlags", Some("gold"), None, None, HiAttr::Nothing)),
        Highlight::Fixed(hi("tmuxFormatString", Some("yellow"), None, None, HiAttr::Nothing)),
        Highlight::Fixed(hi("typescriptBraces", Some("fg"), None, None, HiAttr::Nothing)),
        Highlight::Fixed(hi("typescriptAsyncFuncKeyword", Some("skyblue"), None, None, HiAttr::Nothing)),
        Highlight::Fixed(hi("typescriptKeywordOp", Some("yellow"), None, None, HiAttr::Bold)),
        Highlight::Fixed(hi("vimfilerColumn__SizeLine", Some("weakfg"), None, None, HiAttr::Nothing)),
        Highlight::Fixed(hi("vimfilerClosedFile", Some("green"), None, None, HiAttr::Nothing)),
        Highlight::Fixed(hi("vimCommand", Some("skyblue"), None, None, HiAttr::Nothing)),
        Highlight::Fixed(hi("watListDelimiter", Some("fg"), None, None, HiAttr::Nothing)),
        Highlight::Fixed(hi("watInstGeneral", Some("yellow"), None, None, HiAttr::Nothing)),
        Highlight::Fixed(hi("watInstGetSet", Some("yellow"), None, None, HiAttr::Nothing)),
        Highlight::Fixed(hi("watInstWithType", Some("yellow"), None, None, HiAttr::Nothing)),
        Highlight::Fixed(hi("watUnnamedVar", Some("purple"), None, None, HiAttr::Nothing)),
        Highlight::Fixed(hi("zshDelimiter", Some("skyblue"), None, None, HiAttr::Nothing)),
        Highlight::Fixed(hi("zshPrecommand", Some("red"), None, None, HiAttr::Nothing)),
        Highlight::Fixed(hi("debugPC", Some("bg"), Some("skyblue"), None, HiAttr::Nothing)),
        Highlight::Fixed(hi("debugBreakPoint", Some("bg"), Some("gold"), None, HiAttr::Nothing)),
        Highlight::Fixed(hi("zigMultilineStringDelimiter", Some("yellow"), None, None, HiAttr::Nothing)),
        // The style classes of plugins, adjusted so that the plugins go well with
        // this color scheme.
        Highlight::Fixed(hi("ALEWarningSign", Some("orange"), Some("bgemphasis"), None, HiAttr::Bold)),
        Highlight::Fixed(hi("ALEErrorSign", Some("bgemphasis"), Some("mildred"), None, HiAttr::Bold)),
        Highlight::Fixed(hi("ALEInfoSign", None, Some("light"), None, HiAttr::Nothing)),
        Highlight::Fixed(hi("ALEError", None, Some("mildred"), None, HiAttr::Nothing)),
        Highlight::Fixed(hi("ALEWarning", None, Some("darkgold"), None, HiAttr::Nothing)),
        Highlight::Fixed(hi("Flake8_Error", Some("red"), Some("bgemphasis"), None, HiAttr::Nothing)),
        Highlight::Fixed(hi("Flake8_Warning", Some("yellow"), Some("bgemphasis"), None, HiAttr::Nothing)),
        Highlight::Fixed(hi("Flake8_PyFlake", Some("skyblue"), Some("bgemphasis"), None, HiAttr::Nothing)),
        Highlight::Fixed(hi("Flake8_Complexity", Some("skyblue"), Some("bgemphasis"), None, HiAttr::Nothing)),
        Highlight::Fixed(hi("Flake8_Naming", Some("skyblue"), Some("bgemphasis"), None, HiAttr::Nothing)),
        Highlight::Fixed(hi("SignifySignAdd", Some("green"), Some("bgemphasis"), None, HiAttr::Nothing)),
        Highlight::Fixed(hi("SignifySignChange", Some("yellow"), Some("bgemphasis"), None, HiAttr::Nothing)),
        Highlight::Fixed(hi("SignifySignChangeDelete", Some("gold"), Some("bgemphasis"), None, HiAttr::Nothing)),
        Highlight::Fixed(hi("SignifySignDelete", Some("red"), Some("bgemphasis"), None, HiAttr::Nothing)),
        Highlight::Fixed(hi("CleverFChar", Some("bg"), Some("red"), None, HiAttr::Nothing)),
        Highlight::Fixed(hi("CleverFDirect", Some("bg"), Some("red"), None, HiAttr::Nothing)),
        Highlight::Fixed(hi("DirvishArg", Some("yellow"), None, None, HiAttr::Bold)),
        Highlight::Fixed(hi("EasyMotionTarget", Some("red"), None, None, HiAttr::Bold)),
        Highlight::Fixed(hi("EasyMotionShade", Some("weakfg"), Some("bg"), None, HiAttr::Nothing)),
        Highlight::Fixed(hi("GitGutterAdd", Some("green"), Some("bgemphasis"), None, HiAttr::Nothing)),
        Highlight::Fixed(hi("GitGutterChange", Some("yellow"), Some("bgemphasis"), None, HiAttr::Nothing)),
        Highlight::Fixed(hi("GitGutterChangeDelete", Some("gold"), Some("bgemphasis"), None, HiAttr::Nothing)),
        Highlight::Fixed(hi("GitGutterDelete", Some("red"), Some("bgemphasis"), None, HiAttr::Nothing)),
        Highlight::Fixed(hi("HighlightedyankRegion", None, Some("bgemphasis"), None, HiAttr::Nothing)),
        Highlight::Dynamic {
            gui: hi("EasyMotionIncCursor", Some("bg"), Some("fg"), None, HiAttr::Nothing),
            term: hi("EasyMotionIncCursor", None, None, None, HiAttr::Reverse),
        },
        Highlight::Fixed(hi("plugDeleted", Some("weakfg"), None, None, HiAttr::Nothing)),
        Highlight::Fixed(hi("ConflictMarker", None, Some("mildred"), None, HiAttr::Nothing)),
        Highlight::Fixed(hi("IndentGuidesOdd", None, Some("bgweaker"), None, HiAttr::Nothing)),
        Highlight::Fixed(hi("IndentGuidesEven", None, Some("bgemphasis"), None, HiAttr::Nothing)),
    ]
}

/// The palette colors of the terminal's sixteen slots: black, red, green,
/// yellow, blue, magenta, cyan and white, then the bright ones in the same
/// order.
pub open spec fn default_term_colors() -> Seq<&'static str> {
    seq![
        "bg",
        "crimson",
        "green",
        "gold",
        "blue",
        "purple",
        "skyblue",
        "fg",
        "weakerfg",
        "red",
        "lime",
        "yellow",
        "paleblue",
        "purple",
        "sunny",
        "white",
    ]
}

/// The palette colors of the terminal's sixteen slots.
pub fn make_default_term_colors() -> (names: [&'static str; 16])
    ensures
        names@ == default_term_colors(),
{
    let names = [
        "bg",
        "crimson",
        "green",
        "gold",
        "blue",
        "purple",
        "skyblue",
        "fg",
        "weakerfg",
        "red",
        "lime",
        "yellow",
        "paleblue",
        "purple",
        "sunny",
        "white",
    ];
    assert(names@ =~= default_term_colors());
    names
}

/// What tells the style classes of the highlights above apart: the length of
/// a name, its first three characters and its last two.
spec fn signature(name: Seq<char>) -> (nat, char, char, char, char, char) {
    (name.len(), name[0], name[1], name[2], name[name.len() - 2], name[name.len() - 1])
}

/// No two of the highlights that the color scheme comes with define the same
/// style class, and the two definitions of each two-fold entry are for the
/// same style class.
#[verifier::rlimit(50)]
pub proof fn lemma_default_highlights_well_formed()
    ensures
        well_formed(highlights_of(default_highlights())),
{
    reveal_strlit("Boolean");
    reveal_strlit("Character");
    reveal_strlit("ColorColumn");
    reveal_strlit("Comment");
    reveal_strlit("Conceal");
    reveal_strlit("Conditional");
    reveal_strlit("Constant");
    reveal_strlit("Cursor");
    reveal_strlit("lCursor");
    reveal_strlit("CursorColumn");
    reveal_strlit("CursorLine");
    reveal_strlit("CursorLineNr");
    reveal_strlit("Define");
    reveal_strlit("Directory");
    reveal_strlit("EndOfBuffer");
    reveal_strlit("Error");
    reveal_strlit("ErrorMsg");
    reveal_strlit("Float");
    reveal_strlit("NormalFloat");
    reveal_strlit("FloatBorder");
    reveal_strlit("FoldColumn");
    reveal_strlit("Folded");
    reveal_strlit("Function");
    reveal_strlit("Identifier");
    reveal_strlit("IncSearch");
    reveal_strlit("Keyword");
    reveal_strlit("Label");
    reveal_strlit("LineNr");
    reveal_strlit("MatchParen");
    reveal_strlit("ModeMsg");
    reveal_strlit("MoreMsg");
    reveal_strlit("NonText");
    reveal_strlit("Normal");
    reveal_strlit("Number");
    reveal_strlit("Operater");
    reveal_strlit("Pmenu");
    reveal_strlit("PmenuSbar");
    reveal_strlit("PmenuSel");
    reveal_strlit("PmenuThumb");
    reveal_strlit("PreProc");
    reveal_strlit("Question");
    reveal_strlit("Search");
    reveal_strlit("SignColumn");
    reveal_strlit("Special");
    reveal_strlit("SpecialKey");
    reveal_strlit("SpecialComment");
    reveal_strlit("SpellBad");
    reveal_strlit("SpellCap");
    reveal_strlit("SpellLocal");
    reveal_strlit("SpellRare");
    reveal_strlit("Statement");
    reveal_strlit("StatusLine");
    reveal_strlit("StatusLineNC");
    reveal_strlit("StatusLineTerm");
    reveal_strlit("StatusLineTermNC");
    reveal_strlit("StorageClass");
    reveal_strlit("String");
    reveal_strlit("TabLine");
    reveal_strlit("TabLineFill");
    reveal_strlit("TabLineSel");
    reveal_strlit("Tag");
    reveal_strlit("Title");
    reveal_strlit("Todo");
    reveal_strlit("ToolbarButton");
    reveal_strlit("ToolbarLine");
    reveal_strlit("Type");
    reveal_strlit("Underlined");
    reveal_strlit("VertSplit");
    reveal_strlit("Visual");
    reveal_strlit("WarningMsg");
    reveal_strlit("WildMenu");
    reveal_strlit("cmakeArguments");
    reveal_strlit("cmakeOperators");
    reveal_strlit("cStorageClass");
    reveal_strlit("cTypedef");
    reveal_strlit("DiffAdd");
    reveal_strlit("DiffChange");
    reveal_strlit("DiffDelete");
    reveal_strlit("DiffText");
    reveal_strlit("diffAdded");
    reveal_strlit("diffFile");
    reveal_strlit("diffIndexLine");
    reveal_strlit("diffNewFile");
    reveal_strlit("diffRemoved");
    reveal_strlit("gitCommitOverflow");
    reveal_strlit("gitCommitSummary");
    reveal_strlit("gitCommitSelectedFile");
    reveal_strlit("gitconfigSection");
    reveal_strlit("goBuiltins");
    reveal_strlit("helpExample");
    reveal_strlit("helpCommand");
    reveal_strlit("htmlBold");
    reveal_strlit("htmlLinkText");
    reveal_strlit("htmlTagName");
    reveal_strlit("javaScriptBraces");
    reveal_strlit("makeCommands");
    reveal_strlit("markdownCode");
    reveal_strlit("markdownUrl");
    reveal_strlit("ocamlConstructor");
    reveal_strlit("ocamlKeyChar");
    reveal_strlit("ocamlKeyword");
    reveal_strlit("ocamlFunDef");
    reveal_strlit("plantumlColonLine");
    reveal_strlit("pythonBuiltin");
    reveal_strlit("qfFileName");
    reveal_strlit("qfLineNr");
    reveal_strlit("rstEmphasis");
    reveal_strlit("rstStrongEmphasis");
    reveal_strlit("rubyFunction");
    reveal_strlit("rubyIdentifier");
    reveal_strlit("rustEnumVariant");
    reveal_strlit("rustFuncCall");
    reveal_strlit("rustCommentLineDoc");
    reveal_strlit("scalaInstanceDeclaration");
    reveal_strlit("tomlTable");
    reveal_strlit("tomlTableArray");
    reveal_strlit("tomlKey");
    reveal_strlit("tmuxCommands");
    reveal_strlit("tmuxFlags");
    reveal_strlit("tmuxFormatString");
    reveal_strlit("typescriptBraces");
    reveal_strlit("typescriptAsyncFuncKeyword");
    reveal_strlit("typescriptKeywordOp");
    reveal_strlit("vimfilerColumn__SizeLine");
    reveal_strlit("vimfilerClosedFile");
    reveal_strlit("vimCommand");
    reveal_strlit("watListDelimiter");
    reveal_strlit("watInstGeneral");
    reveal_strlit("watInstGetSet");
    reveal_strlit("watInstWithType");
    reveal_strlit("watUnnamedVar");
    reveal_strlit("zshDelimiter");
    reveal_strlit("zshPrecommand");
    reveal_strlit("debugPC");
    reveal_strlit("debugBreakPoint");
    reveal_strlit("zigMultilineStringDelimiter");
    reveal_strlit("ALEWarningSign");
    reveal_strlit("ALEErrorSign");
    reveal_strlit("ALEInfoSign");
    reveal_strlit("ALEError");
    reveal_strlit("ALEWarning");
    reveal_strlit("Flake8_Error");
    reveal_strlit("Flake8_Warning");
    reveal_strlit("Flake8_PyFlake");
    reveal_strlit("Flake8_Complexity");
    reveal_strlit("Flake8_Naming");
    reveal_strlit("SignifySignAdd");
    reveal_strlit("SignifySignChange");
    reveal_strlit("SignifySignChangeDelete");
    reveal_strlit("SignifySignDelete");
    reveal_strlit("CleverFChar");
    reveal_strlit("CleverFDirect");
    reveal_strlit("DirvishArg");
    reveal_strlit("EasyMotionTarget");
    reveal_strlit("EasyMotionShade");
    reveal_strlit("GitGutterAdd");
    reveal_strlit("GitGutterChange");
    reveal_strlit("GitGutterChangeDelete");
    reveal_strlit("GitGutterDelete");
    reveal_strlit("HighlightedyankRegion");
    reveal_strlit("EasyMotionIncCursor");
    reveal_strlit("plugDeleted");
    reveal_strlit("ConflictMarker");
    reveal_strlit("IndentGuidesOdd");
    reveal_strlit("IndentGuidesEven");
    let rules = highlights_of(default_highlights());
    assert(rules.len() == 165);
    assert forall|i: int| 0 <= i < rules.len() implies (#[trigger] rules[i]).paired() by {}
    assert forall|i: int, j: int| 0 <= i < j < rules.len() implies (
    #[trigger] rules[i]).class_name() != (#[trigger] rules[j]).class_name() by {
        assert(signature(rules[i].class_name()) != signature(rules[j].class_name()));
    }
}

/// The palette that the themes are made from holds every color that the
/// highlights and the terminal colors above refer to.
#[verifier::rlimit(50)]
pub proof fn lemma_default_scheme_closed()
    ensures
        scheme_unknown(
            default_colors(),
            highlights_of(default_highlights()),
            names_of(default_term_colors()),
        ) is None,
{
    let colors = default_colors();
    let rules = highlights_of(default_highlights());
    let names = names_of(default_term_colors());
    assert(rules.len() == 165);
    assert forall|i: int| 0 <= i < rules.len() implies highlight_unknown(
        colors,
        #[trigger] rules[i],
    ) is None by {}
    lemma_all_known(colors, rules, rules.len() as int);
    assert(names.len() == 16);
    assert forall|i: int| 0 <= i < names.len() implies colors.contains_key(#[trigger] names[i]) by {}
    lemma_none_missing(colors, names, names.len() as int);
}

} // verus!
