use spring_night::colorscheme::Colorscheme;
use spring_night::error::ConfigError;
use spring_night::highlight::{HiAttr, HiCommand, Highlight, HighlightSet};
use spring_night::palette::{Color, ColorCode, Palette};
use std::collections::HashSet;

#[test]
fn colorscheme_test_write_header() {
    let palette = Palette::new();
    let w = Colorscheme::new(&palette);
    let mut out = String::new();
    w.write_header(&mut out);
    let rendered = out.as_str();
    assert!(rendered.starts_with(r#"" spring-night: Calm-colored dark color scheme"#));
    assert!(rendered.contains("let g:colors_name = 'spring-night'"));
}

#[test]
fn colorscheme_test_write_contrast_color_variables() {
    let palette = Palette::new();
    let w = Colorscheme::new(&palette);
    let mut out = String::new();
    w.write_contrast_color_variables(&mut out);
    assert_eq!(out.as_str(), "\n");

    let mut m = Palette::new();
    m.insert(
        "hi",
        Color {
            gui: ColorCode::Normal("#123456"),
            cterm: ColorCode::Contrast(12, 34),
        },
    );
    m.insert(
        "hello",
        Color {
            gui: ColorCode::Contrast("#123456", "#7890ab"),
            cterm: ColorCode::Contrast(123, 234),
        },
    );
    m.insert(
        "hey",
        Color {
            gui: ColorCode::Normal("#123456"),
            cterm: ColorCode::Normal(123),
        },
    );
    m.insert(
        "goodbye",
        Color {
            gui: ColorCode::Contrast("#000000", "#ffffff"),
            cterm: ColorCode::Normal(123),
        },
    );
    let palette = m;
    let w = Colorscheme::new(&palette);
    let mut out = String::new();
    w.write_contrast_color_variables(&mut out);
    let expected = [
        "let s:goodbye_gui = g:spring_night_high_contrast ? '#000000' : '#ffffff'",
        "let s:hello_gui = g:spring_night_high_contrast ? '#123456' : '#7890ab'",
        "let s:hello_cterm = g:spring_night_high_contrast ? 123 : 234",
        "let s:hi_cterm = g:spring_night_high_contrast ? 12 : 34",
        "",
    ];
    assert_eq!(out.as_str().lines().count(), expected.len());
    for (actual, expected) in expected.iter().zip(out.as_str().lines()) {
        assert_eq!(*actual, expected);
    }
}

#[test]
fn colorscheme_test_write_highlight() {
    let testcases = vec![
        ((None, None, None, HiAttr::Nothing),             0, "hi HL term=NONE"),
        ((Some("n"), None, None, HiAttr::Nothing),        0, "hi HL term=NONE guifg=#123456 ctermfg=123"),
        ((None, Some("n"), None, HiAttr::Nothing),        0, "hi HL term=NONE guibg=#123456 ctermbg=123"),
        ((Some("n"), Some("n"), None, HiAttr::Nothing),   0, "hi HL term=NONE guifg=#123456 ctermfg=123 guibg=#123456 ctermbg=123"),
        ((None, None, None, HiAttr::Bold),                0, "exe 'hi' 'HL term=NONE' s:bold_attr"),
        ((None, None, None, HiAttr::Italic),              0, "exe 'hi' 'HL term=NONE' s:italic_attr"),
        ((None, None, None, HiAttr::Underline),           0, "hi HL term=NONE gui=underline cterm=underline"),
        ((None, None, None, HiAttr::CommentItalic),       0, "exe 'hi' 'HL term=NONE' g:spring_night_italic_comments ? s:italic_attr : ''"),
        ((None, None, None, HiAttr::Undercurl),           0, "exe 'hi' 'HL term=NONE' s:undercurl_attr"),
        ((Some("c"), None, None, HiAttr::Nothing),        0, "exe 'hi' 'HL term=NONE' 'guifg='.s:c_gui 'ctermfg='.s:c_cterm"),
        ((None, Some("c"), None, HiAttr::Nothing),        0, "exe 'hi' 'HL term=NONE' 'guibg='.s:c_gui 'ctermbg='.s:c_cterm"),
        ((Some("c"), Some("c"), None, HiAttr::Underline), 0, "exe 'hi' 'HL term=NONE' 'guifg='.s:c_gui 'ctermfg='.s:c_cterm 'guibg='.s:c_gui 'ctermbg='.s:c_cterm 'gui=underline cterm=underline'"),
        ((None, None, Some("n"), HiAttr::Nothing),        0, "hi HL term=NONE guisp=#123456"),
        ((None, None, Some("n"), HiAttr::Undercurl),      0, "exe 'hi' 'HL term=NONE' 'guisp=#123456' s:undercurl_attr"),
        ((None, None, None, HiAttr::Nothing),             1, "    hi HL term=NONE"),
        ((None, None, None, HiAttr::Undercurl),           1, "    exe 'hi' 'HL term=NONE' s:undercurl_attr"),
    ];

    for ((fg, bg, sp, attr), indent, expected) in testcases {
        let cmd = HiCommand {
            name: "HL",
            fg,
            bg,
            sp,
            attr,
        };
        let mut m = Palette::new();
        m.insert(
            "n",
            Color {
                gui: ColorCode::Normal("#123456"),
                cterm: ColorCode::Normal(123),
            },
        );
        m.insert(
            "c",
            Color {
                gui: ColorCode::Contrast("#123456", "#7890ab"),
                cterm: ColorCode::Contrast(123, 234),
            },
        );
        let palette = m;
        let w = Colorscheme::new(&palette);
        let mut out = String::new();
        w.write_hi_command(&mut out, &cmd, indent).unwrap();
        assert_eq!(out.as_str(), format!("{}\n", expected));
    }

    // Edge case
    let palette = Palette::new();
    let mut w = Colorscheme::new(&palette);
    w.highlights = HighlightSet::new(vec![]).unwrap();
    let mut out = String::new();
    w.write_highlights(&mut out).unwrap();
    assert_eq!(out.as_str(), "\n");
}

#[test]
fn colorscheme_test_write_highlights() {
    fn cmd() -> HiCommand {
        HiCommand {
            name: "HL",
            fg: None,
            bg: None,
            sp: None,
            attr: HiAttr::Nothing,
        }
    }

    let palette = Palette::new();
    let mut w = Colorscheme::new(&palette);
    let fixed = vec![Highlight::Fixed(cmd())];
    w.highlights = HighlightSet::new(fixed).unwrap();
    let mut out = String::new();
    w.write_highlights(&mut out).unwrap();
    assert_eq!(out.as_str(), "hi HL term=NONE\n\n");

    let dynamic = vec![Highlight::Dynamic {
        gui: cmd(),
        term: cmd(),
    }];
    let palette = Palette::new();
    let mut w = Colorscheme::new(&palette);
    w.highlights = HighlightSet::new(dynamic).unwrap();
    let mut out = String::new();
    w.write_highlights(&mut out).unwrap();
    assert_eq!(
        out.as_str().lines().collect::<Vec<_>>(),
        vec![
            "if s:gui_running",
            "    hi HL term=NONE",
            "else",
            "    hi HL term=NONE",
            "endif",
            "",
        ],
    );
}

#[test]
fn colorscheme_test_write_term_colors() {
    let mut m = Palette::new();
    m.insert(
        "normal",
        Color {
            gui: ColorCode::Normal("#123456"),
            cterm: ColorCode::Normal(123),
        },
    );
    m.insert(
        "contrast",
        Color {
            gui: ColorCode::Contrast("#000000", "#ffffff"),
            cterm: ColorCode::Contrast(1, 2),
        },
    );
    let palette = m;
    let mut w = Colorscheme::new(&palette);
    w.term_colors = [
        "normal", "contrast", "normal", "contrast", "normal", "contrast", "normal", "contrast",
        "normal", "contrast", "normal", "contrast", "normal", "contrast", "normal", "contrast",
    ];
    let mut out = String::new();
    w.write_term_colors(&mut out).unwrap();
    let rendered = out.as_str();
    assert!(rendered.contains("let g:terminal_color_0 = '#123456'"));
    assert!(rendered.contains("let g:terminal_color_1 = '#000000'"));
    assert!(rendered.contains("let g:terminal_color_0 = 123"));
    assert!(rendered.contains("let g:terminal_color_1 = 1"));
    assert!(rendered.contains("let g:terminal_ansi_colors = ['#123456','#000000','#123456','#000000','#123456','#000000','#123456','#000000','#123456','#000000','#123456','#000000','#123456','#000000','#123456','#000000']"));
}

#[test]
fn test_highlight_uniqueness() {
    let palette = Palette::default();
    let w = Colorscheme::new(&palette);
    let mut seen = HashSet::new();
    for hl in w.highlights.entries() {
        let name = match hl {
            Highlight::Fixed(h) => h.name,
            Highlight::Dynamic { gui, term } => {
                assert_eq!(gui.name, term.name);
                gui.name
            }
        };
        assert!(seen.insert(name), "Duplicate highlight '{}'", name);
    }
}

#[test]
fn test_term_colors() {
    let palette = Palette::default();
    let w = Colorscheme::new(&palette);
    for tc in &w.term_colors {
        assert!(
            palette.contains_key(tc),
            "Terminal color '{tc}' is not present in color names",
        );
    }
}

#[test]
fn unknown_color_is_reported_and_nothing_is_written() {
    let mut palette = Palette::new();
    palette.insert(
        "n",
        Color {
            gui: ColorCode::Normal("#123456"),
            cterm: ColorCode::Normal(123),
        },
    );
    let w = Colorscheme::new(&palette);
    let cmd = HiCommand {
        name: "HL",
        fg: Some("n"),
        bg: Some("missing"),
        sp: Some("gone"),
        attr: HiAttr::Bold,
    };
    let mut out = String::from("before");
    assert_eq!(
        w.write_hi_command(&mut out, &cmd, 0),
        Err(ConfigError::UnknownColorName("missing".to_string())),
    );
    assert_eq!(out.as_str(), "before");
}
