use regex::Regex;
use spring_night::airline::{AirlineModeColors, AirlineTheme};
use spring_night::alacritty::{AlacrittyFgColors, AlacrittySearchColors, AlacrittyTheme};
use spring_night::colorscheme::Colorscheme;
use spring_night::highlight::{HiAttr, HiCommand, Highlight, HighlightSet};
use spring_night::palette::{Color, ColorCode, Palette};
use std::collections::HashSet;
use toml_edit::DocumentMut;

#[test]
fn test_test_color_code() {
    assert_eq!(*ColorCode::Normal(10).normal(), 10);
    assert_eq!(*ColorCode::Contrast(10, 20).normal(), 10);
}

#[test]
fn test_test_write_header() {
    let palette = Palette::new();
    let w = Colorscheme::new(&palette);
    let mut out = String::new();
    w.write_header(&mut out);
    let rendered = out.as_str();
    assert!(rendered.starts_with(r#"" spring-night: Calm-colored dark color scheme"#));
    assert!(rendered.contains("let g:colors_name = 'spring-night'"));
}

#[test]
fn test_test_write_contrast_color_variables() {
    let palette = Palette::new();
    let w = Colorscheme::new(&palette);
    let mut out = String::new();
    w.write_contrast_color_variables(&mut out);
    assert_eq!(out.as_str(), "\n");

    let mut m = Palette::new();
    m.insert(
        "hi",
        Color {
            gui: ColorCode::Normal("#123456"),
            cterm: ColorCode::Contrast(12, 34),
        },
    );
    m.insert(
        "hello",
        Color {
            gui: ColorCode::Contrast("#123456", "#7890ab"),
            cterm: ColorCode::Contrast(123, 234),
        },
    );
    m.insert(
        "hey",
        Color {
            gui: ColorCode::Normal("#123456"),
            cterm: ColorCode::Normal(123),
        },
    );
    m.insert(
        "goodbye",
        Color {
            gui: ColorCode::Contrast("#000000", "#ffffff"),
            cterm: ColorCode::Normal(123),
        },
    );
    let palette = m;
    let w = Colorscheme::new(&palette);
    let mut out = String::new();
    w.write_contrast_color_variables(&mut out);
    let expected = [
        "let s:goodbye_gui = g:spring_night_high_contrast ? '#000000' : '#ffffff'",
        "let s:hello_gui = g:spring_night_high_contrast ? '#123456' : '#7890ab'",
        "let s:hello_cterm = g:spring_night_high_contrast ? 123 : 234",
        "let s:hi_cterm = g:spring_night_high_contrast ? 12 : 34",
        "",
    ];
    assert_eq!(out.as_str().lines().count(), expected.len());
    for (actual, expected) in expected.iter().zip(out.as_str().lines()) {
        assert_eq!(*actual, expected);
    }
}

#[test]
fn test_test_write_highlight() {
    let testcases = vec![
        ((None, None, None, HiAttr::Nothing),             0, "hi HL term=NONE"),
        ((Some("n"), None, None, HiAttr::Nothing),        0, "hi HL term=NONE guifg=#123456 ctermfg=123"),
        ((None, Some("n"), None, HiAttr::Nothing),        0, "hi HL term=NONE guibg=#123456 ctermbg=123"),
        ((Some("n"), Some("n"), None, HiAttr::Nothing),   0, "hi HL term=NONE guifg=#123456 ctermfg=123 guibg=#123456 ctermbg=123"),
        ((None, None, None, HiAttr::Bold),                0, "exe 'hi' 'HL term=NONE' s:bold_attr"),
        ((None, None, None, HiAttr::Italic),              0, "exe 'hi' 'HL term=NONE' s:italic_attr"),
        ((None, None, None, HiAttr::Underline),           0, "hi HL term=NONE gui=underline cterm=underline"),
        ((None, None, None, HiAttr::CommentItalic),       0, "exe 'hi' 'HL term=NONE' g:spring_night_italic_comments ? s:italic_attr : ''"),
        ((None, None, None, HiAttr::Undercurl),           0, "exe 'hi' 'HL term=NONE' s:undercurl_attr"),
        ((Some("c"), None, None, HiAttr::Nothing),        0, "exe 'hi' 'HL term=NONE' 'guifg='.s:c_gui 'ctermfg='.s:c_cterm"),
        ((None, Some("c"), None, HiAttr::Nothing),        0, "exe 'hi' 'HL term=NONE' 'guibg='.s:c_gui 'ctermbg='.s:c_cterm"),
        ((Some("c"), Some("c"), None, HiAttr::Underline), 0, "exe 'hi' 'HL term=NONE' 'guifg='.s:c_gui 'ctermfg='.s:c_cterm 'guibg='.s:c_gui 'ctermbg='.s:c_cterm 'gui=underline cterm=underline'"),
        ((None, None, Some("n"), HiAttr::Nothing),        0, "hi HL term=NONE guisp=#123456"),
        ((None, None, Some("n"), HiAttr::Undercurl),      0, "exe 'hi' 'HL term=NONE' 'guisp=#123456' s:undercurl_attr"),
        ((None, None, None, HiAttr::Nothing),             1, "    hi HL term=NONE"),
        ((None, None, None, HiAttr::Undercurl),           1, "    exe 'hi' 'HL term=NONE' s:undercurl_attr"),
    ];

    for ((fg, bg, sp, attr), indent, expected) in testcases {
        let cmd = HiCommand {
            name: "HL",
            fg,
            bg,
            sp,
            attr,
        };
        let mut m = Palette::new();
        m.insert(
            "n",
            Color {
                gui: ColorCode::Normal("#123456"),
                cterm: ColorCode::Normal(123),
            },
        );
        m.insert(
            "c",
            Color {
                gui: ColorCode::Contrast("#123456", "#7890ab"),
                cterm: ColorCode::Contrast(123, 234),
            },
        );
        let palette = m;
        let w = Colorscheme::new(&palette);
        let mut out = String::new();
        w.write_hi_command(&mut out, &cmd, indent).unwrap();
        assert_eq!(out.as_str(), format!("{}\n", expected));
    }

    // Edge case
    let palette = Palette::new();
    let mut w = Colorscheme::new(&palette);
    w.highlights = HighlightSet::new(vec![]).unwrap();
    let mut out = String::new();
    w.write_highlights(&mut out).unwrap();
    assert_eq!(out.as_str(), "\n");
}

#[test]
fn test_test_write_highlights() {
    fn cmd() -> HiCommand {
        HiCommand {
            name: "HL",
            fg: None,
            bg: None,
            sp: None,
            attr: HiAttr::Nothing,
        }
    }

    let palette = Palette::new();
    let mut w = Colorscheme::new(&palette);
    let fixed = vec![Highlight::Fixed(cmd())];
    w.highlights = HighlightSet::new(fixed).unwrap();
    let mut out = String::new();
    w.write_highlights(&mut out).unwrap();
    assert_eq!(out.as_str(), "hi HL term=NONE\n\n");

    let dynamic = vec![Highlight::Dynamic {
        gui: cmd(),
        term: cmd(),
    }];
    let palette = Palette::new();
    let mut w = Colorscheme::new(&palette);
    w.highlights = HighlightSet::new(dynamic).unwrap();
    let mut out = String::new();
    w.write_highlights(&mut out).unwrap();
    assert_eq!(
        out.as_str().lines().collect::<Vec<_>>(),
        vec![
            "if s:gui_running",
            "    hi HL term=NONE",
            "else",
            "    hi HL term=NONE",
            "endif",
            "",
        ],
    );
}

#[test]
fn test_test_write_term_colors() {
    let mut m = Palette::new();
    m.insert(
        "normal",
        Color {
            gui: ColorCode::Normal("#123456"),
            cterm: ColorCode::Normal(123),
        },
    );
    m.insert(
        "contrast",
        Color {
            gui: ColorCode::Contrast("#000000", "#ffffff"),
            cterm: ColorCode::Contrast(1, 2),
        },
    );
    let palette = m;
    let mut w = Colorscheme::new(&palette);
    w.term_colors = [
        "normal", "contrast", "normal", "contrast", "normal", "contrast", "normal", "contrast",
        "normal", "contrast", "normal", "contrast", "normal", "contrast", "normal", "contrast",
    ];
    let mut out = String::new();
    w.write_term_colors(&mut out).unwrap();
    let rendered = out.as_str();
    assert!(rendered.contains("let g:terminal_color_0 = '#123456'"));
    assert!(rendered.contains("let g:terminal_color_1 = '#000000'"));
    assert!(rendered.contains("let g:terminal_color_0 = 123"));
    assert!(rendered.contains("let g:terminal_color_1 = 1"));
    assert!(rendered.contains("let g:terminal_ansi_colors = ['#123456','#000000','#123456','#000000','#123456','#000000','#123456','#000000','#123456','#000000','#123456','#000000','#123456','#000000','#123456','#000000']"));
}

#[test]
fn test_colorscheme_writer() {
    let palette = Palette::default();
    let w = Colorscheme::new(&palette);

    // Check duplicate highlights
    let mut unique_check = HashSet::new();
    for hl in w.highlights.entries() {
        let name = match hl {
            Highlight::Fixed(h) => h.name,
            Highlight::Dynamic { gui, term } => {
                assert_eq!(gui.name, term.name);
                gui.name
            }
        };
        assert!(unique_check.insert(name), "Duplicate highlight '{}'", name);
    }

    // Check terminal colors are correct
    for tc in &w.term_colors {
        assert!(
            w.palette.contains_key(tc),
            "Terminal color '{tc}' is not present in color names",
        );
    }

    // Check color code is correct
    let re = Regex::new(r"^#[[:xdigit:]]{6}$").unwrap();
    for name in w.palette.sorted_names() {
        let c = w.palette.get(name).unwrap();
        match c.gui {
            ColorCode::Normal(c) => {
                assert!(re.is_match(c), "'{c}' is invalid color code at '{name}'");
            }
            ColorCode::Contrast(c1, c2) => {
                assert!(re.is_match(c1), "'{c1}' is invalid color code at '{name}'");
                assert!(re.is_match(c2), "'{c2}' is invalid color code at '{name}'");
            }
        }
    }
}

#[test]
fn test_write_airline_theme() {
    let mut m = Palette::new();
    m.insert(
        "color1",
        Color {
            gui: ColorCode::Normal("#123456"),
            cterm: ColorCode::Normal(123),
        },
    );
    m.insert(
        "color2",
        Color {
            gui: ColorCode::Contrast("#000000", "#ffffff"),
            cterm: ColorCode::Contrast(1, 2),
        },
    );
    // Used for accents
    m.insert(
        "red",
        Color {
            gui: ColorCode::Normal("#ff0000"),
            cterm: ColorCode::Normal(123),
        },
    );

    let palette = m;
    let w = AirlineTheme {
        palette: &palette,
        modes: vec![
            (
                "normal",
                AirlineModeColors {
                    label: ("color1", "color2"),
                    info: ("color2", "color1"),
                    main: ("color2", "color2"),
                    modified: Some("color1"),
                    modified_main: Some("color1"),
                },
            ),
            (
                "insert",
                AirlineModeColors {
                    label: ("color2", "color1"),
                    info: ("color1", "color2"),
                    main: ("color1", "color1"),
                    modified: Some("color1"),
                    modified_main: None,
                },
            ),
            (
                "visual",
                AirlineModeColors {
                    label: ("color1", "color1"),
                    info: ("color2", "color2"),
                    main: ("color1", "color1"),
                    modified: None,
                    modified_main: None,
                },
            ),
            (
                "replace",
                AirlineModeColors {
                    label: ("color1", "color1"),
                    info: ("color2", "color2"),
                    main: ("color1", "color1"),
                    modified: Some("color1"),
                    modified_main: None,
                },
            ),
            (
                "inactive",
                AirlineModeColors {
                    label: ("color1", "color1"),
                    info: ("color2", "color2"),
                    main: ("color1", "color1"),
                    modified: Some("color2"),
                    modified_main: Some("color2"),
                },
            ),
        ],
        paste: "color1",
        info_mod: "color2",
        error: ("color1", "color2"),
        warning: ("color2", "color1"),
    };

    let mut out = String::new();
    w.write_to(&mut out).unwrap();
    let rendered = out.as_str();

    let re_var = Regex::new(r"^let g:airline#themes#spring_night#palette\.(\w+) =").unwrap();
    let re_palette =
        Regex::new(r"^\\\s+'(red|airline_(a|b|c|x|y|z|error|warning))': \[('(#[[:xdigit:]]{6})?',\s*){2}((\d{1,3}|''),\s*){2}''\]").unwrap();
    let mut tables = 0;
    let mut sections = 0;
    for line in rendered.lines() {
        if line.starts_with("let g:") {
            match re_var.captures(line) {
                Some(found) => {
                    let mode = &found[1];
                    assert!(
                        w.modes.iter().any(|(m, _)| *m == mode
                            || format!("{}_modified", m) == mode
                            || format!("{}_paste", m) == mode
                            || "accents" == mode),
                        "Unknown mode: {}",
                        mode
                    );
                    tables += 1;
                }
                None => assert!(
                    line == "let g:airline#themes#spring_night#palette = {}",
                    "Invalid variable definition: {}",
                    line
                ),
            }
        } else if line.starts_with("\\   ") {
            assert!(re_palette.is_match(line), "Invalid color palette: {}", line);
            sections += 1;
        }
    }
    // The accents, five modes, four of them with a modified buffer, and
    // paste mode for each of the five.
    assert_eq!(tables, 1 + 5 + 4 + 5);
    assert_eq!(sections, 1 + 5 * 8 + 4 * 5 + 5 * 5);
}

#[test]
fn test_write_alacritty_theme() {
    let mut m = Palette::new();
    m.insert(
        "color1",
        Color {
            gui: ColorCode::Normal("#ff0000"),
            cterm: ColorCode::Normal(123),
        },
    );
    m.insert(
        "color2",
        Color {
            gui: ColorCode::Normal("#00ff00"),
            cterm: ColorCode::Normal(123),
        },
    );
    m.insert(
        "color3",
        Color {
            gui: ColorCode::Normal("#0000ff"),
            cterm: ColorCode::Normal(123),
        },
    );
    m.insert(
        "color4",
        Color {
            gui: ColorCode::Normal("#ffff00"),
            cterm: ColorCode::Normal(123),
        },
    );
    let palette = m;

    let w = AlacrittyTheme {
        palette: &palette,
        background: "color1",
        dim: AlacrittyFgColors {
            name: "dim",
            foreground: "color4",
            black: "color4",
            red: "color4",
            green: "color4",
            yellow: "color4",
            blue: "color4",
            magenta: "color4",
            cyan: "color4",
            white: "color4",
        },
        normal: AlacrittyFgColors {
            name: "normal",
            foreground: "color2",
            black: "color2",
            red: "color2",
            green: "color2",
            yellow: "color2",
            blue: "color2",
            magenta: "color2",
            cyan: "color2",
            white: "color2",
        },
        bright: AlacrittyFgColors {
            name: "bright",
            foreground: "color3",
            black: "color3",
            red: "color3",
            green: "color3",
            yellow: "color3",
            blue: "color3",
            magenta: "color3",
            cyan: "color3",
            white: "color3",
        },
        search: AlacrittySearchColors {
            matches: ("color1", "color2"),
            focused_match: ("color3", "color4"),
        },
    };

    let mut out = String::new();
    w.write_to(&mut out).unwrap();
    let rendered = out.as_str();
    let doc = rendered.parse::<DocumentMut>().unwrap();

    let colors = &doc["colors"];
    assert_eq!(colors["primary"]["background"].as_str(), Some("#ff0000"));
    assert_eq!(colors["primary"]["foreground"].as_str(), Some("#00ff00"));
    assert_eq!(colors["primary"]["dim_foreground"].as_str(), Some("#ffff00"));
    assert_eq!(colors["primary"]["bright_foreground"].as_str(), Some("#0000ff"));
    for (section, value) in [("dim", "#ffff00"), ("normal", "#00ff00"), ("bright", "#0000ff")] {
        let table = colors[section].as_table().unwrap();
        assert_eq!(
            table.iter().map(|(k, _)| k).collect::<Vec<_>>(),
            vec!["black", "red", "green", "yellow", "blue", "magenta", "cyan", "white"],
        );
        for (_, v) in table.iter() {
            assert_eq!(v.as_str(), Some(value));
        }
    }
    assert_eq!(
        colors["search"]["matches"]["foreground"].as_str(),
        Some("#ff0000"),
    );
    assert_eq!(
        colors["search"]["matches"]["background"].as_str(),
        Some("#00ff00"),
    );
    assert_eq!(
        colors["search"]["focused_match"]["foreground"].as_str(),
        Some("#0000ff"),
    );
    assert_eq!(
        colors["search"]["focused_match"]["background"].as_str(),
        Some("#ffff00"),
    );
}

