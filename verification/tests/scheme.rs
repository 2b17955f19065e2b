use spring_night::colorscheme::{Colorscheme, HEADER};
use spring_night::error::ConfigError;
use spring_night::highlight::{HiAttr, HiCommand, Highlight, HighlightSet};
use spring_night::palette::{Color, ColorCode, Palette};

#[test]
fn the_scheme_of_the_library_has_its_highlights_and_terminal_colors() {
    let palette = Palette::default();
    let w = Colorscheme::new(&palette);
    assert_eq!(w.highlights.len(), 165);
    let first = w.highlights.entries()[0];
    assert_eq!(first.class_name(), "Boolean");
    let last = w.highlights.entries()[164];
    assert_eq!(last.class_name(), "IndentGuidesEven");
    assert_eq!(
        w.term_colors,
        [
            "bg", "crimson", "green", "gold", "blue", "purple", "skyblue", "fg", "weakerfg",
            "red", "lime", "yellow", "paleblue", "purple", "sunny", "white",
        ],
    );
}

#[test]
fn every_color_that_the_scheme_refers_to_is_in_the_palette() {
    let palette = Palette::default();
    let mut out = String::new();
    assert_eq!(Colorscheme::new(&palette).write_to(&mut out), Ok(()));

    let lines = out.lines().collect::<Vec<_>>();
    assert!(lines.contains(&"let s:bg_gui = g:spring_night_high_contrast ? '#132132' : '#334152'"));
    assert!(lines.contains(&"let s:fg_cterm = g:spring_night_high_contrast ? 231 : 230"));
    assert!(lines.contains(&"hi Boolean term=NONE guifg=#fd8489 ctermfg=210"));
    assert!(lines.contains(
        &"exe 'hi' 'Normal term=NONE' 'guifg=#fffeeb' 'ctermfg='.s:fg_cterm 'guibg='.s:bg_gui 'ctermbg=233'"
    ));
    assert!(lines.contains(&"hi CursorLine term=NONE guibg=#3a4b5c ctermbg=235 gui=NONE cterm=NONE"));
    assert!(lines.contains(
        &"    exe 'hi' 'SpellBad term=NONE' 'guifg=#fd8489' 'ctermfg=210' 'guibg=NONE' 'ctermbg=NONE' 'guisp=#fd8489' s:undercurl_attr"
    ));
    assert!(lines.contains(&"            let g:terminal_color_15 = '#ffffff'"));
    assert!(lines.contains(&"            let g:terminal_color_15 = 231"));
    assert_eq!(*lines.last().unwrap(), "endif");
}

#[test]
fn an_unknown_color_stops_the_scheme_before_anything_is_written() {
    let mut palette = Palette::new();
    palette.insert(
        "n",
        Color {
            gui: ColorCode::Normal("#123456"),
            cterm: ColorCode::Normal(123),
        },
    );
    let rule = |name: &'static str, fg| {
        Highlight::Fixed(HiCommand {
            name,
            fg,
            bg: None,
            sp: None,
            attr: HiAttr::Nothing,
        })
    };

    // The highlights are looked at before the terminal colors.
    let mut w = Colorscheme::new(&palette);
    w.highlights = HighlightSet::new(vec![
        rule("A", Some("n")),
        rule("B", Some("x")),
        rule("C", Some("y")),
    ])
    .unwrap();
    w.term_colors = ["z"; 16];
    let mut out = String::from("kept");
    let unknown = |name: &str| Err(ConfigError::UnknownColorName(name.to_string()));
    assert_eq!(w.write_to(&mut out), unknown("x"));
    assert_eq!(w.write_highlights(&mut out), unknown("x"));
    assert_eq!(w.write_term_colors(&mut out), unknown("z"));
    assert_eq!(w.write_nvim_term_colors(&mut out, 0), unknown("z"));
    assert_eq!(w.write_vim_term_colors(&mut out, 0), unknown("z"));
    assert_eq!(out, "kept");

    w.highlights = HighlightSet::new(vec![rule("A", Some("n"))]).unwrap();
    w.term_colors = [
        "n", "n", "n", "q", "n", "n", "r", "n", "n", "n", "n", "n", "n", "n", "n", "n",
    ];
    assert_eq!(w.write_to(&mut out), unknown("q"));
    assert_eq!(
        w.resolve_term_colors().err(),
        Some(ConfigError::UnknownColorName("q".to_string())),
    );
    assert_eq!(out, "kept");

    // The colors of the library's own highlights are not in this palette.
    let mut w = Colorscheme::new(&palette);
    assert_eq!(w.write_to(&mut out), unknown("red"));
    assert_eq!(out, "kept");
}

fn color(gui: &'static str, cterm: u8) -> Color<'static> {
    Color {
        gui: ColorCode::Normal(gui),
        cterm: ColorCode::Normal(cterm),
    }
}

#[test]
fn the_order_in_which_colors_were_put_into_the_palette_does_not_show() {
    let colors = [
        ("hi", Color { gui: ColorCode::Normal("#123456"), cterm: ColorCode::Contrast(12, 34) }),
        ("hello", Color { gui: ColorCode::Contrast("#123456", "#7890ab"), cterm: ColorCode::Contrast(123, 234) }),
        ("hey", color("#123456", 123)),
        ("goodbye", Color { gui: ColorCode::Contrast("#000000", "#ffffff"), cterm: ColorCode::Normal(123) }),
    ];
    let orders: [[usize; 4]; 5] = [
        [0, 1, 2, 3],
        [3, 2, 1, 0],
        [1, 3, 0, 2],
        [2, 0, 3, 1],
        [3, 0, 1, 2],
    ];
    let mut texts = vec![];
    for order in orders {
        let mut palette = Palette::new();
        for i in order {
            palette.insert(colors[i].0, colors[i].1);
        }
        let mut w = Colorscheme::new(&palette);
        w.highlights = HighlightSet::new(vec![
            Highlight::Fixed(HiCommand {
                name: "A",
                fg: Some("hello"),
                bg: Some("hey"),
                sp: Some("goodbye"),
                attr: HiAttr::Italic,
            }),
            Highlight::Dynamic {
                gui: HiCommand { name: "B", fg: Some("hi"), bg: None, sp: None, attr: HiAttr::Nothing },
                term: HiCommand { name: "B", fg: None, bg: Some("hey"), sp: None, attr: HiAttr::Reverse },
            },
        ])
        .unwrap();
        w.term_colors = [
            "hi", "hello", "hey", "goodbye", "hi", "hello", "hey", "goodbye", "hi", "hello",
            "hey", "goodbye", "hi", "hello", "hey", "goodbye",
        ];
        let mut out = String::new();
        w.write_to(&mut out).unwrap();
        texts.push(out);
    }
    for text in &texts {
        assert_eq!(text, &texts[0]);
    }
    let body = texts[0].strip_prefix(HEADER).unwrap();
    assert!(body.starts_with(
        "let s:goodbye_gui = g:spring_night_high_contrast ? '#000000' : '#ffffff'
let s:hello_gui = g:spring_night_high_contrast ? '#123456' : '#7890ab'
let s:hello_cterm = g:spring_night_high_contrast ? 123 : 234
let s:hi_cterm = g:spring_night_high_contrast ? 12 : 34

exe 'hi' 'A term=NONE' 'guifg='.s:hello_gui 'ctermfg='.s:hello_cterm 'guibg=#123456' 'ctermbg=123' 'guisp='.s:goodbye_gui s:italic_attr
if s:gui_running
    exe 'hi' 'B term=NONE' 'guifg=#123456' 'ctermfg='.s:hi_cterm
else
    hi B term=NONE guibg=#123456 ctermbg=123 gui=reverse cterm=reverse
endif

if g:spring_night_highlight_terminal
"
    ));
}

#[test]
fn a_color_put_in_again_replaces_the_one_before() {
    let mut palette = Palette::new();
    palette.insert("a", color("#111111", 1));
    palette.insert("b", color("#222222", 2));
    palette.insert("a", color("#333333", 3));
    let mut other = Palette::new();
    other.insert("b", color("#222222", 2));
    other.insert("a", color("#333333", 3));

    let render = |palette: &Palette<'static>| {
        let mut w = Colorscheme::new(palette);
        w.highlights = HighlightSet::new(vec![Highlight::Fixed(HiCommand {
            name: "A",
            fg: Some("a"),
            bg: Some("b"),
            sp: None,
            attr: HiAttr::Nothing,
        })])
        .unwrap();
        let mut out = String::new();
        w.write_highlights(&mut out).unwrap();
        out
    };
    assert_eq!(render(&palette), render(&other));
    assert_eq!(
        render(&palette),
        "hi A term=NONE guifg=#333333 ctermfg=3 guibg=#222222 ctermbg=2\n\n",
    );
}

#[test]
fn terminal_colors_keep_their_slots() {
    let mut palette = Palette::new();
    let names = [
        "c0", "c1", "c2", "c3", "c4", "c5", "c6", "c7", "c8", "c9", "c10", "c11", "c12", "c13",
        "c14", "c15",
    ];
    let values = [
        "#000000", "#010101", "#020202", "#030303", "#040404", "#050505", "#060606", "#070707",
        "#080808", "#090909", "#0a0a0a", "#0b0b0b", "#0c0c0c", "#0d0d0d", "#0e0e0e", "#0f0f0f",
    ];
    for i in 0..16 {
        palette.insert(
            names[i],
            Color {
                gui: ColorCode::Contrast(values[i], "#ffffff"),
                cterm: ColorCode::Contrast(100 + i as u8, 0),
            },
        );
    }
    let mut w = Colorscheme::new(&palette);
    // Slots in another order than that of the names, one name twice.
    let slots = [
        "c15", "c3", "c0", "c9", "c1", "c2", "c4", "c5", "c6", "c7", "c8", "c10", "c11", "c12",
        "c3", "c14",
    ];
    w.term_colors = slots;

    let found = w.resolve_term_colors().unwrap();
    assert_eq!(found.len(), 16);
    for i in 0..16 {
        assert_eq!(Some(&found[i]), palette.get(slots[i]));
    }

    let mut out = String::new();
    w.write_nvim_term_colors(&mut out, 1).unwrap();
    let mut expected = String::from("    if s:gui_running || s:true_colors\n");
    for i in 0..16 {
        let gui = palette.get(slots[i]).unwrap().gui.normal();
        expected += &format!("        let g:terminal_color_{i} = '{gui}'\n");
    }
    expected += "    else\n";
    for i in 0..16 {
        let cterm = palette.get(slots[i]).unwrap().cterm.normal();
        expected += &format!("        let g:terminal_color_{i} = {cterm}\n");
    }
    expected += "    endif\n";
    expected += "    let g:terminal_color_background = g:terminal_color_0\n";
    expected += "    let g:terminal_color_foreground = g:terminal_color_7\n";
    assert_eq!(out, expected);

    let mut out = String::new();
    w.write_vim_term_colors(&mut out, 2).unwrap();
    assert_eq!(
        out,
        "        let g:terminal_ansi_colors = ['#0f0f0f','#030303','#000000','#090909','#010101','#020202','#040404','#050505','#060606','#070707','#080808','#0a0a0a','#0b0b0b','#0c0c0c','#030303','#0e0e0e']\n",
    );

    let mut out = String::new();
    w.write_term_colors(&mut out).unwrap();
    let mut nvim = String::new();
    w.write_nvim_term_colors(&mut nvim, 2).unwrap();
    let mut vim = String::new();
    w.write_vim_term_colors(&mut vim, 2).unwrap();
    assert_eq!(
        out,
        format!(
            "if g:spring_night_highlight_terminal\n    if has('nvim')\n{nvim}    elseif (s:gui_running || s:true_colors) && exists('*term_setansicolors')\n{vim}    endif\nendif\n"
        ),
    );
}

#[test]
fn the_script_is_made_of_its_four_parts() {
    let palette = Palette::default();
    let mut w = Colorscheme::new(&palette);
    let mut parts = String::new();
    w.write_header(&mut parts);
    w.write_contrast_color_variables(&mut parts);
    w.write_highlights(&mut parts).unwrap();
    w.write_term_colors(&mut parts).unwrap();
    let mut whole = String::new();
    w.write_to(&mut whole).unwrap();
    assert_eq!(whole, parts);
}
