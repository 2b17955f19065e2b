use spring_night::airline::{AirlineModeColors, AirlineTheme};
use spring_night::error::ConfigError;
use spring_night::palette::{Color, ColorCode, Palette};

fn test_palette() -> Palette<'static> {
    let mut m = Palette::new();
    m.insert(
        "color1",
        Color {
            gui: ColorCode::Normal("#123456"),
            cterm: ColorCode::Normal(123),
        },
    );
    m.insert(
        "color2",
        Color {
            gui: ColorCode::Contrast("#000000", "#ffffff"),
            cterm: ColorCode::Contrast(1, 2),
        },
    );
    // Used for accents
    m.insert(
        "red",
        Color {
            gui: ColorCode::Normal("#ff0000"),
            cterm: ColorCode::Normal(123),
        },
    );
    m
}

fn test_theme<'a>(palette: &'a Palette<'a>) -> AirlineTheme<'a> {
    AirlineTheme {
        palette,
        modes: vec![
            (
                "normal",
                AirlineModeColors {
                    label: ("color1", "color2"),
                    info: ("color2", "color1"),
                    main: ("color2", "color2"),
                    modified: Some("color1"),
                    modified_main: Some("color1"),
                },
            ),
            (
                "insert",
                AirlineModeColors {
                    label: ("color2", "color1"),
                    info: ("color1", "color2"),
                    main: ("color1", "color1"),
                    modified: Some("color1"),
                    modified_main: None,
                },
            ),
            (
                "visual",
                AirlineModeColors {
                    label: ("color1", "color1"),
                    info: ("color2", "color2"),
                    main: ("color1", "color1"),
                    modified: None,
                    modified_main: None,
                },
            ),
            (
                "replace",
                AirlineModeColors {
                    label: ("color1", "color1"),
                    info: ("color2", "color2"),
                    main: ("color1", "color1"),
                    modified: Some("color1"),
                    modified_main: None,
                },
            ),
            (
                "inactive",
                AirlineModeColors {
                    label: ("color1", "color1"),
                    info: ("color2", "color2"),
                    main: ("color1", "color1"),
                    modified: Some("color2"),
                    modified_main: Some("color2"),
                },
            ),
        ],
        paste: "color1",
        info_mod: "color2",
        error: ("color1", "color2"),
        warning: ("color2", "color1"),
    }
}

#[test]
fn a_mode_gives_its_tables_in_order() {
    let palette = test_palette();
    let w = test_theme(&palette);
    let mut out = String::new();
    let (name, mode) = w.modes[1];
    w.write_mode(&mut out, name, &mode).unwrap();
    assert_eq!(
        out.lines().collect::<Vec<_>>(),
        vec![
            "let g:airline#themes#spring_night#palette.insert = {",
            "\\   'airline_a': ['#000000', '#123456', 1, 123, ''],",
            "\\   'airline_b': ['#123456', '#000000', 123, 1, ''],",
            "\\   'airline_c': ['#123456', '#123456', 123, 123, ''],",
            "\\   'airline_x': ['#123456', '#123456', 123, 123, ''],",
            "\\   'airline_y': ['#123456', '#000000', 123, 1, ''],",
            "\\   'airline_z': ['#000000', '#123456', 1, 123, ''],",
            "\\   'airline_error': ['#123456', '#000000', 123, 1, ''],",
            "\\   'airline_warning': ['#000000', '#123456', 1, 123, ''],",
            "\\ }",
            "let g:airline#themes#spring_night#palette.insert_modified = {",
            "\\   'airline_a': ['#000000', '#123456', 1, 123, ''],",
            "\\   'airline_b': ['#123456', '#000000', 123, 1, ''],",
            "\\   'airline_c': ['#123456', '#123456', 123, 123, ''],",
            "\\   'airline_error': ['#123456', '#000000', 123, 1, ''],",
            "\\   'airline_warning': ['#000000', '#123456', 1, 123, ''],",
            "\\ }",
            "let g:airline#themes#spring_night#palette.insert_paste = {",
            "\\   'airline_a': ['#000000', '#123456', 1, 123, ''],",
            "\\   'airline_b': ['#123456', '#000000', 123, 1, ''],",
            "\\   'airline_c': ['#123456', '#123456', 123, 123, ''],",
            "\\   'airline_error': ['#123456', '#000000', 123, 1, ''],",
            "\\   'airline_warning': ['#000000', '#123456', 1, 123, ''],",
            "\\ }",
            "",
        ],
    );
    assert!(out.ends_with("\\ }\n\n"));
}

#[test]
fn the_header_ends_with_the_accents() {
    let palette = test_palette();
    let w = test_theme(&palette);
    let mut out = String::new();
    w.write_header(&mut out).unwrap();
    assert!(out.starts_with("\" vim-airline theme for spring-night colorscheme\n"));
    assert!(out.ends_with(
        "\nlet g:airline#themes#spring_night#palette = {}\n\nlet g:airline#themes#spring_night#palette.accents = {\n\\   'red': ['#ff0000', '', 123, '', ''],\n\\ }\n\n"
    ));
}

#[test]
fn airline_names_the_first_unknown_color() {
    let mut palette = Palette::new();
    palette.insert(
        "color1",
        Color {
            gui: ColorCode::Normal("#123456"),
            cterm: ColorCode::Normal(123),
        },
    );
    let w = test_theme(&palette);
    let mut out = String::from("kept");
    assert_eq!(
        w.write_to(&mut out),
        Err(ConfigError::UnknownColorName("red".to_string())),
    );
    assert_eq!(out, "kept");

    let (name, mode) = w.modes[0];
    assert_eq!(
        w.write_mode(&mut out, name, &mode),
        Err(ConfigError::UnknownColorName("color2".to_string())),
    );
    assert_eq!(out, "kept");
}

#[test]
fn airline_theme_of_the_library_is_over_its_palette() {
    let palette = Palette::default();
    let w = AirlineTheme::new(&palette);
    let mut out = String::new();
    assert_eq!(w.write_to(&mut out), Ok(()));
    assert_eq!(
        w.modes.iter().map(|(m, _)| *m).collect::<Vec<_>>(),
        vec!["normal", "insert", "visual", "replace", "inactive"],
    );
    assert!(out.contains("\\   'red': ['#fd8489', '', 210, '', ''],\n"));
    assert!(out.contains(
        "let g:airline#themes#spring_night#palette.normal = {\n\\   'airline_a': ['#132132', '#fedf81', 233, 222, ''],\n"
    ));
    assert!(out.contains("let g:airline#themes#spring_night#palette.normal_modified = {\n"));
    assert!(!out.contains("let g:airline#themes#spring_night#palette.insert_modified = {\n"));
    assert!(out.contains("let g:airline#themes#spring_night#palette.inactive_paste = {\n"));
}
