use regex::Regex;
use spring_night::error::ConfigError;
use spring_night::palette::{Color, ColorCode, Palette};

#[test]
fn palette_test_color_code() {
    assert_eq!(*ColorCode::Normal(10).normal(), 10);
    assert_eq!(*ColorCode::Contrast(10, 20).normal(), 10);
}

#[test]
fn test_hex_color_format() {
    let palette = Palette::default();
    let re = Regex::new(r"^#[[:xdigit:]]{6}$").unwrap();
    let names = palette.sorted_names();
    assert_eq!(names.len(), 43);
    for name in names {
        let c = palette.get(name).unwrap();
        match c.gui {
            ColorCode::Normal(c) => {
                assert!(re.is_match(c), "'{c}' is invalid color code at '{name}'");
            }
            ColorCode::Contrast(c1, c2) => {
                assert!(re.is_match(c1), "'{c1}' is invalid color code at '{name}'");
                assert!(re.is_match(c2), "'{c2}' is invalid color code at '{name}'");
            }
        }
    }
}

#[test]
fn pick_follows_the_choice_of_contrast() {
    assert_eq!(*ColorCode::Normal(10).pick(true), 10);
    assert_eq!(*ColorCode::Normal(10).pick(false), 10);
    assert_eq!(*ColorCode::Contrast(10, 20).pick(true), 10);
    assert_eq!(*ColorCode::Contrast(10, 20).pick(false), 20);
    assert_eq!(*ColorCode::Contrast("#000000", "#ffffff").pick(false), "#ffffff");
}

fn gray(index: u8) -> Color<'static> {
    Color {
        gui: ColorCode::Normal("#808080"),
        cterm: ColorCode::Normal(index),
    }
}

#[test]
fn insert_replaces_and_returns_the_previous_color() {
    let mut palette = Palette::new();
    assert!(!palette.contains_key("a"));
    assert_eq!(palette.get("a"), None);
    assert_eq!(palette.insert("a", gray(1)), None);
    assert_eq!(palette.insert("b", gray(2)), None);
    assert_eq!(palette.insert("a", gray(3)), Some(gray(1)));
    assert!(palette.contains_key("a"));
    assert_eq!(palette.get("a"), Some(&gray(3)));
    assert_eq!(palette.get("b"), Some(&gray(2)));
    assert_eq!(palette.sorted_names(), vec!["a", "b"]);
}

#[test]
fn lookup_names_the_unknown_color() {
    let mut palette = Palette::new();
    palette.insert("a", gray(1));
    assert_eq!(palette.lookup("a"), Ok(&gray(1)));
    assert_eq!(
        palette.lookup("b"),
        Err(ConfigError::UnknownColorName("b".to_string())),
    );
}

#[test]
fn resolve_keeps_the_order_of_the_names() {
    let mut palette = Palette::new();
    palette.insert("a", gray(1));
    palette.insert("b", gray(2));
    palette.insert("c", gray(3));
    assert_eq!(
        palette.resolve(&["c", "a", "c", "b"]),
        Ok(vec![gray(3), gray(1), gray(3), gray(2)]),
    );
    assert_eq!(palette.resolve(&[]), Ok(vec![]));
    assert_eq!(
        palette.resolve(&["a", "x", "b", "y"]),
        Err(ConfigError::UnknownColorName("x".to_string())),
    );
}

#[test]
fn names_are_sorted_as_rust_sorts_strings() {
    let mut palette = Palette::new();
    for name in ["b", "ab", "a", "B", "", "é", "z", "abc", "aé"] {
        palette.insert(name, gray(0));
    }
    let mut expected = vec!["b", "ab", "a", "B", "", "é", "z", "abc", "aé"];
    expected.sort();
    assert_eq!(palette.sorted_names(), expected);
    assert_eq!(
        palette.sorted_names(),
        vec!["", "B", "a", "ab", "abc", "aé", "b", "z", "é"],
    );
}

#[test]
fn default_palette_holds_the_colors_of_the_themes() {
    let palette = Palette::default();
    assert_eq!(
        palette.get("bg"),
        Some(&Color {
            gui: ColorCode::Contrast("#132132", "#334152"),
            cterm: ColorCode::Normal(233),
        }),
    );
    assert_eq!(
        palette.get("fg"),
        Some(&Color {
            gui: ColorCode::Normal("#fffeeb"),
            cterm: ColorCode::Contrast(231, 230),
        }),
    );
    assert_eq!(
        palette.get("inu"),
        Some(&Color {
            gui: ColorCode::Normal("#ddbc96"),
            cterm: ColorCode::Normal(180),
        }),
    );
    assert_eq!(palette.get("NONE"), None);
}
