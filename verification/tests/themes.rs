use spring_night::airline::AirlineTheme;
use spring_night::alacritty::AlacrittyTheme;
use spring_night::colorscheme::Colorscheme;
use spring_night::palette::Palette;
use spring_night::{files, write_to};

#[test]
fn test_write_to_stdout_successfully() {
    let mut stdout = String::new();
    write_to(&mut stdout).unwrap();
    assert!(!stdout.is_empty());
}

#[test]
fn the_stream_holds_the_three_themes_with_empty_lines_between_them() {
    let palette = Palette::default();
    let mut scheme = String::new();
    Colorscheme::new(&palette).write_to(&mut scheme).unwrap();
    let mut airline = String::new();
    AirlineTheme::new(&palette).write_to(&mut airline).unwrap();
    let mut alacritty = String::new();
    AlacrittyTheme::new(&palette).write_to(&mut alacritty).unwrap();

    let mut stream = String::from("# before\n");
    assert_eq!(write_to(&mut stream), Ok(()));
    assert_eq!(
        stream,
        format!("# before\n{scheme}\n{airline}\n{alacritty}"),
    );
}

#[test]
fn rendering_twice_gives_the_same_text() {
    let mut first = String::new();
    write_to(&mut first).unwrap();
    let mut second = String::new();
    write_to(&mut second).unwrap();
    assert_eq!(first, second);
}

#[test]
fn each_theme_has_its_file() {
    let palette = Palette::default();
    let mut scheme = String::new();
    Colorscheme::new(&palette).write_to(&mut scheme).unwrap();
    let mut airline = String::new();
    AirlineTheme::new(&palette).write_to(&mut airline).unwrap();
    let mut alacritty = String::new();
    AlacrittyTheme::new(&palette).write_to(&mut alacritty).unwrap();

    let list = files().unwrap();
    assert_eq!(list.len(), 3);
    assert_eq!(list[0].name, "colorscheme");
    assert_eq!(list[0].path, vec!["colors", "spring-night.vim"]);
    assert_eq!(list[0].text, scheme);
    assert_eq!(list[1].name, "airline theme");
    assert_eq!(
        list[1].path,
        vec!["autoload", "airline", "themes", "spring_night.vim"],
    );
    assert_eq!(list[1].text, airline);
    assert_eq!(list[2].name, "alacritty theme");
    assert_eq!(list[2].path, vec!["alacritty", "spring_night.toml"]);
    assert_eq!(list[2].text, alacritty);
}
