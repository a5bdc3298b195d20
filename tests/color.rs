use crossterm::style::Color;
use love::{parse_color, same_text};

#[test]
fn test_parse_color_red() {
    let color = parse_color("red");
    assert_eq!(color, Color::Red);
}

#[test]
fn test_parse_color_green() {
    let color = parse_color("green");
    assert_eq!(color, Color::Green);
}

#[test]
fn test_parse_color_blue() {
    let color = parse_color("blue");
    assert_eq!(color, Color::Blue);
}

#[test]
fn test_parse_color_yellow() {
    let color = parse_color("yellow");
    assert_eq!(color, Color::Yellow);
}

#[test]
fn test_parse_color_magenta() {
    let color = parse_color("magenta");
    assert_eq!(color, Color::Magenta);
}

#[test]
fn test_parse_color_cyan() {
    let color = parse_color("cyan");
    assert_eq!(color, Color::Cyan);
}

#[test]
fn test_parse_color_white() {
    let color = parse_color("white");
    assert_eq!(color, Color::White);
}

#[test]
fn test_parse_color_invalid() {
    let color = parse_color("invalid");
    assert_eq!(color, Color::White);
}

#[test]
fn test_parse_color_empty() {
    let color = parse_color("");
    assert_eq!(color, Color::White);
}

#[test]
fn test_parse_color_case_sensitive() {
    let color = parse_color("RED");
    assert_eq!(color, Color::White);
}

#[test]
fn unknown_color_names_fall_back_to_white() {
    for name in ["purple", "Red", "red ", " red", "re", "redd", "cyanblue", "\u{0}"] {
        assert_eq!(parse_color(name), Color::White, "{:?}", name);
    }
}

#[test]
fn same_text_compares_characters() {
    assert!(same_text("", ""));
    assert!(same_text("red", "red"));
    assert!(!same_text("red", "re"));
    assert!(!same_text("red", "red "));
    assert!(!same_text("red", "reD"));
    assert!(same_text("愛", "愛"));
}
