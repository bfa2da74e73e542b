use overworld::color_hints::{hex_of, rgb_for, rgb_of_lowercase, same_text};
use overworld::ColorHint;

enum Foo {
    Bar,
}

impl ColorHint for Foo {
    fn color(&self) -> String {
        match self {
            Foo::Bar => "Brown".to_string(),
        }
    }
}

#[test]
fn test_color() {
    assert_eq!("Brown", Foo::Bar.color());
}

#[test]
fn test_rgb() {
    assert_eq!((139, 69, 19), Foo::Bar.rgb());
}

#[test]
fn test_hex() {
    assert_eq!(0x8B4513, Foo::Bar.hex());
}

#[test]
fn test_hex_string() {
    assert_eq!("#8B4513", Foo::Bar.hex_string());
}

#[test]
fn color_names_ignore_case() {
    assert_eq!((255, 255, 0), rgb_for("YeLLow"));
    assert_eq!((128, 128, 128), rgb_for("GREY"));
    assert_eq!((0, 0, 0), rgb_for("Orange"));
    assert_eq!((0, 0, 0), rgb_of_lowercase("Red"));
    assert_eq!((255, 0, 0), rgb_of_lowercase("red"));
}

#[test]
fn text_comparison_and_packing() {
    assert!(same_text("abc", "abc"));
    assert!(!same_text("abc", "abd"));
    assert!(!same_text("ab", "abc"));
    assert_eq!(0x010203, hex_of(1, 2, 3));
    assert_eq!(0xFFFFFF, hex_of(255, 255, 255));
}
