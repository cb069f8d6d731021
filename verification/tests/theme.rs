use arcana::cards::Suit;
use arcana::ui::theme::{theme, ColorStyle, Rgb, Theme};

#[test]
fn test_theme_creation() {
    let t = Theme::catppuccin_mocha();
    assert!(matches!(t.mauve, Rgb { .. }));
}

#[test]
fn test_suit_colors() {
    let t = Theme::catppuccin_mocha();

    assert_eq!(t.suit_color(Suit::Wands), t.peach);
    assert_eq!(t.suit_color(Suit::Cups), t.pink);
    assert_eq!(t.suit_color(Suit::Swords), t.red);
    assert_eq!(t.suit_color(Suit::Pentacles), t.green);
}

#[test]
fn test_color_style() {
    let styled = "test".mauve();
    assert!(styled.contains("test"));
}

#[test]
fn mocha_mauve_values() {
    let t = theme();
    assert_eq!(t.mauve, Rgb { r: 203, g: 166, b: 247 });
    assert_eq!(Theme::default(), t);
}

#[test]
fn owned_strings_are_styled_too() {
    let styled = String::from("owned").lavender();
    assert!(styled.contains("owned"));
}

#[test]
fn card_names_add_no_visible_width() {
    let fool = arcana::cards::major::major_card(0);
    let rendered = arcana::ui::theme::style::card_name(&fool);
    assert!(rendered.contains(&fool.display_name()));
    assert_eq!(arcana::cli::visible_len(&rendered), fool.display_name().chars().count());
}
