use arcana::cards::{ArcanaType, Card, DrawnCard, Element, Suit, YesOrNo};

#[test]
fn test_roman_numeral() {
    let fool = Card {
        name: "The Fool",
        arcana: ArcanaType::Major,
        suit: None,
        number: 0,
        keywords: &["beginnings", "innocence", "spontaneity"],
        upright: "test",
        reversed: "test",
        description: "test",
        element: None,
        astrology: None,
        numerology: None,
        yes_or_no: YesOrNo::Maybe,
    };
    assert_eq!(fool.roman_numeral(), Some("0"));

    let tower = Card {
        name: "The Tower",
        arcana: ArcanaType::Major,
        suit: None,
        number: 16,
        keywords: &["upheaval", "sudden change"],
        upright: "test",
        reversed: "test",
        description: "test",
        element: None,
        astrology: None,
        numerology: None,
        yes_or_no: YesOrNo::No,
    };
    assert_eq!(tower.roman_numeral(), Some("XVI"));
}

#[test]
fn test_suit_element() {
    assert_eq!(Suit::Wands.element(), Element::Fire);
    assert_eq!(Suit::Cups.element(), Element::Water);
    assert_eq!(Suit::Swords.element(), Element::Air);
    assert_eq!(Suit::Pentacles.element(), Element::Earth);
}

fn sample_minor() -> Card {
    Card {
        name: "Queen of Cups",
        arcana: ArcanaType::Minor,
        suit: Some(Suit::Cups),
        number: 13,
        keywords: &["compassion", "calm", "comfort"],
        upright: "up",
        reversed: "down",
        description: "d",
        element: Some(Element::Water),
        astrology: None,
        numerology: None,
        yes_or_no: YesOrNo::Yes,
    }
}

#[test]
fn display_names_show_numeral_or_rank() {
    let tower = Card { name: "The Tower", arcana: ArcanaType::Major, number: 16, ..sample_minor() };
    let tower = Card { suit: None, ..tower };
    assert_eq!(tower.display_name(), "The Tower (XVI)");
    assert_eq!(sample_minor().display_name(), "Queen of Cups");
    let seven = Card { number: 7, ..sample_minor() };
    assert_eq!(seven.display_name(), "7 of Cups");
}

#[test]
fn keywords_are_joined_with_commas() {
    assert_eq!(sample_minor().keywords_string(), "compassion, calm, comfort");
}

#[test]
fn drawn_card_meaning_follows_orientation() {
    let upright = DrawnCard::new(sample_minor(), false);
    let reversed = DrawnCard::new(sample_minor(), true);
    assert_eq!(upright.meaning(), "up");
    assert_eq!(reversed.meaning(), "down");
    assert_eq!(reversed.keywords(), "compassion, calm, comfort");
    assert!(upright.position.is_none());
}

#[test]
fn labels_of_enums() {
    assert_eq!(ArcanaType::Major.as_str(), "Major Arcana");
    assert_eq!(Suit::Pentacles.as_str(), "Pentacles");
    assert_eq!(Element::Air.as_str(), "Air");
    assert_eq!(YesOrNo::Maybe.as_str(), "Maybe");
}
