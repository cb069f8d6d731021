use arcana::cards::major::major_card;
use arcana::cards::minor::minor_card;
use arcana::cards::{DrawnCard, Suit};
use arcana::tui::app::{AppTheme, CardFilter};
use arcana::tui::view::{
    browser_keywords, card_color, card_info, card_symbol, challenge_text, entry_cards_label,
    filter_label, meaning_preview, mini_card_keywords, mini_card_name, notes_header, notes_input,
    reveal_header, reveal_marks, saved_readings_label, shown_line, shown_reading, shuffle_bar,
    shuffle_percent, shuffle_stage, slot_title, tiny_card_text, InfoKind, LineKind,
};

fn fool() -> DrawnCard {
    DrawnCard::new(major_card(0), false)
}

fn ace_of_cups_reversed() -> DrawnCard {
    DrawnCard::new(minor_card(14), true)
}

#[test]
fn symbols_follow_arcana_and_suit() {
    assert_eq!(card_symbol(&major_card(0)), "✦");
    assert_eq!(card_symbol(&minor_card(14)), "💧");
}

#[test]
fn colours_follow_arcana_and_suit() {
    let theme = AppTheme::default();
    assert_eq!(card_color(&major_card(0), &theme), theme.mauve);
    assert_eq!(card_color(&minor_card(14), &theme), theme.suit_color(Suit::Cups));
}

#[test]
fn filter_labels() {
    assert_eq!(filter_label(CardFilter::All), "All Cards (78)");
    assert_eq!(filter_label(CardFilter::Major), "Major Arcana (22)");
    assert_eq!(filter_label(CardFilter::Suit(Suit::Swords)), "Swords (14)");
}

#[test]
fn browser_shows_three_keywords() {
    assert_eq!(browser_keywords(&major_card(0)), "  — beginnings, innocence, spontaneity");
}

#[test]
fn slot_titles_are_numbered() {
    assert_eq!(slot_title(1, "Past"), "1. Past");
    assert_eq!(slot_title(10, "Outcome"), "10. Outcome");
}

#[test]
fn shuffle_frames() {
    assert_eq!(shuffle_stage(0), 0);
    assert_eq!(shuffle_stage(6), 0);
    assert_eq!(shuffle_stage(7), 1);
    assert_eq!(shuffle_stage(13), 1);
    assert_eq!(shuffle_stage(14), 2);
    let bar = shuffle_bar(3);
    assert_eq!(bar.chars().count(), 42);
    assert_eq!(bar, format!("[{}{}]", "█".repeat(6), "░".repeat(34)));
    assert_eq!(shuffle_bar(20), format!("[{}]", "█".repeat(40)));
    assert_eq!(shuffle_percent(0), "0%");
    assert_eq!(shuffle_percent(3), "15%");
    assert_eq!(shuffle_percent(20), "100%");
}

#[test]
fn reveal_progress() {
    assert_eq!(reveal_header(2, 10), "Card 3 of 10");
    assert_eq!(reveal_marks(1, 4), vec![true, true, false, false]);
    assert!(reveal_marks(0, 0).is_empty());
}

#[test]
fn spread_slot_texts() {
    assert_eq!(mini_card_name(&fool()), "The Fool");
    assert_eq!(mini_card_name(&ace_of_cups_reversed()), "Ace of Cups ⟳");
    assert_eq!(mini_card_keywords(&fool()), "beginnings, innocence");
    assert_eq!(tiny_card_text(&fool()), "The Fool");
    assert_eq!(tiny_card_text(&ace_of_cups_reversed()), "⟳ Ace of Cups");
    assert_eq!(challenge_text(&fool()), " The Fool");
    assert_eq!(challenge_text(&ace_of_cups_reversed()), "⟳ Ace of Cups");
}

#[test]
fn meaning_preview_cuts_at_eighty() {
    let long = fool();
    let preview = meaning_preview(&long);
    let expected: String = long.card.upright.chars().take(80).collect();
    assert_eq!(preview, format!("{}...", expected));
    let short = ace_of_cups_reversed();
    assert_eq!(meaning_preview(&short), "Emotional loss, blocked creativity, or emptiness....");
}

#[test]
fn notes_and_journal_labels() {
    assert_eq!(notes_header("Three-Card Spread", 3), "Three-Card Spread — 3 cards");
    assert_eq!(notes_input("hello"), "hello▏");
    assert_eq!(saved_readings_label(12), "12 saved readings");
    assert_eq!(entry_cards_label(3), " (3 cards)");
}

#[test]
fn saved_reading_lines_are_styled() {
    let line = |s: &str| shown_line(&s.chars().collect());
    let t = line("# My Reading");
    assert_eq!((t.text.as_str(), t.kind), ("My Reading", LineKind::Title));
    let s = line("## Cards");
    assert_eq!((s.text.as_str(), s.kind), ("Cards", LineKind::Section));
    let c = line("### 1. Past — The Fool");
    assert_eq!((c.text.as_str(), c.kind), ("1. Past — The Fool", LineKind::CardHeading));
    let r = line("**Reversed**");
    assert_eq!((r.text.as_str(), r.kind), ("Reversed", LineKind::Reversed));
    let u = line("**Upright**");
    assert_eq!((u.text.as_str(), u.kind), ("Upright", LineKind::Upright));
    let e = line("**Meaning**");
    assert_eq!((e.text.as_str(), e.kind), ("Meaning", LineKind::Emphasis));
    let b = line("- **Date:** today");
    assert_eq!((b.text.as_str(), b.kind), ("- **Date:** today", LineKind::Bullet));
    let blank = line("   ");
    assert_eq!((blank.text.as_str(), blank.kind), ("", LineKind::Blank));
    let plain = line("some text");
    assert_eq!((plain.text.as_str(), plain.kind), ("some text", LineKind::Text));
    let open = line("**bold start");
    assert_eq!((open.text.as_str(), open.kind), ("**bold start", LineKind::Text));
}

#[test]
fn saved_reading_is_styled_line_by_line() {
    let shown = shown_reading("# Title\n\n**Upright**\nplain");
    let kinds: Vec<LineKind> = shown.iter().map(|l| l.kind).collect();
    assert_eq!(kinds, vec![LineKind::Title, LineKind::Blank, LineKind::Upright, LineKind::Text]);
    assert_eq!(shown[0].text, "Title");
    assert_eq!(shown[3].text, "plain");
}

#[test]
fn daily_card_description_lines() {
    let major = card_info(&major_card(0));
    let texts: Vec<&str> = major.iter().map(|l| l.text.as_str()).collect();
    assert_eq!(
        texts,
        vec![
            "",
            "Major Arcana",
            "Astrology: Uranus",
            "Numerology: 0 — infinite potential",
            "Yes/No: Yes",
            "",
            "Keywords: beginnings, innocence, spontaneity, free spirit",
        ]
    );
    assert_eq!(major[1].kind, InfoKind::Major);
    let minor = card_info(&minor_card(14));
    let texts: Vec<&str> = minor.iter().map(|l| l.text.as_str()).collect();
    assert_eq!(
        texts,
        vec![
            "",
            "Minor Arcana — Cups",
            "Element: Water",
            "Numerology: 1 — new beginnings and potential",
            "Yes/No: Yes",
            "",
            "Keywords: love, new relationships, compassion, creativity",
        ]
    );
    assert_eq!(minor[1].kind, InfoKind::Minor);
    assert_eq!(minor[2].kind, InfoKind::Detail);
}
