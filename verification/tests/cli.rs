use arcana::cards::Suit;
use arcana::cli::commands::{card_lines, card_lookup, checked_read_head_lines, choose_spread, draw_reading, list_lines, spreads_lines, CardLookup};
use arcana::cli::output::{card_detail_lines, header_lines, plain_text, reading_lines, Span};
use arcana::cli::{fill, repeat_char, truncate, visible_len, wrap_lines};
use arcana::deck::Deck;
use arcana::error::ArcanaError;
use arcana::spreads::SpreadType;

fn texts(page: &[Vec<Span>]) -> Vec<String> {
    page.iter().map(|l| plain_text(l)).collect()
}

#[test]
fn repeat_and_truncate() {
    assert_eq!(repeat_char('─', 3), "───");
    assert_eq!(repeat_char('x', 0), "");
    assert_eq!(truncate("The Fool", 13), "The Fool     ");
    assert_eq!(truncate("Wheel of Fortune", 13), "Wheel of F...");
    assert_eq!(truncate("Exactly 13 ch", 13), "Exactly 13 ch");
}

#[test]
fn visible_length_skips_escape_codes() {
    assert_eq!(visible_len("\x1b[38;2;1;2;3m\x1b[1mabc\x1b[0m"), 3);
    assert_eq!(visible_len("plain"), 5);
    assert_eq!(visible_len(""), 0);
}

#[test]
fn fill_wraps_greedily() {
    assert_eq!(fill("a b c", 3), "a b\nc");
    assert_eq!(fill("  one   two\tthree ", 7), "one two\nthree");
    assert_eq!(fill("extraordinary is long", 5), "extraordinary\nis\nlong");
    assert_eq!(fill("   ", 10), "");
    assert_eq!(wrap_lines("x yy zzz", 4), vec![String::from("x yy"), String::from("zzz")]);
}

#[test]
fn lookups_find_cards() {
    match card_lookup("the fool") {
        CardLookup::Found(c) => assert_eq!(c.name, "The Fool"),
        _ => panic!("expected a card"),
    }
    match card_lookup("king") {
        CardLookup::Matches(v) => assert_eq!(v.len(), 4),
        _ => panic!("expected matches"),
    }
    match card_lookup("fortune") {
        CardLookup::Found(c) => assert_eq!(c.name, "Wheel of Fortune"),
        _ => panic!("expected one card"),
    }
    assert!(matches!(card_lookup("zzz"), CardLookup::NotFound));
}

#[test]
fn header_is_centred() {
    let page = header_lines("SPREADS");
    let t = texts(&page);
    assert_eq!(t.len(), 3);
    assert_eq!(t[0].chars().count(), 68);
    assert_eq!(t[1].chars().count(), 68 - 3);
    assert!(t[1].contains(" 🔮 SPREADS "));
}

#[test]
fn card_detail_box() {
    let fool = Deck::find_by_name("The Fool").unwrap();
    let t = texts(&card_detail_lines(&fool));
    assert!(t[0].starts_with("╭"));
    assert!(t[1].contains("✦ The Fool (0)"));
    assert!(t[3].contains("Major Arcana 0"));
    assert!(t.iter().any(|l| l.contains("Upright: ")));
    assert!(t.last().unwrap().starts_with("╰"));
    assert_eq!(t[1].chars().count(), 68);
    assert_eq!(t[3].chars().count(), 68);
}

#[test]
fn list_major_has_one_section() {
    let t = texts(&list_lines(true, None, false));
    assert!(t[1].contains("MAJOR ARCANA (22 cards)"));
    assert!(t.iter().any(|l| l == "━━━ MAJOR ARCANA ━━━"));
    assert!(!t.iter().any(|l| l == "━━━ WANDS ━━━"));
    assert_eq!(t.len(), 3 + 1 + 1 + 22 + 1 + 2);
}

#[test]
fn list_suit_and_all() {
    let t = texts(&list_lines(false, Some(Suit::Swords), false));
    assert!(t[1].contains("SWORDS (14 CARDS)"));
    assert!(t.iter().any(|l| l == "━━━ SWORDS ━━━"));
    let all = texts(&list_lines(false, None, false));
    for h in ["━━━ MAJOR ARCANA ━━━", "━━━ WANDS ━━━", "━━━ CUPS ━━━", "━━━ SWORDS ━━━", "━━━ PENTACLES ━━━"] {
        assert!(all.iter().any(|l| l == h));
    }
    assert_eq!(all.len(), 3 + 1 + 5 * 2 + 78 + 2);
}

#[test]
fn card_command_outcomes() {
    let usage = card_lines(None, false, None);
    assert!(!usage.failed);
    assert_eq!(plain_text(&usage.out[0]), "Usage: arcana card <CARD_NAME>");
    let missing = card_lines(Some("zzz"), false, None);
    assert!(missing.failed);
    assert!(missing.out.is_empty());
    assert_eq!(plain_text(&missing.err[0]), "❌ Card not found: 'zzz'");
    let many = card_lines(Some("queen"), false, None);
    assert_eq!(plain_text(&many.out[0]), "🔮 Multiple cards match 'queen'");
    assert_eq!(many.out.len(), 2 + 4);
    let cups = card_lines(None, false, Some(Suit::Cups));
    assert!(plain_text(&cups.out[1]).contains("CUPS CARDS"));
    assert_eq!(cups.out.len(), 4 + 14);
}

#[test]
fn spread_choice() {
    assert_eq!(choose_spread(SpreadType::Single, None).unwrap().name, "Single Card");
    assert_eq!(choose_spread(SpreadType::Single, Some("Celtic")).unwrap().name, "Celtic Cross");
    match choose_spread(SpreadType::Three, Some("nope")) {
        Err(ArcanaError::UnknownSpread(n)) => assert_eq!(n, "nope"),
        _ => panic!("expected an unknown spread"),
    }
}

#[test]
fn celtic_reading_shows_layout() {
    let spread = choose_spread(SpreadType::Celtic, None).unwrap();
    let reading = draw_reading(spread, true);
    assert_eq!(reading.card_count(), 10);
    assert!(reading.drawn.iter().all(|d| !d.reversed));
    let t = texts(&reading_lines(&reading));
    assert_eq!(t.last().unwrap(), "Card 1 crosses Card 2 (The Challenge)");
    assert!(t.iter().any(|l| l == "Celtic Cross Layout:"));
}

#[test]
fn cross_reading_shows_cross() {
    let reading = draw_reading(choose_spread(SpreadType::Five, None).unwrap(), false);
    let t = texts(&reading_lines(&reading));
    assert!(t.iter().any(|l| l == "Spread Layout:"));
    assert!(t.iter().filter(|l| l.contains("Position: ")).count() == 5);
}

#[test]
fn spreads_page_lists_six() {
    let t = texts(&spreads_lines());
    assert!(t[1].contains("AVAILABLE SPREADS"));
    assert!(t.iter().any(|l| l.contains(" Celtic Cross (10 cards)")));
    assert_eq!(t.iter().filter(|l| l.starts_with("┌")).count(), 6);
}

#[test]
fn readings_never_repeat_a_card() {
    for _ in 0..20 {
        let reading = draw_reading(choose_spread(SpreadType::Celtic, None).unwrap(), false);
        assert_eq!(reading.drawn.len(), 10);
        for i in 0..10 {
            for j in 0..10 {
                if i != j {
                    assert_ne!(reading.drawn[i].card.name, reading.drawn[j].card.name);
                }
            }
        }
    }
}

#[test]
fn readings_without_reversals_are_upright() {
    for _ in 0..20 {
        let reading = draw_reading(choose_spread(SpreadType::Celtic, None).unwrap(), true);
        assert!(reading.drawn.iter().all(|d| !d.reversed));
    }
}

#[test]
fn filling_twice_changes_nothing() {
    let text = "The quick brown fox jumps over the lazy dog and keeps running far away";
    let once = fill(text, 20);
    assert_eq!(fill(&once, 20), once);
}

#[test]
fn head_lines_only_for_titles_that_fit() {
    let spread = choose_spread(SpreadType::Three, None).unwrap();
    let head = checked_read_head_lines(&spread).expect("the title fits");
    assert!(texts(&head).iter().any(|l| l.contains("THREE-CARD SPREAD")));
}
