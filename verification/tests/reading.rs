use arcana::deck::Deck;
use arcana::journal::{
    entry_file_name, entry_id_of, id_timestamp, parse_entry_content, reading_file_name,
    sort_newest_first, Journal, JournalEntry,
};
use arcana::spreads::reading::Reading;
use arcana::spreads::{celtic_cross, three_card};
use arcana::timestamp::{CalendarDate, Timestamp};

fn stamp() -> Timestamp {
    Timestamp {
        date: CalendarDate { year: 2024, month: 3, day: 5 },
        hour: 7,
        minute: 8,
        second: 9,
        unix_seconds: 1_709_622_489,
        nanosecond: 0,
    }
}

fn three_card_reading() -> Reading {
    let mut deck = Deck::new_ordered();
    let drawn = deck.draw_many(3);
    Reading { spread: three_card(), drawn, timestamp: stamp(), notes: None }
}

#[test]
fn dates_are_zero_padded() {
    assert_eq!(stamp().date.iso_text(), "2024-03-05");
    assert_eq!(stamp().minute_text(), "2024-03-05 07:08");
    assert_eq!(stamp().file_text(), "2024-03-05-07-08-09");
}

#[test]
fn dates_in_words_name_the_weekday() {
    assert_eq!(stamp().date.long_text(), "Tuesday, March 05, 2024");
}

#[test]
fn midnight_is_written_with_two_zeros() {
    let mut t = stamp();
    t.hour = 0;
    t.minute = 0;
    t.second = 0;
    assert_eq!(t.minute_text(), "2024-03-05 00:00");
    assert_eq!(t.file_text(), "2024-03-05-00-00-00");
}

#[test]
fn markdown_lists_the_cards() {
    let md = three_card_reading().to_markdown();
    assert!(md.starts_with("# Tarot Reading — 2024-03-05 07:08\n\n## Spread: Three-Card Spread\n\n"));
    assert!(md.contains("### 1. Past — The Fool\n"));
    assert!(md.contains("### 3. Future — The High Priestess\n"));
}

#[test]
fn saved_reading_reads_back() {
    let mut reading = three_card_reading();
    reading.notes = Some(String::from("a calm morning"));
    let (name, count) = parse_entry_content(&reading.to_markdown());
    assert_eq!(name, "Three-Card Spread");
    assert_eq!(count, 3);
    assert!(reading.to_markdown().contains("## Notes\na calm morning\n"));
}

#[test]
fn celtic_reading_reads_back_ten_cards() {
    let mut deck = Deck::new();
    let drawn = deck.draw_many(10);
    let reading = Reading { spread: celtic_cross(), drawn, timestamp: stamp(), notes: None };
    let (name, count) = parse_entry_content(&reading.to_markdown());
    assert_eq!(name, "Celtic Cross");
    assert_eq!(count, 10);
}

#[test]
fn reading_file_names() {
    let reading = three_card_reading();
    assert_eq!(reading_file_name(&reading), "2024-03-05-07-08-09-three-card-spread.md");
    assert_eq!(entry_file_name("abc"), "abc.md");
    assert_eq!(entry_id_of("abc.md"), Some(String::from("abc")));
    assert_eq!(entry_id_of("abc.txt"), None);
}

#[test]
fn journal_prepares_what_to_write() {
    let reading = three_card_reading();
    assert_eq!(
        Journal::disabled().prepare_save(&reading),
        Err("Journal is disabled (could not create journal directory)")
    );
    let (name, content) = Journal::with_base_path(String::from("/j")).prepare_save(&reading).unwrap();
    assert_eq!(name, reading_file_name(&reading));
    assert_eq!(content, reading.to_markdown());
}

#[test]
fn reading_positions_follow_the_spread() {
    let reading = three_card_reading();
    assert_eq!(reading.card_count(), 3);
    let (card, position) = reading.get_card_at(1).unwrap();
    assert_eq!(card.card.name, "The Magician");
    assert_eq!(position.name, "Present");
    assert!(reading.get_card_at(3).is_none());
}

fn entry(id: &str, unix: i64) -> JournalEntry {
    JournalEntry {
        id: String::from(id),
        timestamp: Timestamp { unix_seconds: unix, ..stamp() },
        spread_name: String::from("Single Card"),
        card_count: 1,
    }
}

#[test]
fn entries_sort_newest_first_and_keep_ties_in_order() {
    let mut entries = vec![entry("a", 10), entry("b", 30), entry("c", 10), entry("d", 20)];
    sort_newest_first(&mut entries);
    let ids: Vec<&str> = entries.iter().map(|e| e.id.as_str()).collect();
    assert_eq!(ids, vec!["b", "d", "a", "c"]);
}

#[test]
fn entries_of_one_second_sort_by_nanoseconds() {
    let mut early = entry("early", 10);
    early.timestamp.nanosecond = 100;
    let mut late = entry("late", 10);
    late.timestamp.nanosecond = 900;
    let mut entries = vec![early, late];
    sort_newest_first(&mut entries);
    let ids: Vec<&str> = entries.iter().map(|e| e.id.as_str()).collect();
    assert_eq!(ids, vec!["late", "early"]);
}

#[test]
fn entry_date_is_shown_to_the_minute() {
    assert_eq!(entry("x", 1).formatted_date(), "2024-03-05 07:08");
}

#[test]
fn saved_file_is_listed_with_its_time() {
    let reading = three_card_reading();
    let name = reading_file_name(&reading);
    let id = entry_id_of(&name).expect("a saved reading");
    let t = id_timestamp(&id).expect("a valid local time");
    assert_eq!(t.date, reading.timestamp.date);
    assert_eq!((t.hour, t.minute, t.second), (7, 8, 9));
    let content = reading.to_markdown();
    let entry = Journal::parse_entry(&id, &content);
    assert_eq!(entry.spread_name, reading.spread.name);
    assert_eq!(entry.card_count, 3);
    assert_eq!(entry.timestamp.date, reading.timestamp.date);
}
