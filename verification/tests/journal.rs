use arcana::journal::{id_timestamp, parse_entry_content, sanitize_filename, Journal};

#[test]
fn test_sanitize_filename() {
    assert_eq!(sanitize_filename("Three Card Spread"), "three-card-spread");
    assert_eq!(sanitize_filename("Celtic/Cross"), "celtic-cross");
}

#[test]
fn sanitize_replaces_every_forbidden_character() {
    assert_eq!(sanitize_filename("A:B*C?D\"E<F>G|H\\I"), "a-b-c-d-e-f-g-h-i");
}

#[test]
fn parse_reads_spread_and_counts_headings() {
    let content = "# Tarot Reading — 2024-01-02 03:04\n\n## Spread: Celtic Cross\n\n### 1. Past — The Fool\n**Upright**\n\n### 2. Now — The Sun\n";
    let (name, count) = parse_entry_content(content);
    assert_eq!(name, "Celtic Cross");
    assert_eq!(count, 2);
}

#[test]
fn parse_without_spread_line() {
    let (name, count) = parse_entry_content("nothing here\n");
    assert_eq!(name, "Unknown Spread");
    assert_eq!(count, 0);
}

#[test]
fn disabled_journal_refuses_loading() {
    let j = Journal::disabled();
    assert!(j.is_disabled());
    assert_eq!(j.prepare_load("x"), Err("Journal is disabled"));
    let j = Journal::with_base_path(String::from("/tmp/journal"));
    assert!(!j.is_disabled());
    assert_eq!(j.prepare_load("2024-01-01-00-00-00-single"), Ok(String::from("2024-01-01-00-00-00-single.md")));
}

#[test]
fn id_gives_back_the_time_it_starts_with() {
    let t = id_timestamp("2024-03-05-09-07-03-three-card-spread").expect("a valid local time");
    assert_eq!((t.date.year, t.date.month, t.date.day), (2024, 3, 5));
    assert_eq!((t.hour, t.minute, t.second), (9, 7, 3));
}

#[test]
fn id_without_a_time_gives_none() {
    assert!(id_timestamp("short").is_none());
    assert!(id_timestamp("not-a-date-at-all-really").is_none());
    assert!(id_timestamp("2024-13-05-09-07-03-x").is_none());
}

#[test]
fn entry_reads_id_and_content() {
    let content = "# Reading\n\n## Spread: Three-Card Spread\n\n### 1. Past\n### 2. Present\n### 3. Future\n";
    let e = Journal::parse_entry("2023-12-31-23-59-58-three-card-spread", content);
    assert_eq!(e.id, "2023-12-31-23-59-58-three-card-spread");
    assert_eq!(e.spread_name, "Three-Card Spread");
    assert_eq!(e.card_count, 3);
    assert_eq!((e.timestamp.date.year, e.timestamp.date.month, e.timestamp.date.day), (2023, 12, 31));
    assert_eq!((e.timestamp.hour, e.timestamp.minute, e.timestamp.second), (23, 59, 58));
}

#[test]
fn entry_without_a_time_is_still_read() {
    let e = Journal::parse_entry("notes", "nothing here");
    assert_eq!(e.id, "notes");
    assert_eq!(e.spread_name, "Unknown Spread");
    assert_eq!(e.card_count, 0);
}

#[test]
fn sanitizing_twice_changes_nothing() {
    let once = sanitize_filename("Celtic/Cross: A*B");
    assert_eq!(sanitize_filename(&once), once);
}
