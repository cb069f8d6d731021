use arcana::cards::Suit;
use arcana::journal::{Journal, JournalEntry};
use arcana::timestamp::{CalendarDate, Timestamp};
use arcana::tui::app::{App, AppTheme, CardFilter, Effect, Key, MenuItem, Screen};
use arcana::ui::theme::Rgb;

fn app() -> App {
    App::new(Journal::disabled())
}

fn press(app: &mut App, key: Key) -> Effect {
    assert!(app.accepts_key(key));
    app.handle_key(key)
}

#[test]
fn new_app_starts_home() {
    let a = app();
    assert_eq!(a.screen, Screen::Home);
    assert_eq!(a.menu_items.len(), 6);
    assert_eq!(a.menu_selected, Some(0));
    assert_eq!(a.cards.len(), 78);
    assert_eq!(a.spread_options.len(), 6);
    assert_eq!(a.deck.remaining(), 78);
    assert!(!a.should_quit);
}

#[test]
fn menu_wraps_both_ways() {
    let mut a = app();
    press(&mut a, Key::Up);
    assert_eq!(a.menu_selected, Some(5));
    press(&mut a, Key::Char('j'));
    assert_eq!(a.menu_selected, Some(0));
    for _ in 0..6 {
        press(&mut a, Key::Down);
    }
    assert_eq!(a.menu_selected, Some(0));
}

#[test]
fn quit_from_menu_and_key() {
    let mut a = app();
    press(&mut a, Key::Up);
    press(&mut a, Key::Enter);
    assert!(a.should_quit);
    let mut b = app();
    press(&mut b, Key::Char('Q'));
    assert!(b.should_quit);
}

#[test]
fn menu_labels() {
    assert_eq!(MenuItem::NewReading.as_str(), "🔮  New Reading");
    assert_eq!(MenuItem::Quit.as_str(), "👋  Quit");
}

#[test]
fn browser_filter_cycles_through_six() {
    let mut a = app();
    press(&mut a, Key::Down);
    press(&mut a, Key::Down);
    press(&mut a, Key::Enter);
    assert_eq!(a.screen, Screen::CardBrowser);
    assert_eq!(a.cards.len(), 78);
    press(&mut a, Key::Tab);
    assert_eq!(a.card_filter, CardFilter::Major);
    assert_eq!(a.cards.len(), 22);
    press(&mut a, Key::Tab);
    assert_eq!(a.card_filter, CardFilter::Suit(Suit::Wands));
    assert_eq!(a.cards.len(), 14);
    for _ in 0..4 {
        press(&mut a, Key::Tab);
    }
    assert_eq!(a.card_filter, CardFilter::All);
    assert_eq!(a.cards.len(), 78);
}

#[test]
fn browser_search_and_detail() {
    let mut a = app();
    a.menu_selected = Some(2);
    press(&mut a, Key::Enter);
    press(&mut a, Key::Char('/'));
    for c in "fool".chars() {
        press(&mut a, Key::Char(c));
    }
    assert_eq!(a.cards.len(), 1);
    assert_eq!(a.selected_card.unwrap().name, "The Fool");
    press(&mut a, Key::Enter);
    assert!(!a.card_search_active);
    press(&mut a, Key::Enter);
    assert_eq!(a.screen, Screen::CardDetail);
    press(&mut a, Key::Esc);
    assert_eq!(a.screen, Screen::CardBrowser);
    assert!(a.selected_card.is_none());
}

#[test]
fn leaving_search_restores_all_cards() {
    let mut a = app();
    a.menu_selected = Some(2);
    press(&mut a, Key::Enter);
    press(&mut a, Key::Char('/'));
    press(&mut a, Key::Char('c'));
    press(&mut a, Key::Char('u'));
    press(&mut a, Key::Char('p'));
    assert!(a.cards.iter().all(|c| c.name.to_lowercase().contains("cup")
        || c.keywords.iter().any(|k| k.to_lowercase().contains("cup"))));
    press(&mut a, Key::Backspace);
    assert_eq!(a.card_search_query, "cu");
    press(&mut a, Key::Esc);
    assert!(!a.card_search_active);
    assert_eq!(a.card_search_query, "");
    assert_eq!(a.cards.len(), 78);
}

#[test]
fn moving_down_an_emptied_list_is_refused_after_one_step() {
    let mut a = app();
    a.menu_selected = Some(2);
    press(&mut a, Key::Enter);
    press(&mut a, Key::Char('/'));
    for c in "zzzz".chars() {
        press(&mut a, Key::Char(c));
    }
    assert!(a.cards.is_empty());
    assert_eq!(a.card_selected, None);
    press(&mut a, Key::Enter);
    press(&mut a, Key::Down);
    assert_eq!(a.card_selected, Some(0));
    assert!(a.selected_card.is_none());
    assert!(!a.accepts_key(Key::Down));
    assert!(a.accepts_key(Key::Up));
}

#[test]
fn a_reading_from_menu_to_save() {
    let mut a = App::new(Journal::with_base_path(String::from("/tmp/journal")));
    press(&mut a, Key::Enter);
    assert_eq!(a.screen, Screen::SpreadSelection);
    press(&mut a, Key::Down);
    press(&mut a, Key::Enter);
    assert_eq!(a.screen, Screen::ShuffleAnimation);
    assert_eq!(a.selected_spread.unwrap().name, "Three-Card Spread");
    for _ in 0..19 {
        a.on_tick();
        assert_eq!(a.screen, Screen::ShuffleAnimation);
    }
    a.on_tick();
    assert_eq!(a.screen, Screen::CardReveal);
    assert_eq!(a.reading.as_ref().unwrap().card_count(), 3);
    assert_eq!(a.deck.remaining(), 75);
    press(&mut a, Key::Char(' '));
    press(&mut a, Key::Right);
    assert_eq!(a.reveal_index, 2);
    press(&mut a, Key::Left);
    assert_eq!(a.reveal_index, 1);
    press(&mut a, Key::Enter);
    press(&mut a, Key::Enter);
    assert_eq!(a.screen, Screen::ReadingComplete);
    press(&mut a, Key::Char('s'));
    assert_eq!(a.screen, Screen::ReadingNotes);
    press(&mut a, Key::Char('h'));
    press(&mut a, Key::Char('i'));
    press(&mut a, Key::Char('!'));
    press(&mut a, Key::Backspace);
    assert_eq!(a.reading_notes, "hi");
    assert_eq!(press(&mut a, Key::Enter), Effect::SaveReading);
    let (name, content) = a.save_current_reading().unwrap();
    assert!(name.ends_with("-three-card-spread.md"));
    assert!(content.contains("## Notes\nhi\n"));
    assert_eq!(a.reading.as_ref().unwrap().notes.as_deref(), Some("hi"));
    let message = a.reading_written(Ok(String::from("/tmp/journal/x.md"))).unwrap();
    assert_eq!(message, "Saved to /tmp/journal/x.md");
    assert_eq!(a.screen, Screen::ReadingComplete);
    assert_eq!(a.reading_notes, "");
    press(&mut a, Key::Enter);
    assert_eq!(a.screen, Screen::Home);
    assert!(a.reading.is_none());
}

#[test]
fn saving_is_refused_without_reading_or_journal() {
    let mut a = app();
    assert_eq!(a.save_current_reading().unwrap_err().message(), "No reading to save");
    press(&mut a, Key::Enter);
    press(&mut a, Key::Enter);
    for _ in 0..20 {
        a.on_tick();
    }
    assert_eq!(a.screen, Screen::CardReveal);
    let err = a.save_current_reading().unwrap_err();
    assert!(err.message().starts_with("IO error: "));
}

#[test]
fn esc_during_shuffle_goes_home() {
    let mut a = app();
    press(&mut a, Key::Enter);
    press(&mut a, Key::Enter);
    a.on_tick();
    press(&mut a, Key::Esc);
    assert_eq!(a.screen, Screen::Home);
    assert!(a.reading.is_none());
    a.on_tick();
    assert_eq!(a.screen, Screen::Home);
}

#[test]
fn daily_card_screen() {
    let mut a = app();
    press(&mut a, Key::Down);
    press(&mut a, Key::Enter);
    assert_eq!(a.screen, Screen::DailyCard);
    assert!(a.daily_card.is_some());
    press(&mut a, Key::Char('q'));
    assert_eq!(a.screen, Screen::Home);
    assert!(a.daily_card.is_none());
}

fn entry(id: &str) -> JournalEntry {
    JournalEntry {
        id: String::from(id),
        timestamp: Timestamp {
            date: CalendarDate { year: 2024, month: 1, day: 2 },
            hour: 3,
            minute: 4,
            second: 5,
            unix_seconds: 0,
            nanosecond: 0,
        },
        spread_name: String::from("Single Card"),
        card_count: 1,
    }
}

#[test]
fn journal_list_and_detail() {
    let mut a = app();
    a.menu_selected = Some(3);
    press(&mut a, Key::Enter);
    assert_eq!(a.screen, Screen::Journal);
    assert_eq!(press(&mut a, Key::Enter), Effect::Nothing);
    a.load_journal_entries(Some(vec![entry("first"), entry("second")]));
    assert_eq!(a.journal_selected, Some(0));
    press(&mut a, Key::Up);
    assert_eq!(a.journal_selected, Some(1));
    assert_eq!(press(&mut a, Key::Enter), Effect::ViewJournalEntry(String::from("second")));
    a.view_journal_entry(String::from("# text"));
    assert_eq!(a.screen, Screen::JournalDetail);
    let (e, text) = a.selected_journal_entry.as_ref().unwrap();
    assert_eq!(e.id, "second");
    assert_eq!(text, "# text");
    press(&mut a, Key::Esc);
    assert_eq!(a.screen, Screen::Journal);
    assert!(a.selected_journal_entry.is_none());
    a.load_journal_entries(None);
    assert_eq!(a.journal_entries.len(), 2);
}

#[test]
fn help_screen_and_back() {
    let mut a = app();
    a.menu_selected = Some(4);
    press(&mut a, Key::Enter);
    assert_eq!(a.screen, Screen::Help);
    press(&mut a, Key::Char('x'));
    assert_eq!(a.screen, Screen::Help);
    press(&mut a, Key::Enter);
    assert_eq!(a.screen, Screen::Home);
}

#[test]
fn app_theme_suit_colors() {
    let t = AppTheme::default();
    assert_eq!(t.mauve, Rgb { r: 203, g: 166, b: 247 });
    assert_eq!(t.suit_color(Suit::Cups), t.pink);
    assert_eq!(t.suit_color(Suit::Pentacles), t.green);
}
