use arcana::cards::{ArcanaType, Suit};
use arcana::deck::utils;
use arcana::deck::Deck;
use arcana::timestamp::CalendarDate;

#[test]
fn test_deck_creation() {
    let deck = Deck::new_ordered();
    assert_eq!(deck.total_cards(), 78);
    assert_eq!(deck.remaining(), 78);
    assert_eq!(deck.drawn(), 0);
}

#[test]
fn test_draw() {
    let mut deck = Deck::new_ordered();
    let drawn = deck.draw().unwrap();
    assert_eq!(deck.remaining(), 77);
    assert_eq!(deck.drawn(), 1);
    // First card in ordered deck is The Fool (index 0)
    assert_eq!(drawn.card.name, "The Fool");
}

#[test]
fn test_draw_many() {
    let mut deck = Deck::new_ordered();
    let drawn = deck.draw_many(5);
    assert_eq!(drawn.len(), 5);
    assert_eq!(deck.remaining(), 73);
}

#[test]
fn test_deck_empty() {
    let mut deck = Deck::new_ordered();
    // Draw all cards
    for _ in 0..78 {
        assert!(deck.draw().is_some());
    }
    assert!(deck.is_empty());
    assert!(deck.draw().is_none());
}

#[test]
fn test_reset() {
    let mut deck = Deck::new_ordered();
    deck.draw_many(10);
    assert_eq!(deck.remaining(), 68);
    deck.reset();
    assert_eq!(deck.remaining(), 78);
    assert_eq!(deck.drawn(), 0);
}

#[test]
fn test_major_arcana_only() {
    let deck = Deck::new_major_arcana_only();
    assert_eq!(deck.total_cards(), 22);
}

#[test]
fn test_get_card() {
    assert_eq!(Deck::get_card(0).unwrap().name, "The Fool");
    assert_eq!(Deck::get_card(21).unwrap().name, "The World");
    assert_eq!(Deck::get_card(22).unwrap().name, "Ace of Wands");
    assert_eq!(Deck::get_card(77).unwrap().name, "King of Pentacles");
    assert!(Deck::get_card(78).is_none());
}

#[test]
fn test_search_by_name() {
    let results = Deck::search_by_name("fool");
    assert_eq!(results.len(), 1);
    assert_eq!(results[0].name, "The Fool");

    let results = Deck::search_by_name("king");
    assert_eq!(results.len(), 4); // King of each suit
}

#[test]
fn test_find_by_name() {
    assert_eq!(Deck::find_by_name("The Fool").unwrap().number, 0);
    assert_eq!(Deck::find_by_name("the fool").unwrap().number, 0);
    assert_eq!(Deck::find_by_name("King of Cups").unwrap().suit, Some(Suit::Cups));
    assert!(Deck::find_by_name("Not a Card").is_none());
}

#[test]
fn test_shuffle() {
    let mut deck = Deck::new_ordered();
    let before: Vec<usize> = deck.cards().clone();
    deck.shuffle();
    // Very unlikely to be in the same order after shuffling
    // (though technically possible, probability is 1/78!)
    assert_ne!(*deck.cards(), before);
    assert_eq!(deck.drawn(), 0);
}

#[test]
fn test_reversal_probability() {
    let mut deck = Deck::new();
    deck.set_reversal_probability(1000);

    // Draw many cards, all should be reversed
    let drawn = deck.draw_many(10);
    assert!(drawn.iter().all(|c| c.reversed));

    let mut deck = Deck::new();
    deck.set_reversal_probability(0);

    // Draw many cards, none should be reversed
    let drawn = deck.draw_many(10);
    assert!(drawn.iter().all(|c| !c.reversed));
}

#[test]
fn test_related_cards() {
    // Major Arcana: The Magician (1) opposes Judgement (20)
    let magician = Deck::find_by_name("The Magician").unwrap();
    let related = Deck::related_cards(&magician);
    // Same number includes all Aces
    assert!(!related.same_number.is_empty());
    assert!(related.same_number.iter().any(|c| c.name == "Ace of Wands"));
    assert_eq!(related.opposing.unwrap().name, "Judgement");

    // Minor Arcana: Six of Wands opposes Six of Cups
    let six_wands = Deck::find_by_name("Six of Wands").unwrap();
    let related2 = Deck::related_cards(&six_wands);
    assert_eq!(related2.opposing.unwrap().name, "Six of Cups");
    assert!(related2.same_number.iter().any(|c| c.name == "Six of Cups"));
    assert!(related2.same_number.iter().any(|c| c.name == "The Lovers"));

    // The Fool (0) has no same-number cards, opposes The World (21)
    let fool = Deck::find_by_name("The Fool").unwrap();
    let related3 = Deck::related_cards(&fool);
    assert!(related3.same_number.is_empty());
    assert_eq!(related3.opposing.unwrap().name, "The World");
}

#[test]
fn test_utils() {
    assert_eq!(utils::major_arcana().len(), 22);
    assert_eq!(utils::minor_arcana().len(), 56);
    assert_eq!(utils::by_arcana_type(ArcanaType::Major).len(), 22);
    assert_eq!(utils::by_arcana_type(ArcanaType::Minor).len(), 56);
    assert_eq!(utils::by_suit(Suit::Wands).len(), 14);
}

#[test]
fn full_shuffled_deck_draws_every_card_once() {
    let mut deck = Deck::new();
    let drawn = deck.draw_many(78);
    assert_eq!(drawn.len(), 78);
    let mut names: Vec<&str> = drawn.iter().map(|d| d.card.name).collect();
    names.sort();
    names.dedup();
    assert_eq!(names.len(), 78);
    assert!(deck.is_empty());
    assert!(deck.draw_many(3).is_empty());
}

#[test]
fn draw_many_stops_when_the_deck_runs_out() {
    let mut deck = Deck::new_major_arcana_only();
    let drawn = deck.draw_many(30);
    assert_eq!(drawn.len(), 22);
    assert!(drawn.iter().all(|d| d.card.arcana == ArcanaType::Major));
}

#[test]
fn reversals_can_be_turned_off() {
    let mut deck = Deck::new();
    deck.set_reversal_probability(1000);
    deck.set_allow_reversals(false);
    assert!(deck.draw_many(20).iter().all(|d| !d.reversed));
}

#[test]
fn reversal_chance_is_clamped() {
    let mut deck = Deck::new();
    deck.set_reversal_probability(5000);
    assert!(deck.draw_many(10).iter().all(|d| d.reversed));
}

#[test]
fn reset_and_shuffle_keeps_all_cards() {
    let mut deck = Deck::new();
    deck.draw_many(40);
    deck.reset_and_shuffle();
    assert_eq!(deck.remaining(), 78);
    let mut order = deck.cards().clone();
    order.sort();
    assert_eq!(order, (0..78).collect::<Vec<usize>>());
}

#[test]
fn daily_card_depends_on_the_date_alone() {
    let date = CalendarDate { year: 2024, month: 3, day: 15 };
    let a = Deck::daily_card(date);
    let b = Deck::daily_card(date);
    assert_eq!(a.card.name, b.card.name);
    assert_eq!(a.reversed, b.reversed);
}

#[test]
fn daily_card_from_hash_picks_by_remainder() {
    // 214748364891 = 50 * 2^32 + 91: card 21, and 50 % 100 is not below 15
    let d = Deck::daily_card_from_hash(214748364891);
    assert_eq!(d.card.name, "The World");
    assert!(!d.reversed);
    // 78 + 22: card 22, and 0 % 100 is below 15
    let r = Deck::daily_card_from_hash(78 + 22);
    assert_eq!(r.card.name, "Ace of Wands");
    assert!(r.reversed);
}

#[test]
fn suit_cards_come_in_rank_order() {
    let cups = utils::by_suit(Suit::Cups);
    assert_eq!(cups[0].name, "Ace of Cups");
    assert_eq!(cups[13].name, "King of Cups");
    assert!(cups.iter().all(|c| c.suit == Some(Suit::Cups)));
}

#[test]
fn related_cards_of_the_same_suit() {
    let six_wands = Deck::find_by_name("Six of Wands").unwrap();
    let related = Deck::related_cards(&six_wands);
    assert_eq!(related.same_suit.len(), 13);
    assert!(related.same_suit.iter().all(|c| c.suit == Some(Suit::Wands)));
    assert!(related.same_suit.iter().all(|c| c.name != "Six of Wands"));
    let fool = Deck::find_by_name("The Fool").unwrap();
    assert!(Deck::related_cards(&fool).same_suit.is_empty());
}

#[test]
fn reversal_ratio_follows_the_settings() {
    let mut deck = Deck::new_ordered();
    deck.set_reversal_probability(250);
    assert_eq!(deck.reversal_ratio(), (250, 1000));
    deck.set_allow_reversals(false);
    assert_eq!(deck.reversal_ratio(), (0, 1000));
}

#[test]
fn cloned_and_default_decks() {
    let mut deck = Deck::new_ordered();
    deck.draw_many(5);
    let copy = deck.clone();
    assert_eq!(copy.remaining(), 73);
    assert_eq!(copy.cards(), deck.cards());
    let fresh = Deck::default();
    assert_eq!(fresh.remaining(), 78);
}
