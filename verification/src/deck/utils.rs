//! Utility functions for working with cards

use vstd::prelude::*;

use crate::cards::{ArcanaType, Card, Suit};
use crate::deck::{
    cards_at, deck_arcana, deck_card, deck_positions, deck_suit, lemma_positions_all,
    lemma_positions_step, positions_where, MAJOR_COUNT, TOTAL_CARDS,
};

verus! {

/// The indices from `start` (inclusive) to `end` (exclusive).
pub open spec fn index_range(start: int, end: int) -> Seq<int> {
    Seq::new((end - start) as nat, |k: int| start + k)
}

/// The cards of the given arcana.
pub open spec fn arcana_pred(arcana: ArcanaType) -> spec_fn(int) -> bool {
    |i: int| deck_arcana(i) == arcana
}

/// The cards of the given suit.
pub open spec fn suit_pred(suit: Suit) -> spec_fn(int) -> bool {
    |i: int| deck_suit(i) == Some(suit)
}

fn cards_between(start: usize, end: usize) -> (v: Vec<Card>)
    requires
        start <= end <= 78,
    ensures
        cards_at(v@, index_range(start as int, end as int)),
{
    let mut v: Vec<Card> = Vec::new();
    let mut i: usize = start;
    while i < end
        invariant
            start <= i <= end <= 78,
            cards_at(v@, index_range(start as int, i as int)),
        decreases end - i,
    {
        v.push(deck_card(i));
        i = i + 1;
    }
    v
}

/// Get all Major Arcana cards
pub fn major_arcana() -> (v: Vec<Card>)
    ensures
        cards_at(v@, index_range(0, 22)),
{
    cards_between(0, MAJOR_COUNT)
}

/// Get all Minor Arcana cards
pub fn minor_arcana() -> (v: Vec<Card>)
    ensures
        cards_at(v@, index_range(22, 78)),
{
    cards_between(MAJOR_COUNT, TOTAL_CARDS)
}

/// Get cards by arcana type
pub fn by_arcana_type(arcana: ArcanaType) -> (v: Vec<Card>)
    ensures
        cards_at(v@, deck_positions().filter(arcana_pred(arcana))),
{
    let ghost pred = arcana_pred(arcana);
    let mut v: Vec<Card> = Vec::new();
    let mut i: usize = 0;
    while i < TOTAL_CARDS
        invariant
            i <= 78,
            pred == arcana_pred(arcana),
            cards_at(v@, positions_where(pred, i as int)),
        decreases 78 - i,
    {
        let c = deck_card(i);
        proof {
            lemma_positions_step(pred, i as int);
        }
        if c.arcana == arcana {
            v.push(c);
        }
        i = i + 1;
    }
    proof {
        lemma_positions_all(pred);
    }
    v
}

/// Get cards by suit
pub fn by_suit(suit: Suit) -> (v: Vec<Card>)
    ensures
        cards_at(v@, deck_positions().filter(suit_pred(suit))),
{
    let ghost pred = suit_pred(suit);
    let mut v: Vec<Card> = Vec::new();
    let mut i: usize = 0;
    while i < TOTAL_CARDS
        invariant
            i <= 78,
            pred == suit_pred(suit),
            cards_at(v@, positions_where(pred, i as int)),
        decreases 78 - i,
    {
        let c = deck_card(i);
        proof {
            lemma_positions_step(pred, i as int);
        }
        let same_suit = match c.suit {
            Some(s) => s == suit,
            None => false,
        };
        if same_suit {
            v.push(c);
        }
        i = i + 1;
    }
    proof {
        lemma_positions_all(pred);
    }
    v
}

} // verus!
