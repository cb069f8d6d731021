//! The 78-card deck: the fixed order of the cards, shuffling, drawing with
//! reversals, the daily card, and lookups by name.

pub mod laws;
pub mod utils;

use rand::seq::SliceRandom;
use rand::Rng;
use std::collections::hash_map::DefaultHasher;
use std::hash::Hasher;
use vstd::prelude::*;
use vstd::std_specs::hash::DefaultHasherAdditionalSpecFns;

use crate::cards::major::{major_card, major_card_of, major_name};
use crate::cards::minor::{minor_card, minor_card_of, minor_name, minor_number, minor_suit};
use crate::cards::{ArcanaType, Card, DrawnCard, Suit};
use crate::text::{contains_chars, is_substring, lowercase_chars, same_chars, same_text, lowercase};
use crate::timestamp::{chrono_text, date_pattern, CalendarDate};

verus! {

broadcast use vstd::seq_lib::group_to_multiset_ensures;

/// The number of cards in the full deck.
pub const TOTAL_CARDS: usize = 78;

/// The number of Major Arcana cards; they come first in the deck.
pub const MAJOR_COUNT: usize = 22;

/// The default chance of a reversal, in thousandths (15%).
pub const DEFAULT_REVERSAL_PER_MILLE: u32 = 150;

/// The name of the card at index `i` of the full deck.
pub open spec fn deck_name(i: int) -> &'static str {
    if i < 22 {
        major_name(i as u8)
    } else {
        minor_name((i - 22) as u8)
    }
}

/// The arcana of the card at index `i`: the first 22 are Major.
pub open spec fn deck_arcana(i: int) -> ArcanaType {
    if i < 22 {
        ArcanaType::Major
    } else {
        ArcanaType::Minor
    }
}

/// The suit of the card at index `i`: none for the Major Arcana.
pub open spec fn deck_suit(i: int) -> Option<Suit> {
    if i < 22 {
        None
    } else {
        Some(minor_suit(i - 22))
    }
}

/// The number of the card at index `i`: 0 to 21 for the Major Arcana, 1 to 14 in each suit.
pub open spec fn deck_number(i: int) -> int {
    if i < 22 {
        i
    } else {
        minor_number(i - 22)
    }
}

/// The card at index `i` of the full deck, with all its data: the Major
/// Arcana first, then the Minor Arcana.
pub open spec fn deck_card_of(i: int) -> Card {
    if i < 22 {
        major_card_of(i as u8)
    } else {
        minor_card_of((i - 22) as u8)
    }
}

/// `c` is the card at index `i` of the full deck: that card with all its data,
/// whose name, arcana, suit and number are the deck's at `i`.
pub open spec fn is_card_at(c: Card, i: int) -> bool {
    &&& 0 <= i < 78
    &&& c == deck_card_of(i)
    &&& c.name == deck_name(i)
    &&& c.arcana == deck_arcana(i)
    &&& c.suit == deck_suit(i)
    &&& c.number == deck_number(i)
}

/// The indices of the full deck, 0 to 77.
pub open spec fn deck_positions() -> Seq<int> {
    Seq::new(78, |i: int| i)
}

/// `v` holds, in order, the cards of the full deck at `positions`.
pub open spec fn cards_at(v: Seq<Card>, positions: Seq<int>) -> bool {
    &&& v.len() == positions.len()
    &&& forall|k: int| 0 <= k < v.len() ==> is_card_at(#[trigger] v[k], positions[k])
}

/// The first `k` indices of the deck that satisfy `pred`.
pub open spec fn positions_where(pred: spec_fn(int) -> bool, k: int) -> Seq<int> {
    deck_positions().take(k).filter(pred)
}

/// The lowercase of the name of card `i` contains the lowercase of `query`.
pub open spec fn name_contains(i: int, query: Seq<char>) -> bool {
    is_substring(lowercase(query), lowercase(deck_name(i)@))
}

/// The cards whose name contains a query, ignoring case.
pub open spec fn name_contains_pred(query: Seq<char>) -> spec_fn(int) -> bool {
    |i: int| name_contains(i, query)
}

/// The lowercase of the name of card `i` equals the lowercase of `name`.
pub open spec fn name_equals(i: int, name: Seq<char>) -> bool {
    lowercase(deck_name(i)@) == lowercase(name)
}

/// The cards, other than `card` by name, that share its number.
pub open spec fn same_number_pred(card: Card) -> spec_fn(int) -> bool {
    |i: int| deck_number(i) == card.number && deck_name(i)@ != card.name@
}

/// The cards, other than `card` by name, of its suit; none for a card
/// without a suit.
pub open spec fn same_suit_pred(card: Card) -> spec_fn(int) -> bool {
    |i: int| card.suit is Some && deck_suit(i) == card.suit && deck_name(i)@ != card.name@
}

/// The suit paired against each suit: Wands with Cups, Swords with Pentacles.
pub open spec fn opposite_suit(s: Suit) -> Suit {
    match s {
        Suit::Wands => Suit::Cups,
        Suit::Cups => Suit::Wands,
        Suit::Swords => Suit::Pentacles,
        Suit::Pentacles => Suit::Swords,
    }
}

/// The place of a suit among the Minor Arcana: Wands first, Pentacles last.
pub open spec fn suit_index(s: Suit) -> int {
    match s {
        Suit::Wands => 0,
        Suit::Cups => 1,
        Suit::Swords => 2,
        Suit::Pentacles => 3,
    }
}

/// The deck index of the card opposing `card`: for the Major Arcana the card
/// numbered 21 minus its number; for a suited card the card of the same number
/// in the opposite suit; none otherwise.
pub open spec fn opposing_index(card: Card) -> Option<int> {
    if card.arcana == ArcanaType::Major {
        Some(21 - card.number)
    } else {
        match card.suit {
            Some(s) => if 1 <= card.number <= 14 {
                Some(22 + suit_index(opposite_suit(s)) * 14 + card.number - 1)
            } else {
                None
            },
            None => None,
        }
    }
}

/// One more index considered by a scan of the deck in order.
pub proof fn lemma_positions_step(pred: spec_fn(int) -> bool, k: int)
    requires
        0 <= k < 78,
    ensures
        positions_where(pred, k + 1) == if pred(k) {
            positions_where(pred, k).push(k)
        } else {
            positions_where(pred, k)
        },
{
    assert(deck_positions().take(k + 1) =~= deck_positions().take(k).push(k));
    deck_positions().take(k).lemma_filter_push(k, pred);
}

/// A scan of the whole deck considers every index.
pub proof fn lemma_positions_all(pred: spec_fn(int) -> bool)
    ensures
        positions_where(pred, 78) == deck_positions().filter(pred),
{
    assert(deck_positions().take(78) =~= deck_positions());
}

/// Cards related to a given card
pub struct RelatedCards {
    pub same_number: Vec<Card>,
    pub same_suit: Vec<Card>,
    pub opposing: Option<Card>,
}

/// The card at index `i` of the full deck.
pub fn deck_card(i: usize) -> (c: Card)
    requires
        i < 78,
    ensures
        is_card_at(c, i as int),
{
    if i < MAJOR_COUNT {
        major_card(i as u8)
    } else {
        minor_card((i - MAJOR_COUNT) as u8)
    }
}

/// The abstract state of a deck: the order of card indices, how many have been
/// drawn, the reversal settings, and whether the order came out of the random
/// shuffle (rather than being left in deck order).
pub ghost struct DeckView {
    pub order: Seq<usize>,
    pub position: nat,
    pub allow_reversals: bool,
    pub reversal_per_mille: nat,
    pub shuffled: bool,
}

impl DeckView {
    /// The order is a permutation of 0..n for some n up to 78, at most all of it
    /// has been drawn, and the reversal chance is at most 1000 thousandths.
    pub open spec fn wf(self) -> bool {
        &&& self.position <= self.order.len()
        &&& self.order.len() <= 78
        &&& self.order.no_duplicates()
        &&& forall|i: int| 0 <= i < self.order.len() ==> #[trigger] self.order[i] < self.order.len()
        &&& self.reversal_per_mille <= 1000
    }

    /// The number of cards not yet drawn.
    pub open spec fn remaining(self) -> nat {
        (self.order.len() - self.position) as nat
    }

    /// The chance of a reversal as the ratio handed to the random draw: the
    /// per-mille chance out of 1000 when reversals are on, 0 out of 1000 when
    /// they are off.
    pub open spec fn reversal_ratio_of(self) -> (nat, nat) {
        if self.allow_reversals {
            (self.reversal_per_mille, 1000)
        } else {
            (0, 1000)
        }
    }

    /// What may be said of a reversal drawn at random with this deck's ratio:
    /// never at a zero ratio, always at a ratio of one; in between the random
    /// draw decides.
    pub open spec fn reversal_ok(self, reversed: bool) -> bool {
        &&& self.reversal_ratio_of().0 == 0 ==> !reversed
        &&& self.reversal_ratio_of().0 == self.reversal_ratio_of().1 ==> reversed
    }

    /// The same deck with `n` more cards drawn.
    pub open spec fn advanced(self, n: nat) -> DeckView {
        DeckView { position: self.position + n, ..self }
    }
}

/// `drawn` is what drawing `count` cards from a deck gives: as many as the
/// deck has left, up to `count`, the next cards of its order, each reversed
/// only as the deck's settings allow.
pub open spec fn drawn_from(d: DeckView, count: nat, drawn: Seq<DrawnCard>) -> bool {
    &&& drawn.len() == (if count <= d.remaining() {
        count
    } else {
        d.remaining()
    })
    &&& forall|k: int|
        0 <= k < drawn.len() ==> {
            &&& is_card_at(#[trigger] drawn[k].card, d.order[d.position + k] as int)
            &&& d.reversal_ok(drawn[k].reversed)
            &&& drawn[k].position is None
        }
}


/// The order 0, 1, ..., n - 1.
pub open spec fn identity_order(n: nat) -> Seq<usize> {
    Seq::new(n, |i: int| i as usize)
}

/// A complete 78-card tarot deck with shuffle, draw, and reversal capabilities
#[derive(Debug)]
pub struct Deck {
    /// Indices into the full deck, in current order
    cards: Vec<usize>,
    /// Position of the next card to draw
    position: usize,
    /// Whether to include reversals in draws
    allow_reversals: bool,
    /// Chance of a reversal, in thousandths (0 to 1000)
    reversal_per_mille: u32,
    /// Whether the order came out of the random shuffle
    shuffled: bool,
}

impl View for Deck {
    type V = DeckView;

    closed spec fn view(&self) -> DeckView {
        DeckView {
            order: self.cards@,
            position: self.position as nat,
            allow_reversals: self.allow_reversals,
            reversal_per_mille: self.reversal_per_mille as nat,
            shuffled: self.shuffled,
        }
    }
}

/// A permutation of a permutation of 0..n is a permutation of 0..n.
proof fn lemma_permutation_stays_wf(a: Seq<usize>, b: Seq<usize>)
    requires
        a.to_multiset() == b.to_multiset(),
        a.no_duplicates(),
        forall|i: int| 0 <= i < a.len() ==> #[trigger] a[i] < a.len(),
    ensures
        b.len() == a.len(),
        b.no_duplicates(),
        forall|i: int| 0 <= i < b.len() ==> #[trigger] b[i] < b.len(),
{
    vstd::seq_lib::to_multiset_len(a);
    vstd::seq_lib::to_multiset_len(b);
    a.lemma_multiset_has_no_duplicates();
    b.lemma_multiset_has_no_duplicates_conv();
    assert forall|i: int| 0 <= i < b.len() implies #[trigger] b[i] < b.len() by {
        assert(b.contains(b[i]));
        vstd::seq_lib::to_multiset_contains(b, b[i]);
        vstd::seq_lib::to_multiset_contains(a, b[i]);
        assert(b.to_multiset().count(b[i]) > 0);
        assert(a.to_multiset().count(b[i]) > 0);
        assert(a.contains(b[i]));
        let j = choose|j: int| 0 <= j < a.len() && a[j] == b[i];
        assert(a[j] < a.len());
    }
}

/// rand's `SliceRandom::shuffle` with the thread-local generator
/// (`rand::thread_rng()`): a pass of swaps, so the vector ends up holding a
/// permutation of what it held. Which permutation comes out is random.
#[verifier::external_body]
fn shuffle_indices(v: &mut Vec<usize>)
    ensures
        final(v)@.to_multiset() == old(v)@.to_multiset(),
{
    v.shuffle(&mut rand::thread_rng());
}

/// rand's `Rng::gen_ratio(numerator, denominator)` with the thread-local
/// generator: `true` with chance numerator/denominator. rand documents that
/// the result is always `false` for a zero numerator and always `true` when
/// numerator equals denominator; otherwise it is random. It panics on a zero
/// denominator or a numerator above the denominator, which `requires` rules out.
#[verifier::external_body]
fn random_ratio(numerator: u32, denominator: u32) -> (b: bool)
    requires
        0 < denominator,
        numerator <= denominator,
    ensures
        numerator == 0 ==> !b,
        numerator == denominator ==> b,
{
    rand::thread_rng().gen_ratio(numerator, denominator)
}

/// The index of the daily card for a hash value.
pub open spec fn daily_index(hash: u64) -> int {
    (hash % 78) as int
}

/// Whether the daily card for a hash value is reversed: 15 chances in 100.
pub open spec fn daily_reversed(hash: u64) -> bool {
    (hash >> 32u64) % 100 < 15
}

/// The hash `DefaultHasher::new()` gives a string through `String`'s `Hash`:
/// the UTF-8 bytes of the text, then the byte 0xff.
pub open spec fn text_hash(text: Seq<char>) -> u64 {
    DefaultHasher::spec_finish(seq![vstd::utf8::encode_utf8(text), seq![0xffu8]])
}

/// The hash of a date's year-month-day text.
pub open spec fn date_hash(date: CalendarDate) -> u64 {
    text_hash(
        chrono_text(date.year as int, date.month as int, date.day as int, 0, 0, 0, date_pattern()),
    )
}

fn ordered_indices(n: usize) -> (v: Vec<usize>)
    requires
        n <= 78,
    ensures
        v@ == identity_order(n as nat),
{
    let mut v: Vec<usize> = Vec::new();
    let mut i: usize = 0;
    while i < n
        invariant
            i <= n,
            v@ == identity_order(i as nat),
        decreases n - i,
    {
        v.push(i);
        i = i + 1;
        assert(v@ =~= identity_order(i as nat));
    }
    v
}

proof fn lemma_identity_order_wf(n: nat)
    requires
        n <= 78,
    ensures
        identity_order(n).no_duplicates(),
        forall|i: int| 0 <= i < n ==> #[trigger] identity_order(n)[i] < n,
{
    let s = identity_order(n);
    assert forall|i: int, j: int| 0 <= i < s.len() && 0 <= j < s.len() && i != j implies s[i] != s[j] by {
        assert(s[i] as int == i);
        assert(s[j] as int == j);
    }
}

impl Clone for Deck {
    /// A copy of the deck: the same order, position and reversal settings.
    fn clone(&self) -> (d: Deck)
        ensures
            d@ == self@,
    {
        proof {
            use_type_invariant(self);
        }
        let mut cards: Vec<usize> = Vec::new();
        let mut i: usize = 0;
        while i < self.cards.len()
            invariant
                i <= self.cards@.len(),
                cards@ == self.cards@.take(i as int),
            decreases self.cards@.len() - i,
        {
            cards.push(self.cards[i]);
            i = i + 1;
            assert(cards@ =~= self.cards@.take(i as int));
        }
        assert(cards@ =~= self.cards@);
        Deck {
            cards,
            position: self.position,
            allow_reversals: self.allow_reversals,
            reversal_per_mille: self.reversal_per_mille,
            shuffled: self.shuffled,
        }
    }
}

impl Default for Deck {
    /// A full deck, shuffled, as `Deck::new` makes it.
    fn default() -> (d: Deck)
        ensures
            d@.shuffled,
            d@.order.to_multiset() == identity_order(78).to_multiset(),
            d@.order.len() == 78,
            d@.position == 0,
            d@.allow_reversals,
            d@.reversal_per_mille == DEFAULT_REVERSAL_PER_MILLE,
            d@.wf(),
    {
        Deck::new()
    }
}

impl Deck {
    #[verifier::type_invariant]
    closed spec fn inv(self) -> bool {
        self@.wf()
    }

    fn from_order(n: usize) -> (d: Deck)
        requires
            n <= 78,
        ensures
            d@.order == identity_order(n as nat),
            d@.position == 0,
            d@.allow_reversals,
            d@.reversal_per_mille == DEFAULT_REVERSAL_PER_MILLE,
            !d@.shuffled,
            d@.wf(),
    {
        let cards = ordered_indices(n);
        proof {
            lemma_identity_order_wf(n as nat);
        }
        Deck {
            cards,
            position: 0,
            allow_reversals: true,
            reversal_per_mille: DEFAULT_REVERSAL_PER_MILLE,
            shuffled: false,
        }
    }

    /// Create a new deck with all 78 cards, shuffled
    pub fn new() -> (d: Deck)
        ensures
            d@.shuffled,
            d@.order.to_multiset() == identity_order(78).to_multiset(),
            d@.order.len() == 78,
            d@.position == 0,
            d@.allow_reversals,
            d@.reversal_per_mille == DEFAULT_REVERSAL_PER_MILLE,
            d@.wf(),
    {
        let mut deck = Self::from_order(TOTAL_CARDS);
        deck.shuffle();
        deck
    }

    /// Create a Major Arcana only deck (22 cards), shuffled
    pub fn new_major_arcana_only() -> (d: Deck)
        ensures
            d@.shuffled,
            d@.order.to_multiset() == identity_order(22).to_multiset(),
            d@.order.len() == 22,
            d@.position == 0,
            d@.allow_reversals,
            d@.reversal_per_mille == DEFAULT_REVERSAL_PER_MILLE,
            d@.wf(),
    {
        let mut deck = Self::from_order(MAJOR_COUNT);
        deck.shuffle();
        deck
    }

    /// Create a new deck without shuffling: the cards in deck order
    pub fn new_ordered() -> (d: Deck)
        ensures
            d@.order == identity_order(78),
            d@.position == 0,
            d@.allow_reversals,
            d@.reversal_per_mille == DEFAULT_REVERSAL_PER_MILLE,
            !d@.shuffled,
            d@.wf(),
    {
        Self::from_order(TOTAL_CARDS)
    }

    /// Get a card by its index in the combined deck
    pub fn get_card(index: usize) -> (r: Option<Card>)
        ensures
            r is Some <==> index < 78,
            r matches Some(c) ==> is_card_at(c, index as int),
    {
        if index < MAJOR_COUNT {
            Some(major_card(index as u8))
        } else if index < TOTAL_CARDS {
            Some(minor_card((index - MAJOR_COUNT) as u8))
        } else {
            None
        }
    }

    /// All 78 cards in deck order
    pub fn iter_all_cards() -> (v: Vec<Card>)
        ensures
            v@.len() == 78,
            forall|i: int| 0 <= i < 78 ==> is_card_at(#[trigger] v@[i], i),
    {
        let mut v: Vec<Card> = Vec::new();
        let mut i: usize = 0;
        while i < TOTAL_CARDS
            invariant
                i <= 78,
                v@.len() == i,
                forall|k: int| 0 <= k < i ==> is_card_at(#[trigger] v@[k], k),
            decreases 78 - i,
        {
            v.push(deck_card(i));
            i = i + 1;
        }
        v
    }

    /// Get the total number of cards
    pub fn total_cards(&self) -> (n: usize)
        ensures
            n == self@.order.len(),
    {
        self.cards.len()
    }

    /// Get the number of cards remaining in the deck
    pub fn remaining(&self) -> (n: usize)
        ensures
            n == self@.remaining(),
    {
        proof {
            use_type_invariant(self);
        }
        self.cards.len() - self.position
    }

    /// The deck's order: the indices of its cards in the full deck, first drawn first
    pub fn cards(&self) -> (r: &Vec<usize>)
        ensures
            r@ == self@.order,
    {
        &self.cards
    }

    /// Get the number of cards already drawn
    pub fn drawn(&self) -> (n: usize)
        ensures
            n == self@.position,
    {
        self.position
    }

    /// Check if the deck is empty
    pub fn is_empty(&self) -> (b: bool)
        ensures
            b == (self@.remaining() == 0),
    {
        self.remaining() == 0
    }

    /// Enable or disable reversals
    pub fn set_allow_reversals(&mut self, allow: bool)
        ensures
            final(self)@ == (DeckView { allow_reversals: allow, ..old(self)@ }),
    {
        proof {
            use_type_invariant(&*self);
        }
        self.allow_reversals = allow;
    }

    /// Set the chance of a reversal in thousandths, clamped to 0..=1000
    pub fn set_reversal_probability(&mut self, per_mille: u32)
        ensures
            final(self)@ == (DeckView {
                reversal_per_mille: if per_mille > 1000 {
                    1000
                } else {
                    per_mille as nat
                },
                ..old(self)@
            }),
    {
        proof {
            use_type_invariant(&*self);
        }
        self.reversal_per_mille = if per_mille > 1000 {
            1000
        } else {
            per_mille
        };
    }

    /// Shuffle the deck, resetting the position to 0
    pub fn shuffle(&mut self)
        ensures
            final(self)@.order.to_multiset() == old(self)@.order.to_multiset(),
            final(self)@.order.len() == old(self)@.order.len(),
            final(self)@.position == 0,
            final(self)@.allow_reversals == old(self)@.allow_reversals,
            final(self)@.reversal_per_mille == old(self)@.reversal_per_mille,
            final(self)@.shuffled,
            final(self)@.wf(),
    {
        proof {
            use_type_invariant(&*self);
        }
        let ghost before = self.cards@;
        self.position = 0;
        let mut cards: Vec<usize> = Vec::new();
        std::mem::swap(&mut cards, &mut self.cards);
        shuffle_indices(&mut cards);
        proof {
            lemma_permutation_stays_wf(before, cards@);
        }
        self.cards = cards;
        self.shuffled = true;
    }

    /// The chance of a reversal as a ratio: the per-mille chance out of 1000
    /// when reversals are on, 0 out of 1000 when they are off
    pub fn reversal_ratio(&self) -> (r: (u32, u32))
        ensures
            r.0 as nat == self@.reversal_ratio_of().0,
            r.1 as nat == self@.reversal_ratio_of().1,
            r.0 <= r.1,
    {
        proof {
            use_type_invariant(self);
        }
        if self.allow_reversals {
            (self.reversal_per_mille, 1000)
        } else {
            (0, 1000)
        }
    }

    /// Determine if a card should be reversed: a random draw at the deck's
    /// reversal ratio
    fn should_reverse(&self) -> (b: bool)
        ensures
            self@.reversal_ok(b),
    {
        let r = self.reversal_ratio();
        random_ratio(r.0, r.1)
    }

    /// Draw a single card from the deck, reversed at random at the deck's
    /// reversal ratio (`reversal_ratio`)
    pub fn draw(&mut self) -> (r: Option<DrawnCard>)
        ensures
            old(self)@.remaining() == 0 ==> r is None && final(self)@ == old(self)@,
            old(self)@.remaining() > 0 ==> {
                &&& r matches Some(d)
                &&& is_card_at(d.card, old(self)@.order[old(self)@.position as int] as int)
                &&& old(self)@.reversal_ok(d.reversed)
                &&& d.position is None
                &&& final(self)@ == old(self)@.advanced(1)
            },
            final(self)@.wf(),
    {
        proof {
            use_type_invariant(&*self);
        }
        if self.is_empty() {
            return None;
        }
        let card_index = self.cards[self.position];
        self.position = self.position + 1;
        let reversed = self.should_reverse();
        match Self::get_card(card_index) {
            Some(card) => Some(DrawnCard::new(card, reversed)),
            None => None,
        }
    }

    /// Draw up to `count` cards from the deck, stopping when it runs out
    pub fn draw_many(&mut self, count: usize) -> (r: Vec<DrawnCard>)
        ensures
            r@.len() == if count <= old(self)@.remaining() {
                count as nat
            } else {
                old(self)@.remaining()
            },
            forall|k: int|
                0 <= k < r@.len() ==> {
                    &&& is_card_at(
                        #[trigger] r@[k].card,
                        old(self)@.order[old(self)@.position + k] as int,
                    )
                    &&& old(self)@.reversal_ok(r@[k].reversed)
                    &&& r@[k].position is None
                },
            final(self)@ == old(self)@.advanced(r@.len()),
            final(self)@.wf(),
    {
        proof {
            use_type_invariant(&*self);
        }
        let ghost start = self@;
        let n = if count <= self.remaining() {
            count
        } else {
            self.remaining()
        };
        let mut drawn: Vec<DrawnCard> = Vec::new();
        let mut i: usize = 0;
        while i < n
            invariant
                i <= n,
                n <= start.remaining(),
                n == (if count <= start.remaining() {
                    count as nat
                } else {
                    start.remaining()
                }),
                drawn@.len() == i,
                self@ == start.advanced(i as nat),
                self@.wf(),
                start.wf(),
                forall|k: int|
                    0 <= k < i ==> {
                        &&& is_card_at(#[trigger] drawn@[k].card, start.order[start.position + k] as int)
                        &&& start.reversal_ok(drawn@[k].reversed)
                        &&& drawn@[k].position is None
                    },
            decreases n - i,
        {
            let next = self.draw();
            match next {
                Some(card) => {
                    drawn.push(card);
                },
                None => {},
            }
            i = i + 1;
        }
        drawn
    }

    /// Reset the deck position without reshuffling
    pub fn reset(&mut self)
        ensures
            final(self)@ == (DeckView { position: 0, ..old(self)@ }),
    {
        proof {
            use_type_invariant(&*self);
        }
        self.position = 0;
    }

    /// Reset and shuffle the deck
    pub fn reset_and_shuffle(&mut self)
        ensures
            final(self)@.order.to_multiset() == old(self)@.order.to_multiset(),
            final(self)@.order.len() == old(self)@.order.len(),
            final(self)@.position == 0,
            final(self)@.allow_reversals == old(self)@.allow_reversals,
            final(self)@.reversal_per_mille == old(self)@.reversal_per_mille,
            final(self)@.shuffled,
            final(self)@.wf(),
    {
        self.reset();
        self.shuffle();
    }

    /// The daily card for a hash value: card `hash % 78`, reversed when
    /// `(hash >> 32) % 100 < 15`.
    pub fn daily_card_from_hash(hash: u64) -> (d: DrawnCard)
        ensures
            is_card_at(d.card, daily_index(hash)),
            d.reversed == daily_reversed(hash),
            d.position is None,
    {
        let card_index = (hash % 78) as usize;
        let reversed = (hash >> 32u64) % 100 < 15;
        DrawnCard::new(deck_card(card_index), reversed)
    }

    /// Get the deterministic card of the day for a given date: the date's
    /// year-month-day text is hashed with `DefaultHasher`, and the hash picks
    /// the card and its orientation.
    pub fn daily_card(date: CalendarDate) -> (d: DrawnCard)
        requires
            date.is_valid(),
        ensures
            is_card_at(d.card, daily_index(date_hash(date))),
            d.reversed == daily_reversed(date_hash(date)),
            d.position is None,
    {
        let date_str = date.iso_text();
        let mut hasher = DefaultHasher::new();
        let bytes = date_str.as_str().as_bytes();
        assert(bytes@ == vstd::utf8::encode_utf8(date_str@));
        hasher.write(bytes);
        let terminator: [u8; 1] = [0xffu8];
        assert(terminator@ == seq![0xffu8]);
        hasher.write(&terminator);
        let hash = hasher.finish();
        proof {
            assert(hasher@ =~= seq![vstd::utf8::encode_utf8(date_str@), seq![0xffu8]]);
        }
        Self::daily_card_from_hash(hash)
    }

    /// Search for cards by name (case-insensitive partial match)
    pub fn search_by_name(query: &str) -> (r: Vec<Card>)
        ensures
            cards_at(r@, deck_positions().filter(name_contains_pred(query@))),
    {
        let ghost pred = name_contains_pred(query@);
        let q = lowercase_chars(query);
        let mut r: Vec<Card> = Vec::new();
        let mut i: usize = 0;
        while i < TOTAL_CARDS
            invariant
                i <= 78,
                q@ == lowercase(query@),
                pred == name_contains_pred(query@),
                cards_at(r@, positions_where(pred, i as int)),
            decreases 78 - i,
        {
            let c = deck_card(i);
            let name = lowercase_chars(c.name);
            proof {
                lemma_positions_step(pred, i as int);
            }
            if contains_chars(&name, &q) {
                r.push(c);
            }
            i = i + 1;
        }
        proof {
            lemma_positions_all(pred);
        }
        r
    }

    /// Get a card by exact name (case-insensitive): the first card of the deck
    /// whose lowercase name equals the lowercase of `name`
    pub fn find_by_name(name: &str) -> (r: Option<Card>)
        ensures
            r is None <==> (forall|i: int| 0 <= i < 78 ==> !name_equals(i, name@)),
            r matches Some(c) ==> exists|i: int|
                {
                    &&& is_card_at(c, i)
                    &&& name_equals(i, name@)
                    &&& forall|j: int| 0 <= j < i ==> !name_equals(j, name@)
                },
    {
        let wanted = lowercase_chars(name);
        let mut i: usize = 0;
        while i < TOTAL_CARDS
            invariant
                i <= 78,
                wanted@ == lowercase(name@),
                forall|j: int| 0 <= j < i ==> !name_equals(j, name@),
            decreases 78 - i,
        {
            let c = deck_card(i);
            let candidate = lowercase_chars(c.name);
            if same_chars(&candidate, &wanted) {
                assert(is_card_at(c, i as int));
                assert(name_equals(i as int, name@));
                return Some(c);
            }
            i = i + 1;
        }
        None
    }

    /// Find cards related to the given card (same number, same suit, opposing)
    pub fn related_cards(card: &Card) -> (r: RelatedCards)
        requires
            card.arcana == ArcanaType::Major ==> card.number <= 21,
        ensures
            cards_at(r.same_number@, deck_positions().filter(same_number_pred(*card))),
            cards_at(r.same_suit@, deck_positions().filter(same_suit_pred(*card))),
            match opposing_index(*card) {
                Some(i) => r.opposing matches Some(c) && is_card_at(c, i),
                None => r.opposing is None,
            },
    {
        let ghost pred = same_number_pred(*card);
        let mut same_number: Vec<Card> = Vec::new();
        let mut i: usize = 0;
        while i < TOTAL_CARDS
            invariant
                i <= 78,
                pred == same_number_pred(*card),
                cards_at(same_number@, positions_where(pred, i as int)),
            decreases 78 - i,
        {
            let c = deck_card(i);
            proof {
                lemma_positions_step(pred, i as int);
            }
            if c.number == card.number && !same_text(c.name, card.name) {
                same_number.push(c);
            }
            i = i + 1;
        }
        proof {
            lemma_positions_all(pred);
        }
        let ghost suit_pred = same_suit_pred(*card);
        let mut same_suit: Vec<Card> = Vec::new();
        let mut j: usize = 0;
        while j < TOTAL_CARDS
            invariant
                j <= 78,
                suit_pred == same_suit_pred(*card),
                cards_at(same_suit@, positions_where(suit_pred, j as int)),
            decreases 78 - j,
        {
            let c = deck_card(j);
            proof {
                lemma_positions_step(suit_pred, j as int);
            }
            if card.suit.is_some() && c.suit == card.suit && !same_text(c.name, card.name) {
                same_suit.push(c);
            }
            j = j + 1;
        }
        proof {
            lemma_positions_all(suit_pred);
        }
        let opposing = match card.arcana {
            ArcanaType::Major => Self::get_card((21 - card.number) as usize),
            ArcanaType::Minor => match card.suit {
                Some(suit) => {
                    let base: usize = match suit {
                        Suit::Wands => 14,
                        Suit::Cups => 0,
                        Suit::Swords => 42,
                        Suit::Pentacles => 28,
                    };
                    if 1 <= card.number && card.number <= 14 {
                        Some(deck_card(MAJOR_COUNT + base + (card.number as usize) - 1))
                    } else {
                        None
                    }
                },
                None => None,
            },
        };
        RelatedCards { same_number, same_suit, opposing }
    }
}

} // verus!
