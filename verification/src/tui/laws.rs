//! What every run of the application keeps: menus that wrap around, a
//! filter cycle that comes back to where it began, a shuffle that lasts its
//! ticks, a search that lists exactly the filter's cards whose name or a
//! keyword holds the query, and whose cancelling gives back the full list.

use vstd::prelude::*;

use crate::cards::{Card, Suit};
use crate::deck::{cards_at, deck_card_of};
use crate::text::{is_substring, lowercase};
use crate::tui::app::{
    filter_positions, matches_pred, next_filter, refreshed, revealed_next, search_applies, searched, revealed_previous, search_key,
    step_back, step_forward, ticked, App, CardFilter, Key, Screen,
    SHUFFLE_TICKS,
};

verus! {

/// Moving down a list and then up again comes back to the same item, and so
/// does moving up and then down.
pub proof fn law_move_down_then_up(i: usize, len: nat)
    requires
        i < len,
        len < usize::MAX,
    ensures
        step_back(step_forward(Some(i), len), len) == Some(i),
        step_forward(step_back(Some(i), len), len) == Some(i),
{
    if i + 1 < len {
        vstd::arithmetic::div_mod::lemma_small_mod((i + 1) as nat, len);
    } else {
        vstd::arithmetic::div_mod::lemma_mod_self_0(len as int);
    }
    if i == 0 {
        vstd::arithmetic::div_mod::lemma_mod_self_0(len as int);
    } else {
        vstd::arithmetic::div_mod::lemma_small_mod(i as nat, len);
    }
}

/// Moving down a list as many times as it has items comes back to the same item.
pub proof fn law_move_down_full_circle(i: usize, len: nat)
    requires
        i < len,
        len < usize::MAX,
    ensures
        iterate_forward(Some(i), len, len) == Some(i),
{
    lemma_iterate_forward(i, len, len);
    vstd::arithmetic::div_mod::lemma_mod_add_multiples_vanish(i as int, len as int);
    vstd::arithmetic::div_mod::lemma_small_mod(i as nat, len);
}

/// The selection after moving down `n` times.
pub open spec fn iterate_forward(sel: Option<usize>, len: nat, n: nat) -> Option<usize>
    decreases n,
{
    if n == 0 {
        sel
    } else {
        step_forward(iterate_forward(sel, len, (n - 1) as nat), len)
    }
}

proof fn lemma_iterate_forward(i: usize, len: nat, n: nat)
    requires
        i < len,
        len < usize::MAX,
    ensures
        iterate_forward(Some(i), len, n) == Some(((i + n) % (len as int)) as usize),
    decreases n,
{
    if n > 0 {
        lemma_iterate_forward(i, len, (n - 1) as nat);
        let p: int = (i + n - 1) % (len as int);
        vstd::arithmetic::div_mod::lemma_mod_bound(i + n - 1, len as int);
        vstd::arithmetic::div_mod::lemma_add_mod_noop_right(1, i + n - 1, len as int);
        assert(iterate_forward(Some(i), len, (n - 1) as nat) == Some(p as usize));
        assert((p as usize) as int == p);
        assert(((p + 1) % (len as int)) == (i + n) % (len as int));
    } else {
        vstd::arithmetic::div_mod::lemma_small_mod(i as nat, len);
    }
}

/// The card filter comes back to where it began after six changes, passing
/// through all cards, the Major Arcana and each of the four suits.
pub proof fn law_filter_cycle(f: CardFilter)
    ensures
        next_filter(next_filter(next_filter(next_filter(next_filter(next_filter(f)))))) == f,
        next_filter(CardFilter::All) == CardFilter::Major,
        next_filter(CardFilter::Major) == CardFilter::Suit(Suit::Wands),
        next_filter(CardFilter::Suit(Suit::Pentacles)) == CardFilter::All,
{
}

/// The shuffle animation counts its ticks and draws the cards on the tick
/// that completes it, and not before.
pub proof fn law_shuffle_lasts_its_ticks(a: App, b: App)
    requires
        a.screen == Screen::ShuffleAnimation,
        ticked(a, b),
    ensures
        a.shuffle_ticks + 1 < SHUFFLE_TICKS ==> b.screen == Screen::ShuffleAnimation && b.shuffle_ticks
            == a.shuffle_ticks + 1,
        (a.shuffle_ticks + 1 == SHUFFLE_TICKS && a.selected_spread is Some) ==> {
            &&& b.screen == Screen::CardReveal
            &&& b.reading is Some
            &&& b.reveal_index == 0
        },
{
}

/// Revealing cards forward and back keeps the revealed card within the reading.
pub proof fn law_reveal_stays_in_reading(a: App, b: App, c: App)
    requires
        a.reading matches Some(r) && a.reveal_index < r.drawn@.len(),
        revealed_next(a, b),
        revealed_previous(b, c),
    ensures
        b.reading == a.reading,
        c.reading == a.reading,
        b.reading matches Some(r) && b.reveal_index < r.drawn@.len(),
        c.reading matches Some(r) && c.reveal_index < r.drawn@.len(),
{
}

/// Leaving a search gives back every card of the filter, in deck order.
pub proof fn law_leaving_search_lists_the_filter(a: App, b: App)
    requires
        a.card_search_active,
        search_key(a, Key::Esc, b),
    ensures
        cards_at(b.cards@, filter_positions(a.card_filter)),
        !b.card_search_active,
        b.card_search_query@.len() == 0,
{
    let mid = App { card_search_active: false, card_search_query: b.card_search_query, ..a };
    assert(refreshed(mid, b));
    let base = choose|base: Seq<crate::cards::Card>|
        #[trigger] cards_at(base, filter_positions(mid.card_filter)) && b.cards@ == crate::tui::app::searched(mid, base);
    assert(b.cards@ == base);
}


/// Searching the card list, ignoring case, keeps exactly the filter's cards
/// whose name or one of whose keywords contains the query: a card of the
/// filter with such a name or keyword is listed, and every listed card is a
/// card of the filter with such a name or keyword.
pub proof fn law_search_finds_names_and_keywords(a: App, b: App)
    requires
        refreshed(a, b),
        search_applies(a),
    ensures
        forall|j: int, k: int|
            0 <= j < filter_positions(a.card_filter).len() && 0 <= k < deck_card_of(
                filter_positions(a.card_filter)[j],
            ).keywords@.len() && is_substring(
                lowercase(a.card_search_query@),
                lowercase(#[trigger] deck_card_of(filter_positions(a.card_filter)[j]).keywords@[k]@),
            ) ==> b.cards@.contains(deck_card_of(filter_positions(a.card_filter)[j])),
        forall|j: int|
            0 <= j < filter_positions(a.card_filter).len() && is_substring(
                lowercase(a.card_search_query@),
                lowercase(#[trigger] deck_card_of(filter_positions(a.card_filter)[j]).name@),
            ) ==> b.cards@.contains(deck_card_of(filter_positions(a.card_filter)[j])),
        forall|c: Card|
            #[trigger] b.cards@.contains(c) ==> {
                &&& exists|j: int|
                    0 <= j < filter_positions(a.card_filter).len() && c == deck_card_of(
                        #[trigger] filter_positions(a.card_filter)[j],
                    )
                &&& is_substring(lowercase(a.card_search_query@), lowercase(c.name@)) || exists|k: int|
                    0 <= k < c.keywords@.len() && is_substring(
                        lowercase(a.card_search_query@),
                        lowercase(#[trigger] c.keywords@[k]@),
                    )
            },
{
    let positions = filter_positions(a.card_filter);
    let base = choose|base: Seq<Card>| #[trigger] cards_at(base, positions) && b.cards@ == searched(a, base);
    let q = lowercase(a.card_search_query@);
    let pred = matches_pred(q);
    assert(b.cards@ == base.filter(pred));
    assert forall|j: int, k: int|
        0 <= j < positions.len() && 0 <= k < deck_card_of(positions[j]).keywords@.len() && is_substring(
            q,
            lowercase(#[trigger] deck_card_of(positions[j]).keywords@[k]@),
        ) implies b.cards@.contains(deck_card_of(positions[j])) by {
        assert(base[j] == deck_card_of(positions[j]));
        assert(pred(base[j]));
        base.lemma_filter_contains(pred, j);
    }
    assert forall|j: int|
        0 <= j < positions.len() && is_substring(q, lowercase(#[trigger] deck_card_of(positions[j]).name@))
        implies b.cards@.contains(deck_card_of(positions[j])) by {
        assert(base[j] == deck_card_of(positions[j]));
        assert(pred(base[j]));
        base.lemma_filter_contains(pred, j);
    }
    assert forall|c: Card| #[trigger] b.cards@.contains(c) implies {
        &&& exists|j: int| 0 <= j < positions.len() && c == deck_card_of(#[trigger] positions[j])
        &&& is_substring(q, lowercase(c.name@)) || exists|k: int|
            0 <= k < c.keywords@.len() && is_substring(q, lowercase(#[trigger] c.keywords@[k]@))
    } by {
        let i = choose|i: int| 0 <= i < b.cards@.len() && b.cards@[i] == c;
        base.filter_lemma(pred);
        assert(pred(b.cards@[i]));
        base.lemma_filter_contains_rev(pred, c);
        let j = choose|j: int| 0 <= j < base.len() && base[j] == c;
        assert(c == deck_card_of(positions[j]));
    }
}

} // verus!
