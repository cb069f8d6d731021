//! What the deck keeps across calls: a deck never gives the same card twice,
//! a full deck drawn out gives each of the 78 cards once, and the card of the
//! day depends on the date alone.

use vstd::prelude::*;

use crate::cards::minor::{minor_number, minor_suit};
use crate::cards::{display_name_text, Card, DrawnCard};
use crate::deck::{
    date_hash, daily_index, daily_reversed, deck_card_of, deck_name, drawn_from, identity_order, is_card_at,
    DeckView,
};
use crate::timestamp::CalendarDate;

verus! {

broadcast use vstd::seq_lib::group_to_multiset_ensures;

/// A card stands at one place of the full deck only.
pub proof fn lemma_card_at_one_place(c: Card, i: int, j: int)
    requires
        is_card_at(c, i),
        is_card_at(c, j),
    ensures
        i == j,
{
    if i >= 22 && j >= 22 {
        let a = i - 22;
        let b = j - 22;
        assert(minor_suit(a) == minor_suit(b));
        assert(minor_number(a) == minor_number(b));
        assert(a % 14 == b % 14);
        assert(a == b) by (nonlinear_arith)
            requires
                0 <= a < 56,
                0 <= b < 56,
                a % 14 == b % 14,
                (a < 14) == (b < 14),
                (a < 28) == (b < 28),
                (a < 42) == (b < 42),
        ;
    }
}

/// One of the drawn cards is the card at place `j` of the full deck.
pub open spec fn drawn_includes(drawn: Seq<DrawnCard>, j: int) -> bool {
    exists|k: int| 0 <= k < drawn.len() && #[trigger] is_card_at(drawn[k].card, j)
}

/// Drawing all 78 cards of a full deck, however it was shuffled, gives every
/// card of the deck, and none twice.
pub proof fn law_full_draw_gives_every_card_once(d: DeckView, drawn: Seq<DrawnCard>)
    requires
        d.order.to_multiset() == identity_order(78).to_multiset(),
        d.position == 0,
        drawn_from(d, 78, drawn),
    ensures
        drawn.len() == 78,
        forall|j: int| 0 <= j < 78 ==> #[trigger] drawn_includes(drawn, j),
        forall|k1: int, k2: int, j: int|
            0 <= k1 < 78 && 0 <= k2 < 78 && #[trigger] is_card_at(drawn[k1].card, j) && #[trigger] is_card_at(
                drawn[k2].card,
                j,
            ) ==> k1 == k2,
{
    let ident = identity_order(78);
    vstd::seq_lib::to_multiset_len(d.order);
    vstd::seq_lib::to_multiset_len(ident);
    assert(d.order.len() == 78);
    assert forall|j: int| 0 <= j < 78 implies #[trigger] drawn_includes(drawn, j) by {
        assert(ident[j] == j as usize);
        assert(ident.contains(j as usize));
        assert(ident.to_multiset().count(j as usize) > 0);
        assert(d.order.to_multiset().count(j as usize) > 0);
        assert(d.order.contains(j as usize));
        let k = choose|k: int| 0 <= k < d.order.len() && d.order[k] == j as usize;
        assert(is_card_at(drawn[k].card, d.order[k] as int));
    }
    assert(ident.no_duplicates());
    ident.lemma_multiset_has_no_duplicates();
    d.order.lemma_multiset_has_no_duplicates_conv();
    assert forall|k1: int, k2: int, j: int|
        0 <= k1 < 78 && 0 <= k2 < 78 && #[trigger] is_card_at(drawn[k1].card, j) && #[trigger] is_card_at(
            drawn[k2].card,
            j,
        ) implies k1 == k2 by {
        assert(is_card_at(drawn[k1].card, d.order[k1] as int));
        assert(is_card_at(drawn[k2].card, d.order[k2] as int));
        lemma_card_at_one_place(drawn[k1].card, j, d.order[k1] as int);
        lemma_card_at_one_place(drawn[k2].card, j, d.order[k2] as int);
    }
}

/// Drawing from a deck never gives the same card twice, however many cards
/// are drawn.
pub proof fn law_draw_never_repeats_a_card(d: DeckView, count: nat, drawn: Seq<DrawnCard>)
    requires
        d.wf(),
        drawn_from(d, count, drawn),
    ensures
        forall|k1: int, k2: int|
            0 <= k1 < drawn.len() && 0 <= k2 < drawn.len() && k1 != k2 ==> #[trigger] drawn[k1].card
                != #[trigger] drawn[k2].card,
{
    assert forall|k1: int, k2: int|
        0 <= k1 < drawn.len() && 0 <= k2 < drawn.len() && k1 != k2 implies #[trigger] drawn[k1].card
            != #[trigger] drawn[k2].card by {
        let p1 = d.position + k1;
        let p2 = d.position + k2;
        assert(is_card_at(drawn[k1].card, d.order[p1] as int));
        assert(is_card_at(drawn[k2].card, d.order[p2] as int));
        assert(d.order[p1] != d.order[p2]);
        if drawn[k1].card == drawn[k2].card {
            lemma_card_at_one_place(drawn[k1].card, d.order[p1] as int, d.order[p2] as int);
        }
    }
}

/// The card of the day depends on the date alone: two draws for the same
/// date give the same card in the same orientation.
pub proof fn law_daily_card_depends_on_date_alone(date: CalendarDate, d1: DrawnCard, d2: DrawnCard)
    requires
        is_card_at(d1.card, daily_index(date_hash(date))),
        d1.reversed == daily_reversed(date_hash(date)),
        is_card_at(d2.card, daily_index(date_hash(date))),
        d2.reversed == daily_reversed(date_hash(date)),
    ensures
        d1.card == d2.card,
        d1.reversed == d2.reversed,
{
}

/// A Minor Arcana ace or court card is shown by its own name: its rank word
/// (Ace, Page, Knight, Queen or King), "of" and its suit, as the card table
/// names it; so the eleventh card of a suit reads Page and the twelfth Knight.
pub proof fn law_ace_and_court_cards_show_their_names(i: int)
    requires
        22 <= i < 78,
        (i - 22) % 14 == 0 || (i - 22) % 14 >= 10,
    ensures
        display_name_text(deck_card_of(i)) == deck_name(i)@,
{
    reveal_strlit(" of ");
    if i < 22 {
    } else if i == 22 {
        reveal_strlit("Ace of Wands");
        reveal_strlit("Ace");
        reveal_strlit("Wands");
        assert(display_name_text(deck_card_of(i)) =~= deck_name(i)@);
    } else if i == 32 {
        reveal_strlit("Page of Wands");
        reveal_strlit("Page");
        reveal_strlit("Wands");
        assert(display_name_text(deck_card_of(i)) =~= deck_name(i)@);
    } else if i == 33 {
        reveal_strlit("Knight of Wands");
        reveal_strlit("Knight");
        reveal_strlit("Wands");
        assert(display_name_text(deck_card_of(i)) =~= deck_name(i)@);
    } else if i == 34 {
        reveal_strlit("Queen of Wands");
        reveal_strlit("Queen");
        reveal_strlit("Wands");
        assert(display_name_text(deck_card_of(i)) =~= deck_name(i)@);
    } else if i == 35 {
        reveal_strlit("King of Wands");
        reveal_strlit("King");
        reveal_strlit("Wands");
        assert(display_name_text(deck_card_of(i)) =~= deck_name(i)@);
    } else if i == 36 {
        reveal_strlit("Ace of Cups");
        reveal_strlit("Ace");
        reveal_strlit("Cups");
        assert(display_name_text(deck_card_of(i)) =~= deck_name(i)@);
    } else if i == 46 {
        reveal_strlit("Page of Cups");
        reveal_strlit("Page");
        reveal_strlit("Cups");
        assert(display_name_text(deck_card_of(i)) =~= deck_name(i)@);
    } else if i == 47 {
        reveal_strlit("Knight of Cups");
        reveal_strlit("Knight");
        reveal_strlit("Cups");
        assert(display_name_text(deck_card_of(i)) =~= deck_name(i)@);
    } else if i == 48 {
        reveal_strlit("Queen of Cups");
        reveal_strlit("Queen");
        reveal_strlit("Cups");
        assert(display_name_text(deck_card_of(i)) =~= deck_name(i)@);
    } else if i == 49 {
        reveal_strlit("King of Cups");
        reveal_strlit("King");
        reveal_strlit("Cups");
        assert(display_name_text(deck_card_of(i)) =~= deck_name(i)@);
    } else if i == 50 {
        reveal_strlit("Ace of Swords");
        reveal_strlit("Ace");
        reveal_strlit("Swords");
        assert(display_name_text(deck_card_of(i)) =~= deck_name(i)@);
    } else if i == 60 {
        reveal_strlit("Page of Swords");
        reveal_strlit("Page");
        reveal_strlit("Swords");
        assert(display_name_text(deck_card_of(i)) =~= deck_name(i)@);
    } else if i == 61 {
        reveal_strlit("Knight of Swords");
        reveal_strlit("Knight");
        reveal_strlit("Swords");
        assert(display_name_text(deck_card_of(i)) =~= deck_name(i)@);
    } else if i == 62 {
        reveal_strlit("Queen of Swords");
        reveal_strlit("Queen");
        reveal_strlit("Swords");
        assert(display_name_text(deck_card_of(i)) =~= deck_name(i)@);
    } else if i == 63 {
        reveal_strlit("King of Swords");
        reveal_strlit("King");
        reveal_strlit("Swords");
        assert(display_name_text(deck_card_of(i)) =~= deck_name(i)@);
    } else if i == 64 {
        reveal_strlit("Ace of Pentacles");
        reveal_strlit("Ace");
        reveal_strlit("Pentacles");
        assert(display_name_text(deck_card_of(i)) =~= deck_name(i)@);
    } else if i == 74 {
        reveal_strlit("Page of Pentacles");
        reveal_strlit("Page");
        reveal_strlit("Pentacles");
        assert(display_name_text(deck_card_of(i)) =~= deck_name(i)@);
    } else if i == 75 {
        reveal_strlit("Knight of Pentacles");
        reveal_strlit("Knight");
        reveal_strlit("Pentacles");
        assert(display_name_text(deck_card_of(i)) =~= deck_name(i)@);
    } else if i == 76 {
        reveal_strlit("Queen of Pentacles");
        reveal_strlit("Queen");
        reveal_strlit("Pentacles");
        assert(display_name_text(deck_card_of(i)) =~= deck_name(i)@);
    } else if i == 77 {
        reveal_strlit("King of Pentacles");
        reveal_strlit("King");
        reveal_strlit("Pentacles");
        assert(display_name_text(deck_card_of(i)) =~= deck_name(i)@);
    }
}

} // verus!
