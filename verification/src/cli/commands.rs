//! What each command-line command decides and prints: which cards a listing
//! shows and under which headings, what a card lookup finds, which spread a
//! reading uses, and the pages that show them.

use vstd::prelude::*;

use crate::cards::{ArcanaType, Card, SpreadPosition, Suit};
use crate::cli::output::{
    append_page, blank_line, card_rows, header_lines, header_page, header_title, is_card_rows,
    card_detail_lines, card_detail_page, copy_str, lavender_style, page_view, plain_style,
    push_line, push_span, span, span_of, subheader_line, subtext, subtext_style, text_line, Span,
    bold_style, boxed_header_lines, boxed_header_page, boxed_header_text, mauve, mauve_style,
    named_bold, plain,
};
use crate::cli::{byte_len, lemma_bytes_at_least_chars, lemma_bytes_at_most, lemma_encode_concat, repeat_char};
use vstd::utf8::{encode_scalar, encode_utf8};
use crate::deck::utils::{by_suit, index_range, major_arcana, suit_pred};
use crate::deck::{cards_at, deck_positions, is_card_at, name_contains_pred, name_equals, Deck};
use crate::error::ArcanaError;
use crate::deck::laws::law_draw_never_repeats_a_card;
use crate::deck::{drawn_from, identity_order, DeckView, DEFAULT_REVERSAL_PER_MILLE};
use crate::spreads::reading::Reading;
use crate::spreads::{all_spreads, get_by_name, is_spread, spread_alias, spread_order, Spread, SpreadType};
use crate::text::{decimal_string, decimal_text, lowercase, std_uppercase, to_uppercase};
use crate::ui::theme::{mocha, Ink, TextStyle};

verus! {

/// What a card lookup by name finds.
pub enum CardLookup {
    /// The card of that name, or the only card whose name contains it.
    Found(Card),
    /// The cards whose names contain it, when there are several.
    Matches(Vec<Card>),
    /// No card.
    NotFound,
}

/// Some card is named `name`, ignoring case.
pub open spec fn has_exact_name(name: Seq<char>) -> bool {
    exists|i: int| 0 <= i < 78 && name_equals(i, name)
}

/// `c` is the first card of the deck named `name`, ignoring case.
pub open spec fn is_first_named(c: Card, name: Seq<char>) -> bool {
    exists|i: int|
        {
            &&& is_card_at(c, i)
            &&& #[trigger] name_equals(i, name)
            &&& forall|j: int| 0 <= j < i ==> !name_equals(j, name)
        }
}

/// The deck positions of the cards whose names contain `name`, ignoring case.
pub open spec fn name_hits(name: Seq<char>) -> Seq<int> {
    deck_positions().filter(name_contains_pred(name))
}

/// Look a card up as the `card` command does: by its exact name, ignoring
/// case; failing that, the cards whose names contain the text
pub fn card_lookup(name: &str) -> (r: CardLookup)
    ensures
        has_exact_name(name@) ==> (r matches CardLookup::Found(c) && is_first_named(c, name@)),
        !has_exact_name(name@) ==> {
            let hits = name_hits(name@);
            &&& hits.len() == 0 ==> r is NotFound
            &&& hits.len() == 1 ==> (r matches CardLookup::Found(c) && is_card_at(c, hits[0]))
            &&& hits.len() > 1 ==> (r matches CardLookup::Matches(v) && cards_at(v@, hits))
        },
{
    match Deck::find_by_name(name) {
        Some(card) => CardLookup::Found(card),
        None => {
            let results = Deck::search_by_name(name);
            if results.len() == 0 {
                CardLookup::NotFound
            } else if results.len() == 1 {
                CardLookup::Found(results[0])
            } else {
                CardLookup::Matches(results)
            }
        },
    }
}

/// The deck positions of the cards a listing shows: the Major Arcana, one
/// suit, or the whole deck.
pub open spec fn listed_positions(major: bool, suit: Option<Suit>) -> Seq<int> {
    if major {
        index_range(0, 22)
    } else {
        match suit {
            Some(s) => deck_positions().filter(suit_pred(s)),
            None => deck_positions(),
        }
    }
}

/// The cards a listing shows, in deck order
pub fn listed_cards(major: bool, suit: Option<Suit>) -> (v: Vec<Card>)
    ensures
        cards_at(v@, listed_positions(major, suit)),
{
    if major {
        major_arcana()
    } else {
        match suit {
            Some(s) => by_suit(s),
            None => {
                let v = Deck::iter_all_cards();
                assert(cards_at(v@, deck_positions()));
                v
            },
        }
    }
}

/// A test on cards: Major Arcana, Minor Arcana, or of a suit.
pub enum CardTest {
    Major,
    Minor,
    InSuit(Suit),
}

/// The cards a test accepts.
pub open spec fn card_test(t: CardTest) -> spec_fn(Card) -> bool {
    |c: Card|
        match t {
            CardTest::Major => c.arcana == ArcanaType::Major,
            CardTest::Minor => c.arcana == ArcanaType::Minor,
            CardTest::InSuit(s) => c.suit == Some(s),
        }
}

fn passes(c: &Card, t: &CardTest) -> (b: bool)
    ensures
        b == card_test(*t)(*c),
{
    match t {
        CardTest::Major => c.arcana == ArcanaType::Major,
        CardTest::Minor => c.arcana == ArcanaType::Minor,
        CardTest::InSuit(s) => match c.suit {
            Some(cs) => cs == *s,
            None => false,
        },
    }
}

/// The cards of a list that pass a test, in order.
fn cards_passing(cards: &Vec<Card>, t: CardTest) -> (r: Vec<Card>)
    ensures
        r@ == cards@.filter(card_test(t)),
{
    let ghost pred = card_test(t);
    let mut r: Vec<Card> = Vec::new();
    let mut i: usize = 0;
    while i < cards.len()
        invariant
            i <= cards@.len(),
            pred == card_test(t),
            r@ == cards@.take(i as int).filter(pred),
        decreases cards@.len() - i,
    {
        let c = cards[i];
        proof {
            assert(cards@.take(i + 1) =~= cards@.take(i as int).push(c));
            cards@.take(i as int).lemma_filter_push(c, pred);
        }
        if passes(&c, &t) {
            r.push(c);
        }
        i = i + 1;
    }
    assert(cards@.take(cards@.len() as int) =~= cards@);
    r
}

/// The suits in the order listings show them.
pub open spec fn suit_order(i: int) -> Suit {
    if i == 0 {
        Suit::Wands
    } else if i == 1 {
        Suit::Cups
    } else if i == 2 {
        Suit::Swords
    } else {
        Suit::Pentacles
    }
}

/// The heading of a suit's section: its name in capitals.
pub open spec fn suit_heading(s: Suit) -> Seq<char> {
    match s {
        Suit::Wands => "WANDS"@,
        Suit::Cups => "CUPS"@,
        Suit::Swords => "SWORDS"@,
        Suit::Pentacles => "PENTACLES"@,
    }
}

fn suit_heading_str(s: Suit) -> (r: &'static str)
    ensures
        r@ == suit_heading(s),
{
    match s {
        Suit::Wands => "WANDS",
        Suit::Cups => "CUPS",
        Suit::Swords => "SWORDS",
        Suit::Pentacles => "PENTACLES",
    }
}

/// The sections of the first `k` suits, in order, each with the minor cards
/// of its suit, leaving out suits without cards.
pub open spec fn suit_sections(minors: Seq<Card>, k: nat) -> Seq<(Seq<char>, Seq<Card>)>
    decreases k,
{
    if k == 0 {
        Seq::empty()
    } else {
        let s = suit_order(k - 1);
        let in_suit = minors.filter(card_test(CardTest::InSuit(s)));
        suit_sections(minors, (k - 1) as nat) + if in_suit.len() > 0 {
            seq![(suit_heading(s), in_suit)]
        } else {
            Seq::empty()
        }
    }
}

/// The sections of a short listing: the Major Arcana (when the listing asks
/// for them or for no suit), then each suit's cards (unless only the Major
/// Arcana were asked for), each section only when it has cards.
pub open spec fn list_sections(cards: Seq<Card>, major: bool, suit: Option<Suit>) -> Seq<(Seq<char>, Seq<Card>)> {
    let majors = cards.filter(card_test(CardTest::Major));
    let minors = cards.filter(card_test(CardTest::Minor));
    let major_part: Seq<(Seq<char>, Seq<Card>)> = if majors.len() > 0 && (major || suit is None) {
        seq![("MAJOR ARCANA"@, majors)]
    } else {
        Seq::empty()
    };
    let minor_part: Seq<(Seq<char>, Seq<Card>)> = if minors.len() > 0 && !major {
        suit_sections(minors, 4)
    } else {
        Seq::empty()
    };
    major_part + minor_part
}

/// A page made of sections: each a subheader, a row per card, and an empty line.
pub open spec fn is_sections_page(
    page: Seq<Seq<(Seq<char>, TextStyle)>>,
    sections: Seq<(Seq<char>, Seq<Card>)>,
) -> bool
    decreases sections.len(),
{
    if sections.len() == 0 {
        page.len() == 0
    } else {
        let last = sections.last();
        let n = last.1.len() + 2;
        &&& page.len() >= n
        &&& is_sections_page(page.take(page.len() - n), sections.drop_last())
        &&& page[page.len() - n] == seq![("━━━ "@ + last.0 + " ━━━"@, lavender_style())]
        &&& is_card_rows(page.subrange(page.len() - n + 1, page.len() - 1), last.1)
        &&& page.last() == Seq::<(Seq<char>, TextStyle)>::empty()
    }
}

/// Add a section to a page: its subheader, its card rows and an empty line.
fn push_section(page: &mut Vec<Vec<Span>>, title: &str, cards: &Vec<Card>, Ghost(sections): Ghost<Seq<(Seq<char>, Seq<Card>)>>)
    requires
        is_sections_page(page_view(old(page)@), sections),
    ensures
        is_sections_page(page_view(final(page)@), sections.push((title@, cards@))),
{
    let ghost start = page_view(page@);
    push_line(page, subheader_line(title));
    let rows = card_rows(cards);
    let ghost rv = page_view(rows@);
    append_page(page, rows);
    push_line(page, blank_line());
    proof {
        let p = page_view(page@);
        let n = cards@.len() + 2;
        let all = sections.push((title@, cards@));
        assert(all.drop_last() =~= sections);
        assert(all.last() == (title@, cards@));
        assert(p.take(p.len() - n) =~= start);
        assert(p.subrange(p.len() - n + 1, p.len() - 1) =~= rv);
    }
}

/// Every character is ASCII.
pub open spec fn ascii_text(t: Seq<char>) -> bool {
    forall|k: int| 0 <= k < t.len() ==> (#[trigger] t[k] as u32) < 128
}

/// An ASCII text takes one byte per character.
pub proof fn lemma_ascii_bytes(t: Seq<char>)
    requires
        ascii_text(t),
    ensures
        byte_len(t) == t.len(),
    decreases t.len(),
{
    if t.len() > 0 {
        assert(ascii_text(t.drop_first())) by {
            assert forall|k: int| 0 <= k < t.drop_first().len() implies (#[trigger] t.drop_first()[k] as u32) < 128 by {
                assert(t.drop_first()[k] == t[k + 1]);
            }
        }
        lemma_ascii_bytes(t.drop_first());
        assert((t[0] as u32) < 128);
    }
}

/// A header fits its box when its title is ASCII of at most 59 characters.
pub proof fn lemma_header_fits(title: Seq<char>)
    requires
        ascii_text(title),
        title.len() <= 59,
    ensures
        byte_len(header_title(title)) <= 66,
{
    reveal_strlit(" 🔮 ");
    reveal_strlit(" ");
    lemma_ascii_bytes(title);
    lemma_ascii_bytes(" "@);
    lemma_encode_concat(" 🔮 "@, title);
    lemma_encode_concat(" 🔮 "@ + title, " "@);
    let e = " 🔮 "@;
    assert(e.len() == 3);
    let e1 = e.drop_first();
    let e2 = e1.drop_first();
    let e3 = e2.drop_first();
    assert(e3 =~= Seq::<char>::empty());
    assert(e2[0] == ' ');
    assert(e1[0] == '🔮');
    assert(encode_utf8(e3).len() == 0);
    assert(encode_scalar(' ' as u32).len() == 1);
    assert(encode_scalar('🔮' as u32).len() == 4);
    assert(encode_utf8(e2).len() == 1);
    assert(encode_utf8(e1).len() == 5);
    assert(byte_len(e) == 6);
}

/// The title of a listing's header.
pub open spec fn list_title(major: bool, suit: Option<Suit>) -> Seq<char> {
    if major {
        "MAJOR ARCANA (22 cards)"@
    } else {
        match suit {
            Some(s) => suit_heading(s) + " (14 CARDS)"@,
            None => "COMPLETE DECK (78 cards)"@,
        }
    }
}

fn list_title_text(major: bool, suit: Option<Suit>) -> (r: String)
    ensures
        r@ == list_title(major, suit),
        byte_len(header_title(r@)) <= 66,
{
    let r = if major {
        copy_str("MAJOR ARCANA (22 cards)")
    } else {
        match suit {
            Some(s) => {
                let mut t = copy_str(suit_heading_str(s));
                t.append(" (14 CARDS)");
                t
            },
            None => copy_str("COMPLETE DECK (78 cards)"),
        }
    };
    proof {
        reveal_strlit("MAJOR ARCANA (22 cards)");
        reveal_strlit(" (14 CARDS)");
        reveal_strlit("COMPLETE DECK (78 cards)");
        reveal_strlit("WANDS");
        reveal_strlit("CUPS");
        reveal_strlit("SWORDS");
        reveal_strlit("PENTACLES");
        assert(ascii_text(r@));
        lemma_header_fits(r@);
    }
    r
}

/// The full descriptions of cards, one after another, each after the first
/// preceded by a plain rule and an empty line.
pub open spec fn details_page(cards: Seq<Card>) -> Seq<Seq<(Seq<char>, TextStyle)>>
    decreases cards.len(),
{
    if cards.len() == 0 {
        Seq::empty()
    } else if cards.len() == 1 {
        card_detail_page(cards[0])
    } else {
        details_page(cards.drop_last()) + seq![
            seq![(Seq::new(66, |_i: int| '─'), plain_style())],
            Seq::empty(),
        ] + card_detail_page(cards.last())
    }
}

fn details_lines(cards: &Vec<Card>) -> (r: Vec<Vec<Span>>)
    ensures
        page_view(r@) =~~= details_page(cards@),
{
    let mut page: Vec<Vec<Span>> = Vec::new();
    let mut i: usize = 0;
    assert(page_view(page@) =~~= details_page(cards@.take(0)));
    while i < cards.len()
        invariant
            i <= cards@.len(),
            page_view(page@) =~~= details_page(cards@.take(i as int)),
        decreases cards@.len() - i,
    {
        let ghost before = page_view(page@);
        if i > 0 {
            push_line(&mut page, text_line(repeat_char('─', 66)));
            push_line(&mut page, blank_line());
        }
        let detail = card_detail_lines(&cards[i]);
        append_page(&mut page, detail);
        proof {
            assert(cards@.take(i + 1).drop_last() =~= cards@.take(i as int));
            assert(cards@.take(i + 1).last() == cards@[i as int]);
            if i == 0 {
                assert(cards@.take(1) =~= seq![cards@[0]]);
            }
        }
        i = i + 1;
    }
    assert(cards@.take(cards@.len() as int) =~= cards@);
    page
}

/// The closing tip of a listing.
pub open spec fn list_tip() -> Seq<(Seq<char>, TextStyle)> {
    seq![("💡 Tip: Use 'arcana card <name>' for detailed information."@, subtext_style())]
}

fn suit_at(k: usize) -> (s: Suit)
    requires
        k < 4,
    ensures
        s == suit_order(k as int),
{
    if k == 0 {
        Suit::Wands
    } else if k == 1 {
        Suit::Cups
    } else if k == 2 {
        Suit::Swords
    } else {
        Suit::Pentacles
    }
}

fn short_list_lines(cards: &Vec<Card>, major: bool, suit: Option<Suit>) -> (r: Vec<Vec<Span>>)
    ensures
        is_sections_page(page_view(r@), list_sections(cards@, major, suit)),
{
    let majors = cards_passing(cards, CardTest::Major);
    let minors = cards_passing(cards, CardTest::Minor);
    let mut page: Vec<Vec<Span>> = Vec::new();
    let ghost mut secs: Seq<(Seq<char>, Seq<Card>)> = Seq::empty();
    assert(page_view(page@) =~= Seq::<Seq<(Seq<char>, TextStyle)>>::empty());
    if majors.len() > 0 && (major || suit.is_none()) {
        push_section(&mut page, "MAJOR ARCANA", &majors, Ghost(secs));
        proof {
            secs = secs.push(("MAJOR ARCANA"@, majors@));
        }
    }
    let ghost major_part = secs;
    if minors.len() > 0 && !major {
        let mut k: usize = 0;
        assert(major_part + suit_sections(minors@, 0) =~= major_part);
        while k < 4
            invariant
                k <= 4,
                secs == major_part + suit_sections(minors@, k as nat),
                is_sections_page(page_view(page@), secs),
            decreases 4 - k,
        {
            let s = suit_at(k);
            let in_suit = cards_passing(&minors, CardTest::InSuit(s));
            let ghost before = secs;
            if in_suit.len() > 0 {
                push_section(&mut page, suit_heading_str(s), &in_suit, Ghost(secs));
                proof {
                    secs = secs.push((suit_heading(s), in_suit@));
                    assert(secs =~= major_part + suit_sections(minors@, (k + 1) as nat));
                }
            } else {
                proof {
                    assert(suit_sections(minors@, (k + 1) as nat) =~= suit_sections(minors@, k as nat));
                }
            }
            k = k + 1;
        }
        assert(secs =~= list_sections(cards@, major, suit));
    } else {
        assert(secs =~= list_sections(cards@, major, suit));
    }
    page
}

/// What a listing prints: its header, then either each card's full
/// description or the short sections, then a tip.
pub open spec fn is_list_page(page: Seq<Seq<(Seq<char>, TextStyle)>>, major: bool, suit: Option<Suit>, long: bool) -> bool {
    let body = page.subrange(4, page.len() - 2);
    &&& page.len() >= 6
    &&& page.take(4) =~~= header_page(list_title(major, suit)) + seq![Seq::empty()]
    &&& page.skip(page.len() - 2) =~~= seq![Seq::empty(), list_tip()]
    &&& exists|cards: Seq<Card>|
        #[trigger] cards_at(cards, listed_positions(major, suit)) && (long ==> body =~~= details_page(cards))
            && (!long ==> is_sections_page(body, list_sections(cards, major, suit)))
}

/// Handle the `list` subcommand: the lines it prints
pub fn list_lines(major: bool, suit: Option<Suit>, long: bool) -> (r: Vec<Vec<Span>>)
    ensures
        is_list_page(page_view(r@), major, suit, long),
{
    let cards = listed_cards(major, suit);
    let title = list_title_text(major, suit);
    let mut page = header_lines(title.as_str());
    push_line(&mut page, blank_line());
    let body = if long {
        details_lines(&cards)
    } else {
        short_list_lines(&cards, major, suit)
    };
    let ghost bv = page_view(body@);
    append_page(&mut page, body);
    push_line(&mut page, blank_line());
    let mut tip: Vec<Span> = Vec::new();
    push_span(&mut tip, span("💡 Tip: Use 'arcana card <name>' for detailed information.", subtext()));
    push_line(&mut page, tip);
    proof {
        let pv = page_view(page@);
        assert(pv =~~= header_page(list_title(major, suit)) + seq![Seq::empty()] + bv + seq![Seq::empty(), list_tip()]);
        assert(pv.subrange(4, pv.len() - 2) =~~= bv);
        assert(cards_at(cards@, listed_positions(major, suit)));
    }
    page
}

/// What the `card` command prints: lines for standard output, lines for
/// standard error, and whether it fails.
pub struct CardOutput {
    pub out: Vec<Vec<Span>>,
    pub err: Vec<Vec<Span>>,
    pub failed: bool,
}

/// A header, an empty line and a row for each card.
pub open spec fn is_titled_rows(page: Seq<Seq<(Seq<char>, TextStyle)>>, title: Seq<char>, cards: Seq<Card>) -> bool {
    &&& page.len() >= 4
    &&& page.take(4) =~~= header_page(title) + seq![Seq::empty()]
    &&& is_card_rows(page.skip(4), cards)
}

fn titled_rows(title: &str, cards: &Vec<Card>) -> (r: Vec<Vec<Span>>)
    requires
        byte_len(header_title(title@)) <= 66,
    ensures
        is_titled_rows(page_view(r@), title@, cards@),
{
    let mut page = header_lines(title);
    push_line(&mut page, blank_line());
    let ghost head = page_view(page@);
    let rows = card_rows(cards);
    let ghost rv = page_view(rows@);
    append_page(&mut page, rows);
    assert(page_view(page@).take(4) =~~= head);
    assert(page_view(page@).skip(4) =~~= rv);
    page
}

/// The usage text of the `card` command.
pub open spec fn card_usage_page() -> Seq<Seq<(Seq<char>, TextStyle)>> {
    let p = plain_style();
    seq![
        seq![("Usage: arcana card <CARD_NAME>"@, bold_style())],
        Seq::empty(),
        seq![("Options:"@, p)],
        seq![("  --major       List all Major Arcana cards"@, p)],
        seq![("  --suit <SUIT> List all cards of a specific suit (wands, cups, swords, pentacles)"@, p)],
        Seq::empty(),
        seq![("Examples:"@, p)],
        seq![("  arcana card \"The Fool\""@, p)],
        seq![("  arcana card \"Ace of Wands\""@, p)],
        seq![("  arcana card --major"@, p)],
        seq![("  arcana card --suit cups"@, p)],
    ]
}

fn card_usage_lines() -> (r: Vec<Vec<Span>>)
    ensures
        page_view(r@) =~~= card_usage_page(),
{
    let mut page: Vec<Vec<Span>> = Vec::new();
    let mut first: Vec<Span> = Vec::new();
    push_span(&mut first, span("Usage: arcana card <CARD_NAME>", TextStyle { ink: None, bold: true, underlined: false }));
    push_line(&mut page, first);
    push_line(&mut page, blank_line());
    push_line(&mut page, text_line(copy_str("Options:")));
    push_line(&mut page, text_line(copy_str("  --major       List all Major Arcana cards")));
    push_line(&mut page, text_line(copy_str("  --suit <SUIT> List all cards of a specific suit (wands, cups, swords, pentacles)")));
    push_line(&mut page, blank_line());
    push_line(&mut page, text_line(copy_str("Examples:")));
    push_line(&mut page, text_line(copy_str("  arcana card \"The Fool\"")));
    push_line(&mut page, text_line(copy_str("  arcana card \"Ace of Wands\"")));
    push_line(&mut page, text_line(copy_str("  arcana card --major")));
    push_line(&mut page, text_line(copy_str("  arcana card --suit cups")));
    page
}

/// What the error output says when no card matches a name.
pub open spec fn not_found_page(name: Seq<char>) -> Seq<Seq<(Seq<char>, TextStyle)>> {
    seq![
        seq![("❌ Card not found: '"@ + name + "'"@, TextStyle { ink: Some(Ink::Red), bold: false, underlined: false })],
        Seq::empty(),
        seq![("Tip: Use 'arcana list' to see all available cards."@, plain_style())],
    ]
}

/// The header of a list of several matching cards.
pub open spec fn matches_head(name: Seq<char>) -> Seq<Seq<(Seq<char>, TextStyle)>> {
    seq![seq![("🔮 Multiple cards match '"@ + name + "'"@, mauve_style())], Seq::empty()]
}

/// The title of a suit's card list.
pub open spec fn suit_cards_title(s: Suit) -> Seq<char> {
    suit_heading(s) + " CARDS"@
}

/// Handle the `card` subcommand: with `major` the Major Arcana, with a suit
/// that suit's cards, with a name the card found (or the several matching
/// cards, or an error when none matches), with nothing the usage text
pub fn card_lines(name: Option<&str>, major: bool, suit: Option<Suit>) -> (r: CardOutput)
    ensures
        major ==> exists|cards: Seq<Card>|
            #[trigger] cards_at(cards, index_range(0, 22)) && is_titled_rows(page_view(r.out@), "MAJOR ARCANA CARDS"@, cards)
                && r.err@.len() == 0 && !r.failed,
        (!major && suit is Some) ==> exists|cards: Seq<Card>|
            #[trigger] cards_at(cards, deck_positions().filter(suit_pred(suit->0))) && is_titled_rows(
                page_view(r.out@),
                suit_cards_title(suit->0),
                cards,
            ) && r.err@.len() == 0 && !r.failed,
        (!major && suit is None && name is None) ==> page_view(r.out@) =~~= card_usage_page() && r.err@.len() == 0 && !r.failed,
        (!major && suit is None && name is Some) ==> {
            let n = name->0@;
            let hits = name_hits(n);
            &&& has_exact_name(n) ==> exists|c: Card| #[trigger] is_first_named(c, n) && page_view(r.out@) =~~= card_detail_page(c)
                && r.err@.len() == 0 && !r.failed
            &&& (!has_exact_name(n) && hits.len() == 1) ==> exists|c: Card| #[trigger] is_card_at(c, hits[0])
                && page_view(r.out@) =~~= card_detail_page(c) && r.err@.len() == 0 && !r.failed
            &&& (!has_exact_name(n) && hits.len() > 1) ==> exists|cards: Seq<Card>| #[trigger] cards_at(cards, hits)
                && page_view(r.out@).take(2) =~~= matches_head(n) && is_card_rows(page_view(r.out@).skip(2), cards)
                && r.err@.len() == 0 && !r.failed
            &&& (!has_exact_name(n) && hits.len() == 0) ==> r.out@.len() == 0 && page_view(r.err@) =~~= not_found_page(n)
                && r.failed
        },
{
    if major {
        let cards = major_arcana();
        let title = copy_str("MAJOR ARCANA CARDS");
        proof {
            reveal_strlit("MAJOR ARCANA CARDS");
            assert(ascii_text(title@));
            lemma_header_fits(title@);
        }
        let out = titled_rows(title.as_str(), &cards);
        return CardOutput { out, err: Vec::new(), failed: false };
    }
    if let Some(s) = suit {
        let cards = by_suit(s);
        let mut title = copy_str(suit_heading_str(s));
        title.append(" CARDS");
        proof {
            reveal_strlit(" CARDS");
            reveal_strlit("WANDS");
            reveal_strlit("CUPS");
            reveal_strlit("SWORDS");
            reveal_strlit("PENTACLES");
            assert(ascii_text(title@));
            lemma_header_fits(title@);
        }
        let out = titled_rows(title.as_str(), &cards);
        return CardOutput { out, err: Vec::new(), failed: false };
    }
    match name {
        None => CardOutput { out: card_usage_lines(), err: Vec::new(), failed: false },
        Some(n) => match card_lookup(n) {
            CardLookup::Found(card) => CardOutput { out: card_detail_lines(&card), err: Vec::new(), failed: false },
            CardLookup::Matches(cards) => {
                let mut out: Vec<Vec<Span>> = Vec::new();
                let mut head = copy_str("🔮 Multiple cards match '");
                head.append(n);
                head.append("'");
                let mut first: Vec<Span> = Vec::new();
                push_span(&mut first, span_of(head, mauve()));
                push_line(&mut out, first);
                push_line(&mut out, blank_line());
                let ghost hv = page_view(out@);
                let rows = card_rows(&cards);
                let ghost rv = page_view(rows@);
                append_page(&mut out, rows);
                assert(page_view(out@).take(2) =~~= hv);
                assert(page_view(out@).skip(2) =~~= rv);
                CardOutput { out, err: Vec::new(), failed: false }
            },
            CardLookup::NotFound => {
                let mut err: Vec<Vec<Span>> = Vec::new();
                let mut msg = copy_str("❌ Card not found: '");
                msg.append(n);
                msg.append("'");
                let mut first: Vec<Span> = Vec::new();
                push_span(&mut first, span_of(msg, TextStyle { ink: Some(Ink::Red), bold: false, underlined: false }));
                push_line(&mut err, first);
                push_line(&mut err, blank_line());
                push_line(&mut err, text_line(copy_str("Tip: Use 'arcana list' to see all available cards.")));
                CardOutput { out: Vec::new(), err, failed: true }
            },
        },
    }
}

/// The reading's spread: the one named, when a name is given (an unknown
/// name is refused), else the one of the chosen type
pub fn choose_spread(spread_type: SpreadType, spread_name: Option<&str>) -> (r: Result<Spread, ArcanaError>)
    ensures
        spread_name is None ==> (r matches Ok(s) && is_spread(s, spread_type)),
        spread_name matches Some(n) ==> match spread_alias(lowercase(n@)) {
            Some(t) => r matches Ok(s) && is_spread(s, t),
            None => r matches Err(ArcanaError::UnknownSpread(m)) && m@ == n@,
        },
{
    match spread_name {
        Some(n) => match get_by_name(n) {
            Some(s) => Ok(s),
            None => Err(ArcanaError::UnknownSpread(copy_str(n))),
        },
        None => Ok(spread_type.as_spread()),
    }
}

/// Draw a reading of a spread from a freshly shuffled full deck, with
/// reversals unless they are turned off
pub fn draw_reading(spread: Spread, no_reversals: bool) -> (r: Reading)
    ensures
        r.spread == spread,
        exists|d: DeckView|
            #[trigger] drawn_from(d, spread.positions@.len(), r.drawn@) && d.order.to_multiset() == identity_order(78).to_multiset()
                && d.order.len() == 78 && d.position == 0 && d.allow_reversals == !no_reversals
                && d.reversal_per_mille == DEFAULT_REVERSAL_PER_MILLE && d.shuffled,
        spread.positions@.len() <= 78 ==> r.drawn@.len() == spread.positions@.len(),
        no_reversals ==> forall|k: int| 0 <= k < r.drawn@.len() ==> !(#[trigger] r.drawn@[k]).reversed,
        forall|k1: int, k2: int|
            0 <= k1 < r.drawn@.len() && 0 <= k2 < r.drawn@.len() && k1 != k2 ==> #[trigger] r.drawn@[k1].card
                != #[trigger] r.drawn@[k2].card,
        r.timestamp.is_valid(),
        r.notes is None,
{
    let mut deck = Deck::new();
    deck.set_allow_reversals(!no_reversals);
    let ghost d = deck@;
    let drawn = deck.draw_many(spread.card_count());
    assert(drawn_from(d, spread.positions@.len(), drawn@));
    proof {
        law_draw_never_repeats_a_card(d, spread.positions@.len(), drawn@);
        assert forall|k: int| 0 <= k < drawn@.len() implies d.reversal_ok((#[trigger] drawn@[k]).reversed) by {
            assert(is_card_at(drawn@[k].card, d.order[d.position + k] as int));
        }
    }
    Reading::new(spread, drawn)
}

/// What a reading prints before its cards: the spread's name in capitals in
/// a header, and its description.
pub open spec fn read_head_page(spread: Spread) -> Seq<Seq<(Seq<char>, TextStyle)>> {
    header_page(std_uppercase(spread.name@)) + seq![
        Seq::empty(),
        seq![(spread.description@, subtext_style())],
        Seq::empty(),
    ]
}

/// The spread's name in capitals fits a header.
pub open spec fn spread_title_fits(spread: Spread) -> bool {
    byte_len(header_title(std_uppercase(spread.name@))) <= 66
}

/// The lines a reading prints before its cards
pub fn read_head_lines(spread: &Spread) -> (r: Vec<Vec<Span>>)
    requires
        spread_title_fits(*spread),
    ensures
        page_view(r@) =~~= read_head_page(*spread),
{
    let title = to_uppercase(spread.name);
    let mut page = header_lines(title.as_str());
    push_line(&mut page, blank_line());
    let mut desc: Vec<Span> = Vec::new();
    push_span(&mut desc, span(spread.description, subtext()));
    push_line(&mut page, desc);
    push_line(&mut page, blank_line());
    page
}

/// The lines a reading prints before its cards, when the spread's name in
/// capitals fits a header; none when it does not.
pub fn checked_read_head_lines(spread: &Spread) -> (r: Option<Vec<Vec<Span>>>)
    ensures
        r is Some <==> spread_title_fits(*spread),
        r matches Some(page) ==> page_view(page@) =~~= read_head_page(*spread),
{
    let upper = to_uppercase(spread.name);
    let mut title = String::new();
    title.append(" 🔮 ");
    title.append(upper.as_str());
    title.append(" ");
    let n = title.as_str().unicode_len();
    proof {
        assert(title@ == header_title(std_uppercase(spread.name@)));
        lemma_bytes_at_least_chars(title@);
        lemma_bytes_at_most(title@);
    }
    if n > 66 {
        return None;
    }
    if title.as_str().len() <= 66 {
        Some(read_head_lines(spread))
    } else {
        None
    }
}

/// What a reading prints after its cards: a closing line, and with `journal`
/// a note that saving from the command line is not available yet.
pub open spec fn read_tail_page(journal: bool) -> Seq<Seq<(Seq<char>, TextStyle)>> {
    seq![
        Seq::empty(),
        seq![("✨ Reading complete. May these cards guide your path."@, named_bold(Ink::Rgb(mocha().mauve)))],
    ] + if journal {
        seq![
            Seq::empty(),
            seq![("💾 Journal saving will be available in Phase 5."@, TextStyle { ink: Some(Ink::Yellow), bold: false, underlined: false })],
        ]
    } else {
        Seq::empty()
    }
}

/// The lines a reading prints after its cards
pub fn read_tail_lines(journal: bool) -> (r: Vec<Vec<Span>>)
    ensures
        page_view(r@) =~~= read_tail_page(journal),
{
    let mut page: Vec<Vec<Span>> = Vec::new();
    push_line(&mut page, blank_line());
    let mut done: Vec<Span> = Vec::new();
    push_span(&mut done, span("✨ Reading complete. May these cards guide your path.", TextStyle { ink: Some(Ink::Rgb(crate::ui::theme::theme().mauve)), bold: true, underlined: false }));
    push_line(&mut page, done);
    if journal {
        push_line(&mut page, blank_line());
        let mut note: Vec<Span> = Vec::new();
        push_span(&mut note, span("💾 Journal saving will be available in Phase 5.", TextStyle { ink: Some(Ink::Yellow), bold: false, underlined: false }));
        push_line(&mut page, note);
    }
    page
}

/// A position's row in the list of spreads: a mauve bullet, the name bold in
/// sky blue, and the description subdued.
pub open spec fn position_entry(p: SpreadPosition) -> Seq<(Seq<char>, TextStyle)> {
    seq![
        ("  "@, plain_style()),
        ("•"@, mauve_style()),
        (" "@, plain_style()),
        (p.name@, named_bold(Ink::Rgb(mocha().sky))),
        (" — "@, plain_style()),
        (p.description@, subtext_style()),
    ]
}

/// The rows of a spread's positions.
pub open spec fn position_entries(ps: Seq<SpreadPosition>) -> Seq<Seq<(Seq<char>, TextStyle)>> {
    Seq::new(ps.len(), |i: int| position_entry(ps[i]))
}

/// A spread's block in the list of spreads: a boxed header with its name and
/// number of cards, its description, an empty line and its positions.
pub open spec fn spread_block(s: Spread) -> Seq<Seq<(Seq<char>, TextStyle)>> {
    boxed_header_page(s.name@, decimal_text(s.positions@.len()) + " cards"@) + seq![
        seq![("  "@, plain_style()), (s.description@, subtext_style())],
        Seq::empty(),
    ] + position_entries(s.positions@)
}

/// The blocks of spreads, with an empty line between consecutive ones.
pub open spec fn spread_blocks(spreads: Seq<Spread>) -> Seq<Seq<(Seq<char>, TextStyle)>>
    decreases spreads.len(),
{
    if spreads.len() == 0 {
        Seq::empty()
    } else if spreads.len() == 1 {
        spread_block(spreads[0])
    } else {
        spread_blocks(spreads.drop_last()) + seq![Seq::empty()] + spread_block(spreads.last())
    }
}

/// The closing tip of the list of spreads.
pub open spec fn spreads_tip() -> Seq<(Seq<char>, TextStyle)> {
    seq![("💡 Tip: Use --no-reversals to draw all cards upright."@, subtext_style())]
}

/// A spread's header fits a `usize` count of bytes.
pub open spec fn spread_header_fits(s: Spread) -> bool {
    byte_len(boxed_header_text(s.name@, decimal_text(s.positions@.len()) + " cards"@)) + 2 <= usize::MAX
}

fn spread_block_lines(s: &Spread) -> (r: Vec<Vec<Span>>)
    requires
        spread_header_fits(*s),
    ensures
        page_view(r@) =~~= spread_block(*s),
{
    let mut count = decimal_string(s.card_count());
    count.append(" cards");
    let mut page = boxed_header_lines(s.name, count.as_str());
    let mut desc: Vec<Span> = Vec::new();
    push_span(&mut desc, span("  ", plain()));
    push_span(&mut desc, span(s.description, subtext()));
    push_line(&mut page, desc);
    push_line(&mut page, blank_line());
    let ghost head = page_view(page@);
    let mut i: usize = 0;
    assert(position_entries(s.positions@.take(0)) =~= Seq::<Seq<(Seq<char>, TextStyle)>>::empty());
    while i < s.positions.len()
        invariant
            i <= s.positions@.len(),
            page_view(page@) =~~= head + position_entries(s.positions@.take(i as int)),
        decreases s.positions@.len() - i,
    {
        let p = &s.positions[i];
        let mut row: Vec<Span> = Vec::new();
        push_span(&mut row, span("  ", plain()));
        push_span(&mut row, span("•", mauve()));
        push_span(&mut row, span(" ", plain()));
        push_span(&mut row, span(p.name, TextStyle { ink: Some(Ink::Rgb(crate::ui::theme::theme().sky)), bold: true, underlined: false }));
        push_span(&mut row, span(" — ", plain()));
        push_span(&mut row, span(p.description, subtext()));
        proof {
            assert(position_entries(s.positions@.take(i + 1)) =~~= position_entries(s.positions@.take(i as int)).push(
                position_entry(s.positions@[i as int]),
            ));
        }
        push_line(&mut page, row);
        i = i + 1;
    }
    assert(s.positions@.take(s.positions@.len() as int) =~= s.positions@);
    page
}

/// What the `spreads` command prints about some spreads: a header, each
/// spread's block, and a tip.
pub open spec fn spreads_page(spreads: Seq<Spread>) -> Seq<Seq<(Seq<char>, TextStyle)>> {
    header_page("AVAILABLE SPREADS"@) + seq![Seq::empty()] + spread_blocks(spreads) + seq![
        Seq::empty(),
        spreads_tip(),
    ]
}

/// Handle the `spreads` subcommand: its lines, about the six spreads in order
pub fn spreads_lines() -> (r: Vec<Vec<Span>>)
    ensures
        exists|spreads: Seq<Spread>|
            #[trigger] spreads.len() == 6 && (forall|i: int| 0 <= i < 6 ==> is_spread(#[trigger] spreads[i], spread_order(i)))
                && page_view(r@) =~~= spreads_page(spreads),
{
    let spreads = all_spreads();
    let title = copy_str("AVAILABLE SPREADS");
    proof {
        reveal_strlit("AVAILABLE SPREADS");
        assert(ascii_text(title@));
        lemma_header_fits(title@);
    }
    let mut page = header_lines(title.as_str());
    push_line(&mut page, blank_line());
    let ghost head = page_view(page@);
    let mut blocks: Vec<Vec<Span>> = Vec::new();
    let mut i: usize = 0;
    assert(page_view(blocks@) =~~= spread_blocks(spreads@.take(0)));
    while i < spreads.len()
        invariant
            i <= spreads@.len(),
            spreads@.len() == 6,
            forall|k: int| 0 <= k < 6 ==> is_spread(#[trigger] spreads@[k], spread_order(k)),
            page_view(blocks@) =~~= spread_blocks(spreads@.take(i as int)),
        decreases spreads@.len() - i,
    {
        if i > 0 {
            push_line(&mut blocks, blank_line());
        }
        proof {
            lemma_spread_header_fits(spreads@[i as int], spread_order(i as int));
        }
        let block = spread_block_lines(&spreads[i]);
        append_page(&mut blocks, block);
        proof {
            assert(spreads@.take(i + 1).drop_last() =~= spreads@.take(i as int));
            assert(spreads@.take(i + 1).last() == spreads@[i as int]);
            if i == 0 {
                assert(spreads@.take(1) =~= seq![spreads@[0]]);
            }
        }
        i = i + 1;
    }
    assert(spreads@.take(6) =~= spreads@);
    let ghost bv = page_view(blocks@);
    append_page(&mut page, blocks);
    push_line(&mut page, blank_line());
    let mut tip: Vec<Span> = Vec::new();
    push_span(&mut tip, span("💡 Tip: Use --no-reversals to draw all cards upright.", subtext()));
    push_line(&mut page, tip);
    assert(page_view(page@) =~~= spreads_page(spreads@));
    page
}

/// The header of each of the six spreads fits in a `usize` count of bytes:
/// their names are short.
proof fn lemma_spread_header_fits(s: Spread, t: SpreadType)
    requires
        is_spread(s, t),
    ensures
        spread_header_fits(s),
{
    let n = s.positions@.len();
    assert(n <= 10);
    if n >= 10 {
        assert(decimal_text(n / 10).len() == 1);
    }
    assert(decimal_text(n).len() <= 2);
    reveal_strlit("Single Card");
    reveal_strlit("Three-Card Spread");
    reveal_strlit("Situation-Action-Outcome");
    reveal_strlit("Mind-Body-Spirit");
    reveal_strlit("Five-Card Cross");
    reveal_strlit("Celtic Cross");
    assert(s.name@.len() <= 24);
    let text = boxed_header_text(s.name@, decimal_text(n) + " cards"@);
    reveal_strlit(" ");
    reveal_strlit(" (");
    reveal_strlit(" cards");
    reveal_strlit(")");
    assert(text.len() <= 40);
    lemma_bytes_at_most(text);
}

} // verus!
