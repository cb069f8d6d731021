//! TUI application state and the rules that move it

use vstd::prelude::*;

use crate::cards::{Card, Suit};
use crate::deck::utils::{by_suit, index_range, major_arcana, suit_pred};
use crate::deck::{
    cards_at, date_hash, daily_index, deck_positions, drawn_from, identity_order, is_card_at, Deck,
    DeckView,
    DEFAULT_REVERSAL_PER_MILLE,
};
use crate::error::{io_error_other, ArcanaError};
use crate::journal::{reading_file_name_text, Journal, JournalEntry};
use crate::spreads::reading::{lines_text, markdown_lines, notes_view, Reading};
use crate::spreads::{all_spreads, is_spread, spread_order, Spread};
use crate::text::{
    contains_chars, is_substring, lowercase_chars, pop_char, push_char, lowercase,
};
use crate::timestamp::{local_now, CalendarDate};
use crate::ui::theme::Rgb;

verus! {

/// Screens in the TUI application
#[derive(Debug, Clone, Copy, PartialEq, Eq, Structural)]
pub enum Screen {
    Home,
    NewReading,
    SpreadSelection,
    ShuffleAnimation,
    CardReveal,
    ReadingComplete,
    ReadingNotes,
    CardBrowser,
    CardDetail,
    DailyCard,
    Journal,
    JournalDetail,
    Help,
    Quit,
}

/// Menu items for the home screen
#[derive(Debug, Clone, Copy, PartialEq, Eq, Structural)]
pub enum MenuItem {
    NewReading,
    DailyCard,
    BrowseCards,
    Journal,
    Help,
    Quit,
}

/// The label of each menu item.
pub open spec fn menu_label(m: MenuItem) -> &'static str {
    match m {
        MenuItem::NewReading => "🔮  New Reading",
        MenuItem::DailyCard => "🌅  Daily Card",
        MenuItem::BrowseCards => "📖  Browse Cards",
        MenuItem::Journal => "📓  Journal",
        MenuItem::Help => "❓  Help",
        MenuItem::Quit => "👋  Quit",
    }
}

impl MenuItem {
    /// The label shown for the item
    pub fn as_str(&self) -> (s: &'static str)
        ensures
            s == menu_label(*self),
    {
        match self {
            MenuItem::NewReading => "🔮  New Reading",
            MenuItem::DailyCard => "🌅  Daily Card",
            MenuItem::BrowseCards => "📖  Browse Cards",
            MenuItem::Journal => "📓  Journal",
            MenuItem::Help => "❓  Help",
            MenuItem::Quit => "👋  Quit",
        }
    }
}

/// The home menu, in the order it is shown.
pub open spec fn menu_order() -> Seq<MenuItem> {
    seq![
        MenuItem::NewReading,
        MenuItem::DailyCard,
        MenuItem::BrowseCards,
        MenuItem::Journal,
        MenuItem::Help,
        MenuItem::Quit,
    ]
}

/// Filter options for card browser
#[derive(Debug, Clone, Copy, PartialEq, Eq, Structural)]
pub enum CardFilter {
    All,
    Major,
    Suit(Suit),
}

/// The filter that follows each one: all cards, the Major Arcana, then each
/// suit from Wands to Pentacles, and back to all cards.
pub open spec fn next_filter(f: CardFilter) -> CardFilter {
    match f {
        CardFilter::All => CardFilter::Major,
        CardFilter::Major => CardFilter::Suit(Suit::Wands),
        CardFilter::Suit(Suit::Wands) => CardFilter::Suit(Suit::Cups),
        CardFilter::Suit(Suit::Cups) => CardFilter::Suit(Suit::Swords),
        CardFilter::Suit(Suit::Swords) => CardFilter::Suit(Suit::Pentacles),
        CardFilter::Suit(Suit::Pentacles) => CardFilter::All,
    }
}

/// A key the application reacts to.
#[derive(Debug, Clone, Copy, PartialEq, Eq, Structural)]
pub enum Key {
    Char(char),
    Enter,
    Esc,
    Backspace,
    Tab,
    Up,
    Down,
    Left,
    Right,
    Other,
}

/// Catppuccin Mocha theme for TUI
#[derive(Debug, Clone, Copy, PartialEq, Eq, Structural)]
pub struct AppTheme {
    pub surface0: Rgb,
    pub surface1: Rgb,
    pub text: Rgb,
    pub subtext0: Rgb,
    pub lavender: Rgb,
    pub mauve: Rgb,
    pub pink: Rgb,
    pub red: Rgb,
    pub peach: Rgb,
    pub green: Rgb,
    pub yellow: Rgb,
    pub sky: Rgb,
}

/// The Catppuccin Mocha colours of the terminal application.
pub open spec fn mocha_app_theme() -> AppTheme {
    AppTheme {
        surface0: Rgb { r: 49, g: 50, b: 68 },
        surface1: Rgb { r: 69, g: 71, b: 90 },
        text: Rgb { r: 205, g: 214, b: 244 },
        subtext0: Rgb { r: 166, g: 173, b: 200 },
        lavender: Rgb { r: 180, g: 190, b: 254 },
        mauve: Rgb { r: 203, g: 166, b: 247 },
        pink: Rgb { r: 245, g: 194, b: 231 },
        red: Rgb { r: 243, g: 139, b: 168 },
        peach: Rgb { r: 250, g: 179, b: 135 },
        green: Rgb { r: 166, g: 227, b: 161 },
        yellow: Rgb { r: 249, g: 226, b: 175 },
        sky: Rgb { r: 137, g: 220, b: 235 },
    }
}

impl Default for AppTheme {
    fn default() -> (t: AppTheme)
        ensures
            t == mocha_app_theme(),
    {
        AppTheme {
            surface0: Rgb { r: 49, g: 50, b: 68 },
            surface1: Rgb { r: 69, g: 71, b: 90 },
            text: Rgb { r: 205, g: 214, b: 244 },
            subtext0: Rgb { r: 166, g: 173, b: 200 },
            lavender: Rgb { r: 180, g: 190, b: 254 },
            mauve: Rgb { r: 203, g: 166, b: 247 },
            pink: Rgb { r: 245, g: 194, b: 231 },
            red: Rgb { r: 243, g: 139, b: 168 },
            peach: Rgb { r: 250, g: 179, b: 135 },
            green: Rgb { r: 166, g: 227, b: 161 },
            yellow: Rgb { r: 249, g: 226, b: 175 },
            sky: Rgb { r: 137, g: 220, b: 235 },
        }
    }
}

/// The colour of each suit in the application's theme.
pub open spec fn app_suit_color(t: AppTheme, suit: Suit) -> Rgb {
    match suit {
        Suit::Wands => t.peach,
        Suit::Cups => t.pink,
        Suit::Swords => t.red,
        Suit::Pentacles => t.green,
    }
}

impl AppTheme {
    /// The colour of a suit: Wands peach, Cups pink, Swords red, Pentacles green
    pub fn suit_color(&self, suit: Suit) -> (c: Rgb)
        ensures
            c == app_suit_color(*self, suit),
    {
        match suit {
            Suit::Wands => self.peach,
            Suit::Cups => self.pink,
            Suit::Swords => self.red,
            Suit::Pentacles => self.green,
        }
    }
}

/// The selection after moving down a list of `len` items: the next item,
/// wrapping from the last to the first; the first when nothing was selected.
pub open spec fn step_forward(sel: Option<usize>, len: nat) -> Option<usize> {
    match sel {
        Some(i) => Some(((i + 1) % (len as int)) as usize),
        None => Some(0usize),
    }
}

/// The selection after moving up a list of `len` items: the previous item,
/// wrapping from the first to the last (the first of an empty list); the
/// first when nothing was selected.
pub open spec fn step_back(sel: Option<usize>, len: nat) -> Option<usize> {
    match sel {
        Some(i) => if i == 0 {
            if len == 0 {
                Some(0usize)
            } else {
                Some((len - 1) as usize)
            }
        } else {
            Some((i - 1) as usize)
        },
        None => Some(0usize),
    }
}

/// The item at a selection, if the selection is within the list.
pub open spec fn item_at<T>(items: Seq<T>, sel: Option<usize>) -> Option<T> {
    match sel {
        Some(i) => if i < items.len() {
            Some(items[i as int])
        } else {
            None
        },
        None => None,
    }
}

/// The number of ticks the shuffle animation lasts.
pub const SHUFFLE_TICKS: u32 = 20;

/// Main application state
pub struct App {
    pub screen: Screen,
    pub should_quit: bool,
    // Home menu
    pub menu_items: Vec<MenuItem>,
    pub menu_selected: Option<usize>,
    // Card browser
    pub cards: Vec<Card>,
    pub card_selected: Option<usize>,
    pub card_filter: CardFilter,
    pub selected_card: Option<Card>,
    pub card_search_active: bool,
    pub card_search_query: String,
    // Reading
    pub deck: Deck,
    pub selected_spread: Option<Spread>,
    pub reading: Option<Reading>,
    pub reveal_index: usize,
    pub spread_options: Vec<Spread>,
    pub spread_selected: Option<usize>,
    // Animation: ticks since the shuffle began
    pub shuffle_ticks: u32,
    // Theme
    pub theme: AppTheme,
    // Journal
    pub journal: Journal,
    pub journal_entries: Vec<JournalEntry>,
    pub journal_selected: Option<usize>,
    pub selected_journal_entry: Option<(JournalEntry, String)>,
    // Daily card
    pub daily_card: Option<Card>,
    // Reading notes
    pub reading_notes: String,
}

impl App {
    /// The home menu holds its six items and the menu and spread selections
    /// lie within their lists.
    pub open spec fn wf(&self) -> bool {
        &&& self.menu_items@ == menu_order()
        &&& (self.menu_selected matches Some(i) ==> i < 6)
        &&& self.spread_options@.len() == 6
        &&& (self.spread_selected matches Some(i) ==> i < 6)
        &&& (self.reading matches Some(r) ==> r.timestamp.is_valid())
    }
}

impl App {
    /// A fresh application on the home screen: all 78 cards listed, a newly
    /// shuffled deck, the six spreads offered, the first menu item, card and
    /// spread selected, and the given journal
    pub fn new(journal: Journal) -> (app: App)
        ensures
            app.wf(),
            app.screen == Screen::Home,
            !app.should_quit,
            app.menu_selected == Some(0usize),
            cards_at(app.cards@, deck_positions()),
            app.card_selected == Some(0usize),
            app.card_filter == CardFilter::All,
            app.selected_card is None,
            !app.card_search_active,
            app.card_search_query@.len() == 0,
            app.deck@.order.to_multiset() == identity_order(78).to_multiset(),
            app.deck@.order.len() == 78,
            app.deck@.position == 0,
            app.deck@.allow_reversals,
            app.deck@.reversal_per_mille == DEFAULT_REVERSAL_PER_MILLE,
            app.selected_spread is None,
            app.reading is None,
            app.reveal_index == 0,
            forall|i: int| 0 <= i < 6 ==> is_spread(#[trigger] app.spread_options@[i], spread_order(i)),
            app.spread_selected == Some(0usize),
            app.shuffle_ticks == 0,
            app.theme == mocha_app_theme(),
            app.journal@ == journal@,
            app.journal_entries@.len() == 0,
            app.journal_selected is None,
            app.selected_journal_entry is None,
            app.daily_card is None,
            app.reading_notes@.len() == 0,
    {
        let mut menu_items: Vec<MenuItem> = Vec::new();
        menu_items.push(MenuItem::NewReading);
        menu_items.push(MenuItem::DailyCard);
        menu_items.push(MenuItem::BrowseCards);
        menu_items.push(MenuItem::Journal);
        menu_items.push(MenuItem::Help);
        menu_items.push(MenuItem::Quit);
        assert(menu_items@ =~= menu_order());
        let cards = Deck::iter_all_cards();
        assert(cards_at(cards@, deck_positions()));
        App {
            screen: Screen::Home,
            should_quit: false,
            menu_items,
            menu_selected: Some(0),
            cards,
            card_selected: Some(0),
            card_filter: CardFilter::All,
            selected_card: None,
            card_search_active: false,
            card_search_query: String::new(),
            deck: Deck::new(),
            selected_spread: None,
            reading: None,
            reveal_index: 0,
            spread_options: all_spreads(),
            spread_selected: Some(0),
            shuffle_ticks: 0,
            theme: AppTheme::default(),
            journal,
            journal_entries: Vec::new(),
            journal_selected: None,
            selected_journal_entry: None,
            daily_card: None,
            reading_notes: String::new(),
        }
    }

    /// Move the home menu selection down, wrapping to the top
    pub fn next_menu_item(&mut self)
        requires
            old(self).wf(),
        ensures
            *final(self) == (App { menu_selected: step_forward(old(self).menu_selected, 6), ..*old(self) }),
            final(self).wf(),
    {
        let i: usize = match self.menu_selected {
            Some(i) => (i + 1) % self.menu_items.len(),
            None => 0,
        };
        self.menu_selected = Some(i);
    }

    /// Move the home menu selection up, wrapping to the bottom
    pub fn previous_menu_item(&mut self)
        requires
            old(self).wf(),
        ensures
            *final(self) == (App { menu_selected: step_back(old(self).menu_selected, 6), ..*old(self) }),
            final(self).wf(),
    {
        let i: usize = match self.menu_selected {
            Some(i) => {
                if i == 0 {
                    self.menu_items.len() - 1
                } else {
                    i - 1
                }
            },
            None => 0,
        };
        self.menu_selected = Some(i);
    }

    /// Move the card browser selection down, wrapping to the top
    pub fn next_card(&mut self)
        requires
            old(self).card_selected matches Some(i) ==> i < usize::MAX && old(self).cards@.len() > 0,
        ensures
            *final(self) == (App {
                card_selected: step_forward(old(self).card_selected, old(self).cards@.len()),
                selected_card: item_at(
                    old(self).cards@,
                    step_forward(old(self).card_selected, old(self).cards@.len()),
                ),
                ..*old(self)
            }),
    {
        let i: usize = match self.card_selected {
            Some(i) => (i + 1) % self.cards.len(),
            None => 0,
        };
        self.card_selected = Some(i);
        self.selected_card = if i < self.cards.len() {
            Some(self.cards[i])
        } else {
            None
        };
    }

    /// Move the card browser selection up, wrapping to the bottom
    pub fn previous_card(&mut self)
        ensures
            *final(self) == (App {
                card_selected: step_back(old(self).card_selected, old(self).cards@.len()),
                selected_card: item_at(
                    old(self).cards@,
                    step_back(old(self).card_selected, old(self).cards@.len()),
                ),
                ..*old(self)
            }),
    {
        let i: usize = match self.card_selected {
            Some(i) => {
                if i == 0 {
                    if self.cards.len() == 0 {
                        0
                    } else {
                        self.cards.len() - 1
                    }
                } else {
                    i - 1
                }
            },
            None => 0,
        };
        self.card_selected = Some(i);
        self.selected_card = if i < self.cards.len() {
            Some(self.cards[i])
        } else {
            None
        };
    }

    /// Move the spread selection down, wrapping to the top
    pub fn next_spread(&mut self)
        requires
            old(self).wf(),
        ensures
            *final(self) == (App { spread_selected: step_forward(old(self).spread_selected, 6), ..*old(self) }),
            final(self).wf(),
    {
        let i: usize = match self.spread_selected {
            Some(i) => (i + 1) % self.spread_options.len(),
            None => 0,
        };
        self.spread_selected = Some(i);
    }

    /// Move the spread selection up, wrapping to the bottom
    pub fn previous_spread(&mut self)
        requires
            old(self).wf(),
        ensures
            *final(self) == (App { spread_selected: step_back(old(self).spread_selected, 6), ..*old(self) }),
            final(self).wf(),
    {
        let i: usize = match self.spread_selected {
            Some(i) => {
                if i == 0 {
                    self.spread_options.len() - 1
                } else {
                    i - 1
                }
            },
            None => 0,
        };
        self.spread_selected = Some(i);
    }

    /// Move the journal selection down, wrapping to the top; nothing happens
    /// while the journal is empty
    pub fn next_journal_entry(&mut self)
        requires
            old(self).journal_selected matches Some(i) ==> i < usize::MAX,
        ensures
            old(self).journal_entries@.len() == 0 ==> *final(self) == *old(self),
            old(self).journal_entries@.len() > 0 ==> *final(self) == (App {
                journal_selected: step_forward(old(self).journal_selected, old(self).journal_entries@.len()),
                ..*old(self)
            }),
    {
        if self.journal_entries.len() == 0 {
            return;
        }
        let i: usize = match self.journal_selected {
            Some(i) => (i + 1) % self.journal_entries.len(),
            None => 0,
        };
        self.journal_selected = Some(i);
    }

    /// Move the journal selection up, wrapping to the bottom; nothing happens
    /// while the journal is empty
    pub fn previous_journal_entry(&mut self)
        ensures
            old(self).journal_entries@.len() == 0 ==> *final(self) == *old(self),
            old(self).journal_entries@.len() > 0 ==> *final(self) == (App {
                journal_selected: step_back(old(self).journal_selected, old(self).journal_entries@.len()),
                ..*old(self)
            }),
    {
        if self.journal_entries.len() == 0 {
            return;
        }
        let i: usize = match self.journal_selected {
            Some(i) => {
                if i == 0 {
                    self.journal_entries.len() - 1
                } else {
                    i - 1
                }
            },
            None => 0,
        };
        self.journal_selected = Some(i);
    }
}

/// The positions in the deck of the cards a filter lists, in deck order.
pub open spec fn filter_positions(f: CardFilter) -> Seq<int> {
    match f {
        CardFilter::All => deck_positions(),
        CardFilter::Major => index_range(0, 22),
        CardFilter::Suit(s) => deck_positions().filter(suit_pred(s)),
    }
}

/// A card matches a (lowercase) search query when the lowercase of its name,
/// or of one of its keywords, contains the query.
pub open spec fn card_matches(c: Card, query: Seq<char>) -> bool {
    ||| is_substring(query, lowercase(c.name@))
    ||| exists|k: int|
        0 <= k < c.keywords@.len() && is_substring(query, lowercase(#[trigger] c.keywords@[k]@))
}

/// The cards that match a (lowercase) search query.
pub open spec fn matches_pred(query: Seq<char>) -> spec_fn(Card) -> bool {
    |c: Card| card_matches(c, query)
}

/// The search narrows the card list: it is active and its query is not empty.
pub open spec fn search_applies(a: App) -> bool {
    a.card_search_active && a.card_search_query@.len() > 0
}

/// The cards a listing shows out of the filter's cards: those that match the
/// lowercase query while the search applies, all of them otherwise.
pub open spec fn searched(a: App, base: Seq<Card>) -> Seq<Card> {
    if search_applies(a) {
        base.filter(matches_pred(lowercase(a.card_search_query@)))
    } else {
        base
    }
}

/// The selection kept after the card list changes: none for an empty list,
/// else the old selection (the first card when there was none), moved back
/// to the last card if it lies past the end.
pub open spec fn kept_selection(sel: Option<usize>, len: nat) -> Option<usize> {
    if len == 0 {
        None
    } else {
        let i: int = match sel {
            Some(i) => i as int,
            None => 0,
        };
        Some(if i < len { i as usize } else { (len - 1) as usize })
    }
}

/// `b` is `a` with its card list rebuilt from the filter and the search, and
/// the selection kept within it.
pub open spec fn refreshed(a: App, b: App) -> bool {
    &&& exists|base: Seq<Card>|
        #[trigger] cards_at(base, filter_positions(a.card_filter)) && b.cards@ == searched(a, base)
    &&& b.card_selected == kept_selection(a.card_selected, b.cards@.len())
    &&& b.selected_card == item_at(b.cards@, b.card_selected)
    &&& b == (App { cards: b.cards, card_selected: b.card_selected, selected_card: b.selected_card, ..a })
}

/// Whether the card's name or one of its keywords, in lowercase, contains the query.
fn card_matches_query(card: &Card, query: &Vec<char>) -> (b: bool)
    ensures
        b == card_matches(*card, query@),
{
    let name = lowercase_chars(card.name);
    if contains_chars(&name, query) {
        return true;
    }
    let mut k: usize = 0;
    while k < card.keywords.len()
        invariant
            k <= card.keywords@.len(),
            !is_substring(query@, lowercase(card.name@)),
            forall|j: int| 0 <= j < k ==> !is_substring(query@, lowercase(#[trigger] card.keywords@[j]@)),
        decreases card.keywords@.len() - k,
    {
        let kw = lowercase_chars(card.keywords[k]);
        if contains_chars(&kw, query) {
            assert(is_substring(query@, lowercase(card.keywords@[k as int]@)));
            return true;
        }
        k = k + 1;
    }
    false
}

/// The cards of a list that match a query, in order.
fn matching_cards(base: &Vec<Card>, query: &Vec<char>) -> (r: Vec<Card>)
    ensures
        r@ == base@.filter(matches_pred(query@)),
{
    let ghost pred = matches_pred(query@);
    let mut r: Vec<Card> = Vec::new();
    let mut i: usize = 0;
    while i < base.len()
        invariant
            i <= base@.len(),
            pred == matches_pred(query@),
            r@ == base@.take(i as int).filter(pred),
        decreases base@.len() - i,
    {
        let c = base[i];
        proof {
            assert(base@.take(i + 1) =~= base@.take(i as int).push(c));
            base@.take(i as int).lemma_filter_push(c, pred);
        }
        if card_matches_query(&c, query) {
            r.push(c);
        }
        i = i + 1;
    }
    assert(base@.take(base@.len() as int) =~= base@);
    r
}

impl App {
    /// The cards of the current filter, in deck order.
    fn filter_cards(&self) -> (v: Vec<Card>)
        ensures
            cards_at(v@, filter_positions(self.card_filter)),
    {
        match self.card_filter {
            CardFilter::All => {
                let v = Deck::iter_all_cards();
                assert(cards_at(v@, deck_positions()));
                v
            },
            CardFilter::Major => major_arcana(),
            CardFilter::Suit(suit) => by_suit(suit),
        }
    }

    /// Rebuild the card list from the filter and, while it applies, the
    /// search query, keeping the selection within the new list
    pub fn refresh_card_list(&mut self)
        ensures
            refreshed(*old(self), *final(self)),
    {
        let base = self.filter_cards();
        let cards = if self.card_search_active && !self.card_search_query.as_str().is_empty() {
            let query = lowercase_chars(self.card_search_query.as_str());
            matching_cards(&base, &query)
        } else {
            base
        };
        assert(cards_at(base@, filter_positions(self.card_filter)));
        self.cards = cards;
        if self.cards.len() == 0 {
            self.card_selected = None;
            self.selected_card = None;
        } else {
            let start: usize = match self.card_selected {
                Some(i) => i,
                None => 0,
            };
            let i = if start < self.cards.len() {
                start
            } else {
                self.cards.len() - 1
            };
            self.card_selected = Some(i);
            self.selected_card = Some(self.cards[i]);
        }
    }

    /// Move to the next filter (all, Major Arcana, each suit in turn) and
    /// rebuild the card list
    pub fn cycle_card_filter(&mut self)
        ensures
            refreshed(App { card_filter: next_filter(old(self).card_filter), ..*old(self) }, *final(self)),
    {
        self.card_filter = match self.card_filter {
            CardFilter::All => CardFilter::Major,
            CardFilter::Major => CardFilter::Suit(Suit::Wands),
            CardFilter::Suit(Suit::Wands) => CardFilter::Suit(Suit::Cups),
            CardFilter::Suit(Suit::Cups) => CardFilter::Suit(Suit::Swords),
            CardFilter::Suit(Suit::Swords) => CardFilter::Suit(Suit::Pentacles),
            CardFilter::Suit(Suit::Pentacles) => CardFilter::All,
        };
        self.refresh_card_list();
    }
}

/// The deck was put back to its first card and shuffled again: the same
/// cards in some order, the same reversal settings.
pub open spec fn reshuffled(d0: DeckView, d1: DeckView) -> bool {
    &&& d1.order.to_multiset() == d0.order.to_multiset()
    &&& d1.order.len() == d0.order.len()
    &&& d1.position == 0
    &&& d1.allow_reversals == d0.allow_reversals
    &&& d1.reversal_per_mille == d0.reversal_per_mille
    &&& d1.wf()
}

/// The card is the card of the day of some valid date.
pub open spec fn is_daily_card(c: Card) -> bool {
    exists|d: CalendarDate| d.is_valid() && #[trigger] is_card_at(c, daily_index(date_hash(d)))
}

/// `b` is `a` after the selected spread was taken and the shuffle began.
pub open spec fn reading_started(a: App, b: App) -> bool {
    match a.spread_selected {
        Some(i) => b == (App {
            selected_spread: Some(a.spread_options@[i as int]),
            screen: Screen::ShuffleAnimation,
            shuffle_ticks: 0,
            ..a
        }),
        None => b == a,
    }
}

/// `b` is `a` after revealing the next card: the following card, or the
/// finished reading after the last one.
pub open spec fn revealed_next(a: App, b: App) -> bool {
    match a.reading {
        None => b == a,
        Some(r) => if a.reveal_index + 1 < r.drawn@.len() {
            b == (App { reveal_index: (a.reveal_index + 1) as usize, ..a })
        } else {
            b == (App { screen: Screen::ReadingComplete, ..a })
        },
    }
}

/// `b` is `a` after going back one card, if it was not at the first.
pub open spec fn revealed_previous(a: App, b: App) -> bool {
    if a.reveal_index > 0 {
        b == (App { reveal_index: (a.reveal_index - 1) as usize, ..a })
    } else {
        b == a
    }
}

/// `b` is `a` after choosing the selected home menu item.
pub open spec fn menu_chosen(a: App, b: App) -> bool {
    match item_at(a.menu_items@, a.menu_selected) {
        None => b == a,
        Some(MenuItem::NewReading) => {
            &&& b == (App { screen: Screen::SpreadSelection, deck: b.deck, ..a })
            &&& reshuffled(a.deck@, b.deck@)
        },
        Some(MenuItem::DailyCard) => {
            &&& b == (App { screen: Screen::DailyCard, daily_card: b.daily_card, ..a })
            &&& b.daily_card matches Some(c) && is_daily_card(c)
        },
        Some(MenuItem::BrowseCards) => refreshed(App { screen: Screen::CardBrowser, ..a }, b),
        Some(MenuItem::Journal) => b == (App { screen: Screen::Journal, ..a }),
        Some(MenuItem::Help) => b == (App { screen: Screen::Help, ..a }),
        Some(MenuItem::Quit) => b == (App { should_quit: true, ..a }),
    }
}

/// `b` is `a` after the chosen spread's cards were drawn into a new reading.
pub open spec fn shuffle_completed(a: App, b: App) -> bool {
    match a.selected_spread {
        None => b == a,
        Some(spread) => {
            &&& b.reading matches Some(r)
            &&& r.spread == spread
            &&& drawn_from(a.deck@, spread.positions@.len(), r.drawn@)
            &&& r.timestamp.is_valid()
            &&& r.notes is None
            &&& b.deck@ == a.deck@.advanced(r.drawn@.len())
            &&& b == (App {
                deck: b.deck,
                reading: b.reading,
                reveal_index: 0,
                screen: Screen::CardReveal,
                ..a
            })
        },
    }
}

/// `b` is `a` after one tick of the clock: during the shuffle animation the
/// tick is counted, and the cards are drawn once it has lasted its ticks.
pub open spec fn ticked(a: App, b: App) -> bool {
    if a.screen == Screen::ShuffleAnimation {
        let t: u32 = if a.shuffle_ticks < u32::MAX {
            (a.shuffle_ticks + 1) as u32
        } else {
            a.shuffle_ticks
        };
        let mid = App { shuffle_ticks: t, ..a };
        if t >= SHUFFLE_TICKS {
            shuffle_completed(mid, b)
        } else {
            b == mid
        }
    } else {
        b == a
    }
}

/// `b` is `a` after stepping back from its screen.
pub open spec fn went_back(a: App, b: App) -> bool {
    match a.screen {
        Screen::Home | Screen::Quit => b == a,
        Screen::SpreadSelection | Screen::CardBrowser | Screen::Journal | Screen::Help => b == (App {
            screen: Screen::Home,
            ..a
        }),
        Screen::DailyCard => b == (App { screen: Screen::Home, daily_card: None, ..a }),
        Screen::ReadingNotes => {
            &&& b == (App { screen: Screen::ReadingComplete, reading_notes: b.reading_notes, ..a })
            &&& b.reading_notes@.len() == 0
        },
        Screen::JournalDetail => b == (App { screen: Screen::Journal, selected_journal_entry: None, ..a }),
        Screen::ShuffleAnimation | Screen::CardReveal | Screen::ReadingComplete => b == (App {
            screen: Screen::Home,
            reading: None,
            reveal_index: 0,
            ..a
        }),
        Screen::CardDetail => b == (App { screen: Screen::CardBrowser, selected_card: None, ..a }),
        Screen::NewReading => b == (App { screen: Screen::SpreadSelection, ..a }),
    }
}

impl App {
    /// Act on the selected home menu item: begin a reading with a freshly
    /// shuffled deck, show the card of the day, open the card browser, the
    /// journal or the help, or quit
    pub fn select_menu_item(&mut self)
        requires
            old(self).wf(),
        ensures
            menu_chosen(*old(self), *final(self)),
            final(self).wf(),
    {
        if let Some(i) = self.menu_selected {
            match self.menu_items[i] {
                MenuItem::NewReading => {
                    self.screen = Screen::SpreadSelection;
                    self.deck.reset_and_shuffle();
                },
                MenuItem::DailyCard => {
                    let today = local_now().date;
                    let drawn = Deck::daily_card(today);
                    self.daily_card = Some(drawn.card);
                    self.screen = Screen::DailyCard;
                },
                MenuItem::BrowseCards => {
                    self.screen = Screen::CardBrowser;
                    self.refresh_card_list();
                },
                MenuItem::Journal => {
                    self.screen = Screen::Journal;
                },
                MenuItem::Help => {
                    self.screen = Screen::Help;
                },
                MenuItem::Quit => {
                    self.should_quit = true;
                },
            }
        }
    }

    /// Take the selected spread and begin the shuffle animation
    pub fn start_reading(&mut self)
        requires
            old(self).wf(),
        ensures
            reading_started(*old(self), *final(self)),
            final(self).wf(),
    {
        if let Some(i) = self.spread_selected {
            self.selected_spread = Some(self.spread_options[i]);
            self.screen = Screen::ShuffleAnimation;
            self.shuffle_ticks = 0;
        }
    }

    /// Draw the chosen spread's cards into a new reading and begin revealing them
    pub fn complete_shuffle(&mut self)
        requires
            old(self).wf(),
        ensures
            shuffle_completed(*old(self), *final(self)),
            final(self).wf(),
    {
        if let Some(spread) = self.selected_spread {
            let drawn = self.deck.draw_many(spread.card_count());
            self.reading = Some(Reading::new(spread, drawn));
            self.reveal_index = 0;
            self.screen = Screen::CardReveal;
        }
    }

    /// Reveal the next card, or finish the reading after the last one
    pub fn reveal_next_card(&mut self)
        requires
            old(self).reading matches Some(r) ==> r.drawn@.len() > 0,
        ensures
            revealed_next(*old(self), *final(self)),
    {
        if let Some(reading) = &self.reading {
            if self.reveal_index < reading.card_count() - 1 {
                self.reveal_index = self.reveal_index + 1;
            } else {
                self.screen = Screen::ReadingComplete;
            }
        }
    }

    /// Go back to the previous card
    pub fn reveal_previous_card(&mut self)
        ensures
            revealed_previous(*old(self), *final(self)),
    {
        if self.reveal_index > 0 {
            self.reveal_index = self.reveal_index - 1;
        }
    }

    /// Step back from the current screen, dropping what it showed
    pub fn go_back(&mut self)
        ensures
            went_back(*old(self), *final(self)),
    {
        match self.screen {
            Screen::Home => {},
            Screen::SpreadSelection | Screen::CardBrowser | Screen::Journal | Screen::Help => {
                self.screen = Screen::Home;
            },
            Screen::DailyCard => {
                self.screen = Screen::Home;
                self.daily_card = None;
            },
            Screen::ReadingNotes => {
                self.screen = Screen::ReadingComplete;
                self.reading_notes = String::new();
            },
            Screen::JournalDetail => {
                self.screen = Screen::Journal;
                self.selected_journal_entry = None;
            },
            Screen::ShuffleAnimation | Screen::CardReveal | Screen::ReadingComplete => {
                self.screen = Screen::Home;
                self.reading = None;
                self.reveal_index = 0;
            },
            Screen::CardDetail => {
                self.screen = Screen::CardBrowser;
                self.selected_card = None;
            },
            Screen::Quit => {},
            Screen::NewReading => {
                self.screen = Screen::SpreadSelection;
            },
        }
    }

    /// Advance the shuffle animation by one tick; the cards are drawn when it ends
    pub fn on_tick(&mut self)
        requires
            old(self).wf(),
        ensures
            ticked(*old(self), *final(self)),
            final(self).wf(),
    {
        if self.screen == Screen::ShuffleAnimation {
            if self.shuffle_ticks < u32::MAX {
                self.shuffle_ticks = self.shuffle_ticks + 1;
            }
            if self.shuffle_ticks >= SHUFFLE_TICKS {
                self.complete_shuffle();
            }
        }
    }
}

/// What the application must do outside the state after a key: nothing,
/// save the current reading, or load the text of the journal entry with the
/// given id and show it.
#[derive(Debug, Clone, PartialEq, Eq)]
pub enum Effect {
    Nothing,
    SaveReading,
    ViewJournalEntry(String),
}

/// Two journal entries carry the same id, time, spread and card count.
pub open spec fn same_entry(x: JournalEntry, y: JournalEntry) -> bool {
    &&& x.id@ == y.id@
    &&& x.timestamp == y.timestamp
    &&& x.spread_name@ == y.spread_name@
    &&& x.card_count == y.card_count
}

/// A copy of a journal entry.
fn copy_entry(e: &JournalEntry) -> (r: JournalEntry)
    ensures
        same_entry(r, *e),
{
    JournalEntry {
        id: e.id.clone(),
        timestamp: e.timestamp,
        spread_name: e.spread_name.clone(),
        card_count: e.card_count,
    }
}

/// The reading as it is saved: the typed notes attached when there are any.
pub open spec fn with_notes(r0: Reading, r1: Reading, notes: Seq<char>) -> bool {
    &&& r1.spread == r0.spread
    &&& r1.drawn == r0.drawn
    &&& r1.timestamp == r0.timestamp
    &&& notes.len() > 0 ==> (r1.notes matches Some(n) && n@ == notes)
    &&& notes.len() == 0 ==> r1.notes == r0.notes
}

/// The message of a saved reading.
pub open spec fn saved_message(path: Seq<char>) -> Seq<char> {
    "Saved to "@ + path
}

impl App {
    /// Prepare the current reading for the journal: the typed notes are
    /// attached to it, and the file name and markdown text to write are
    /// returned; refused when there is no reading or the journal is disabled
    pub fn save_current_reading(&mut self) -> (r: Result<(String, String), ArcanaError>)
        requires
            old(self).wf(),
        ensures
            final(self).wf(),
            old(self).reading is None ==> *final(self) == *old(self) && (r matches Err(
                ArcanaError::NoReadingToSave,
            )),
            old(self).reading matches Some(r0) ==> {
                &&& final(self).reading matches Some(r1)
                &&& with_notes(r0, r1, old(self).reading_notes@)
                &&& *final(self) == (App { reading: final(self).reading, ..*old(self) })
                &&& old(self).journal@.len() == 0 ==> (r matches Err(ArcanaError::Io(_)))
                &&& old(self).journal@.len() > 0 ==> (r matches Ok(pair) && pair.0@ == reading_file_name_text(
                    r1.timestamp,
                    r1.spread.name@,
                ) && pair.1@ == lines_text(
                    markdown_lines(r1.spread, r1.drawn@, r1.timestamp, notes_view(r1.notes)),
                ))
            },
    {
        let taken = self.reading.take();
        match taken {
            None => {
                self.reading = None;
                Err(ArcanaError::NoReadingToSave)
            },
            Some(mut reading) => {
                if !self.reading_notes.as_str().is_empty() {
                    reading.notes = Some(self.reading_notes.clone());
                }
                let prepared = self.journal.prepare_save(&reading);
                self.reading = Some(reading);
                match prepared {
                    Ok(pair) => Ok(pair),
                    Err(message) => Err(ArcanaError::Io(io_error_other(message))),
                }
            },
        }
    }

    /// Record how writing the reading went, given the written file's path or
    /// the error: once written the typed notes are cleared and the finished
    /// reading is shown again, with the message naming the path
    pub fn reading_written(&mut self, written: Result<String, std::io::Error>) -> (r: Result<String, ArcanaError>)
        ensures
            written matches Ok(path) ==> {
                &&& (r matches Ok(m) && m@ == saved_message(path@))
                &&& *final(self) == (App {
                    reading_notes: final(self).reading_notes,
                    screen: Screen::ReadingComplete,
                    ..*old(self)
                })
                &&& final(self).reading_notes@.len() == 0
            },
            written is Err ==> (r matches Err(ArcanaError::Io(_))) && *final(self) == *old(self),
    {
        match written {
            Ok(path) => {
                self.reading_notes = String::new();
                self.screen = Screen::ReadingComplete;
                let mut m = String::new();
                m.append("Saved to ");
                m.append(path.as_str());
                proof {
                    reveal_strlit("Saved to ");
                }
                Ok(m)
            },
            Err(e) => Err(ArcanaError::Io(e)),
        }
    }

    /// Take the journal's entries as loaded (none when loading failed),
    /// selecting the first when there are any
    pub fn load_journal_entries(&mut self, loaded: Option<Vec<JournalEntry>>)
        ensures
            loaded is None ==> *final(self) == *old(self),
            loaded matches Some(entries) ==> *final(self) == (App {
                journal_entries: entries,
                journal_selected: if entries@.len() > 0 {
                    Some(0usize)
                } else {
                    old(self).journal_selected
                },
                ..*old(self)
            }),
    {
        if let Some(entries) = loaded {
            self.journal_entries = entries;
            if self.journal_entries.len() > 0 {
                self.journal_selected = Some(0);
            }
        }
    }

    /// The id of the selected journal entry, if one is selected
    pub fn selected_entry_id(&self) -> (r: Option<String>)
        ensures
            item_at(self.journal_entries@, self.journal_selected) is None ==> r is None,
            item_at(self.journal_entries@, self.journal_selected) matches Some(e) ==> (r matches Some(id)
                && id@ == e.id@),
    {
        match self.journal_selected {
            Some(i) => if i < self.journal_entries.len() {
                Some(self.journal_entries[i].id.clone())
            } else {
                None
            },
            None => None,
        }
    }

    /// Show the selected journal entry with its loaded text
    pub fn view_journal_entry(&mut self, content: String)
        ensures
            item_at(old(self).journal_entries@, old(self).journal_selected) is None ==> *final(self)
                == *old(self),
            item_at(old(self).journal_entries@, old(self).journal_selected) matches Some(e) ==> {
                &&& final(self).selected_journal_entry matches Some(pair)
                &&& same_entry(pair.0, e)
                &&& pair.1@ == content@
                &&& *final(self) == (App {
                    selected_journal_entry: final(self).selected_journal_entry,
                    screen: Screen::JournalDetail,
                    ..*old(self)
                })
            },
    {
        if let Some(i) = self.journal_selected {
            if i < self.journal_entries.len() {
                let entry = copy_entry(&self.journal_entries[i]);
                self.selected_journal_entry = Some((entry, content));
                self.screen = Screen::JournalDetail;
            }
        }
    }
}

/// `q` or Esc.
pub open spec fn is_leave_key(k: Key) -> bool {
    k == Key::Char('q') || k == Key::Esc
}

/// Down or `j`.
pub open spec fn is_down_key(k: Key) -> bool {
    k == Key::Down || k == Key::Char('j')
}

/// Up or `k`.
pub open spec fn is_up_key(k: Key) -> bool {
    k == Key::Up || k == Key::Char('k')
}

/// The text with its last character removed, if it has one.
pub open spec fn popped(text: Seq<char>) -> Seq<char> {
    if text.len() > 0 {
        text.drop_last()
    } else {
        text
    }
}

/// A key on the home screen: quit, move through the menu, or choose.
pub open spec fn home_key(a: App, key: Key, b: App) -> bool {
    if key == Key::Char('q') || key == Key::Char('Q') {
        b == (App { should_quit: true, ..a })
    } else if is_down_key(key) {
        b == (App { menu_selected: step_forward(a.menu_selected, 6), ..a })
    } else if is_up_key(key) {
        b == (App { menu_selected: step_back(a.menu_selected, 6), ..a })
    } else if key == Key::Enter {
        menu_chosen(a, b)
    } else {
        b == a
    }
}

/// A key on the spread selection: leave, move through the spreads, or begin.
pub open spec fn spread_key(a: App, key: Key, b: App) -> bool {
    if is_leave_key(key) {
        went_back(a, b)
    } else if is_down_key(key) {
        b == (App { spread_selected: step_forward(a.spread_selected, 6), ..a })
    } else if is_up_key(key) {
        b == (App { spread_selected: step_back(a.spread_selected, 6), ..a })
    } else if key == Key::Enter {
        reading_started(a, b)
    } else {
        b == a
    }
}

/// A key during the shuffle: only leaving does anything.
pub open spec fn shuffle_key(a: App, key: Key, b: App) -> bool {
    if is_leave_key(key) {
        went_back(a, b)
    } else {
        b == a
    }
}

/// A key while revealing cards: leave, reveal the next, or go back one.
pub open spec fn reveal_key(a: App, key: Key, b: App) -> bool {
    if is_leave_key(key) {
        went_back(a, b)
    } else if key == Key::Enter || key == Key::Char(' ') || key == Key::Right || key == Key::Char('j') {
        revealed_next(a, b)
    } else if key == Key::Left || key == Key::Char('h') {
        revealed_previous(a, b)
    } else {
        b == a
    }
}

/// A key on the finished reading: leave, or begin typing notes to save it with.
pub open spec fn complete_key(a: App, key: Key, b: App) -> bool {
    if is_leave_key(key) || key == Key::Enter {
        went_back(a, b)
    } else if key == Key::Char('s') {
        &&& b == (App { screen: Screen::ReadingNotes, reading_notes: b.reading_notes, ..a })
        &&& b.reading_notes@.len() == 0
    } else {
        b == a
    }
}

/// A key while typing notes: leave, save, delete the last character, or type one.
pub open spec fn notes_key(a: App, key: Key, b: App, e: Effect) -> bool {
    if key == Key::Esc {
        went_back(a, b) && e == Effect::Nothing
    } else if key == Key::Enter {
        b == a && e == Effect::SaveReading
    } else {
        &&& e == Effect::Nothing
        &&& match key {
            Key::Backspace => {
                &&& b == (App { reading_notes: b.reading_notes, ..a })
                &&& b.reading_notes@ == popped(a.reading_notes@)
            },
            Key::Char(c) => {
                &&& b == (App { reading_notes: b.reading_notes, ..a })
                &&& b.reading_notes@ == a.reading_notes@.push(c)
            },
            _ => b == a,
        }
    }
}

/// A key in the card browser while a search is typed: leave the search
/// (clearing it), keep it, or edit the query; the list follows the query.
pub open spec fn search_key(a: App, key: Key, b: App) -> bool {
    match key {
        Key::Esc => {
            &&& b.card_search_query@.len() == 0
            &&& refreshed(
                App { card_search_active: false, card_search_query: b.card_search_query, ..a },
                b,
            )
        },
        Key::Enter => b == (App { card_search_active: false, ..a }),
        Key::Backspace => {
            &&& b.card_search_query@ == popped(a.card_search_query@)
            &&& refreshed(App { card_search_query: b.card_search_query, ..a }, b)
        },
        Key::Char(c) => {
            &&& b.card_search_query@ == a.card_search_query@.push(c)
            &&& refreshed(App { card_search_query: b.card_search_query, ..a }, b)
        },
        _ => b == a,
    }
}

/// A key in the card browser: search keys while a search is typed; else
/// leave, move through the cards, change the filter, begin a search, or view
/// the selected card.
pub open spec fn browser_key(a: App, key: Key, b: App) -> bool {
    if a.card_search_active {
        search_key(a, key, b)
    } else if is_leave_key(key) {
        went_back(a, b)
    } else if is_down_key(key) {
        b == (App {
            card_selected: step_forward(a.card_selected, a.cards@.len()),
            selected_card: item_at(a.cards@, step_forward(a.card_selected, a.cards@.len())),
            ..a
        })
    } else if is_up_key(key) {
        b == (App {
            card_selected: step_back(a.card_selected, a.cards@.len()),
            selected_card: item_at(a.cards@, step_back(a.card_selected, a.cards@.len())),
            ..a
        })
    } else if key == Key::Tab {
        refreshed(App { card_filter: next_filter(a.card_filter), ..a }, b)
    } else if key == Key::Char('/') {
        &&& b.card_search_query@.len() == 0
        &&& refreshed(
            App { card_search_active: true, card_search_query: b.card_search_query, ..a },
            b,
        )
    } else if key == Key::Enter && a.selected_card is Some {
        b == (App { screen: Screen::CardDetail, ..a })
    } else {
        b == a
    }
}

/// A key on a screen that only shows something: `q`, Esc or Enter leave it.
pub open spec fn closing_key(a: App, key: Key, b: App) -> bool {
    if is_leave_key(key) || key == Key::Enter {
        went_back(a, b)
    } else {
        b == a
    }
}

/// A key in the journal list: leave, move through the entries, or ask for
/// the selected entry to be shown.
pub open spec fn journal_key(a: App, key: Key, b: App, e: Effect) -> bool {
    if key == Key::Enter {
        &&& b == a
        &&& match item_at(a.journal_entries@, a.journal_selected) {
            Some(entry) => (e matches Effect::ViewJournalEntry(id) && id@ == entry.id@),
            None => e == Effect::Nothing,
        }
    } else {
        &&& e == Effect::Nothing
        &&& if is_leave_key(key) {
            went_back(a, b)
        } else if is_down_key(key) {
            if a.journal_entries@.len() == 0 {
                b == a
            } else {
                b == (App { journal_selected: step_forward(a.journal_selected, a.journal_entries@.len()), ..a })
            }
        } else if is_up_key(key) {
            if a.journal_entries@.len() == 0 {
                b == a
            } else {
                b == (App { journal_selected: step_back(a.journal_selected, a.journal_entries@.len()), ..a })
            }
        } else {
            b == a
        }
    }
}

/// `b` and `e` are the state and the outside work after `key` is pressed in `a`.
pub open spec fn key_handled(a: App, key: Key, b: App, e: Effect) -> bool {
    match a.screen {
        Screen::ReadingNotes => notes_key(a, key, b, e),
        Screen::Journal => journal_key(a, key, b, e),
        _ => {
            &&& e == Effect::Nothing
            &&& match a.screen {
                Screen::Home => home_key(a, key, b),
                Screen::SpreadSelection => spread_key(a, key, b),
                Screen::ShuffleAnimation => shuffle_key(a, key, b),
                Screen::CardReveal => reveal_key(a, key, b),
                Screen::ReadingComplete => complete_key(a, key, b),
                Screen::CardBrowser => browser_key(a, key, b),
                Screen::CardDetail | Screen::DailyCard | Screen::Help | Screen::JournalDetail => closing_key(a, key, b),
                _ => b == a,
            }
        },
    }
}

/// The key can be handled in this state: handling it would otherwise
/// overflow moving down from the last possible card or journal index, divide
/// by zero moving down an emptied card list that still has a selection, and
/// underflow revealing the cards of a reading that has none.
pub open spec fn key_ok(a: App, key: Key) -> bool {
    &&& (a.screen == Screen::CardBrowser && !a.card_search_active && is_down_key(key)) ==> (
    a.card_selected matches Some(i) ==> i < usize::MAX && a.cards@.len() > 0)
    &&& (a.screen == Screen::CardReveal && (key == Key::Enter || key == Key::Char(' ') || key == Key::Right || key == Key::Char('j'))) ==> (
    a.reading matches Some(r) ==> r.drawn@.len() > 0)
    &&& (a.screen == Screen::Journal && is_down_key(key)) ==> (a.journal_selected matches Some(i) ==> i < usize::MAX)
}

impl App {
    /// Whether the key can be handled in this state without the arithmetic
    /// faults `key_ok` describes
    pub fn accepts_key(&self, key: Key) -> (b: bool)
        ensures
            b == key_ok(*self, key),
    {
        let down = key == Key::Down || key == Key::Char('j');
        let reveal = key == Key::Enter || key == Key::Char(' ') || key == Key::Right || key == Key::Char('j');
        if self.screen == Screen::CardBrowser && !self.card_search_active && down {
            if let Some(i) = self.card_selected {
                if i == usize::MAX || self.cards.len() == 0 {
                    return false;
                }
            }
        }
        if self.screen == Screen::CardReveal && reveal {
            if let Some(r) = &self.reading {
                if r.drawn.len() == 0 {
                    return false;
                }
            }
        }
        if self.screen == Screen::Journal && down {
            if let Some(i) = self.journal_selected {
                if i == usize::MAX {
                    return false;
                }
            }
        }
        true
    }

    fn handle_home_keys(&mut self, key: Key)
        requires
            old(self).wf(),
        ensures
            home_key(*old(self), key, *final(self)),
            final(self).wf(),
    {
        match key {
            Key::Char('q') | Key::Char('Q') => self.should_quit = true,
            Key::Down | Key::Char('j') => self.next_menu_item(),
            Key::Up | Key::Char('k') => self.previous_menu_item(),
            Key::Enter => self.select_menu_item(),
            _ => {},
        }
    }

    fn handle_spread_selection_keys(&mut self, key: Key)
        requires
            old(self).wf(),
        ensures
            spread_key(*old(self), key, *final(self)),
            final(self).wf(),
    {
        match key {
            Key::Char('q') | Key::Esc => self.go_back(),
            Key::Down | Key::Char('j') => self.next_spread(),
            Key::Up | Key::Char('k') => self.previous_spread(),
            Key::Enter => self.start_reading(),
            _ => {},
        }
    }

    fn handle_shuffle_keys(&mut self, key: Key)
        ensures
            shuffle_key(*old(self), key, *final(self)),
    {
        match key {
            Key::Char('q') | Key::Esc => self.go_back(),
            _ => {},
        }
    }

    fn handle_card_reveal_keys(&mut self, key: Key)
        requires
            key_ok(*old(self), key),
            old(self).screen == Screen::CardReveal,
        ensures
            reveal_key(*old(self), key, *final(self)),
    {
        match key {
            Key::Char('q') | Key::Esc => self.go_back(),
            Key::Enter | Key::Char(' ') | Key::Right | Key::Char('j') => {
                self.reveal_next_card();
            },
            Key::Left | Key::Char('h') => {
                self.reveal_previous_card();
            },
            _ => {},
        }
    }

    fn handle_reading_complete_keys(&mut self, key: Key)
        ensures
            complete_key(*old(self), key, *final(self)),
    {
        match key {
            Key::Char('q') | Key::Esc | Key::Enter => self.go_back(),
            Key::Char('s') => {
                self.reading_notes = String::new();
                self.screen = Screen::ReadingNotes;
            },
            _ => {},
        }
    }

    fn handle_reading_notes_keys(&mut self, key: Key) -> (e: Effect)
        ensures
            notes_key(*old(self), key, *final(self), e),
    {
        match key {
            Key::Esc => {
                self.go_back();
                Effect::Nothing
            },
            Key::Enter => Effect::SaveReading,
            Key::Backspace => {
                pop_char(&mut self.reading_notes);
                Effect::Nothing
            },
            Key::Char(c) => {
                push_char(&mut self.reading_notes, c);
                Effect::Nothing
            },
            _ => Effect::Nothing,
        }
    }

    fn handle_card_browser_keys(&mut self, key: Key)
        requires
            key_ok(*old(self), key),
            old(self).screen == Screen::CardBrowser,
        ensures
            browser_key(*old(self), key, *final(self)),
    {
        if self.card_search_active {
            match key {
                Key::Esc => {
                    self.card_search_active = false;
                    self.card_search_query = String::new();
                    self.refresh_card_list();
                },
                Key::Enter => {
                    self.card_search_active = false;
                },
                Key::Backspace => {
                    pop_char(&mut self.card_search_query);
                    self.refresh_card_list();
                },
                Key::Char(c) => {
                    push_char(&mut self.card_search_query, c);
                    self.refresh_card_list();
                },
                _ => {},
            }
            return;
        }
        match key {
            Key::Char('q') | Key::Esc => self.go_back(),
            Key::Down | Key::Char('j') => self.next_card(),
            Key::Up | Key::Char('k') => self.previous_card(),
            Key::Tab => self.cycle_card_filter(),
            Key::Char('/') => {
                self.card_search_active = true;
                self.card_search_query = String::new();
                self.refresh_card_list();
            },
            Key::Enter => {
                if self.selected_card.is_some() {
                    self.screen = Screen::CardDetail;
                }
            },
            _ => {},
        }
    }

    fn handle_closing_keys(&mut self, key: Key)
        ensures
            closing_key(*old(self), key, *final(self)),
    {
        match key {
            Key::Char('q') | Key::Esc | Key::Enter => self.go_back(),
            _ => {},
        }
    }

    fn handle_journal_keys(&mut self, key: Key) -> (e: Effect)
        requires
            key_ok(*old(self), key),
            old(self).screen == Screen::Journal,
        ensures
            journal_key(*old(self), key, *final(self), e),
    {
        match key {
            Key::Char('q') | Key::Esc => {
                self.go_back();
                Effect::Nothing
            },
            Key::Down | Key::Char('j') => {
                self.next_journal_entry();
                Effect::Nothing
            },
            Key::Up | Key::Char('k') => {
                self.previous_journal_entry();
                Effect::Nothing
            },
            Key::Enter => match self.selected_entry_id() {
                Some(id) => Effect::ViewJournalEntry(id),
                None => Effect::Nothing,
            },
            _ => Effect::Nothing,
        }
    }

    /// React to a key on the current screen; the returned effect is the
    /// outside work the application does next (saving the reading, or loading
    /// a journal entry to show)
    pub fn handle_key(&mut self, key: Key) -> (e: Effect)
        requires
            old(self).wf(),
            key_ok(*old(self), key),
        ensures
            key_handled(*old(self), key, *final(self), e),
            final(self).wf(),
    {
        match self.screen {
            Screen::Home => {
                self.handle_home_keys(key);
                Effect::Nothing
            },
            Screen::SpreadSelection => {
                self.handle_spread_selection_keys(key);
                Effect::Nothing
            },
            Screen::ShuffleAnimation => {
                self.handle_shuffle_keys(key);
                Effect::Nothing
            },
            Screen::CardReveal => {
                self.handle_card_reveal_keys(key);
                Effect::Nothing
            },
            Screen::ReadingComplete => {
                self.handle_reading_complete_keys(key);
                Effect::Nothing
            },
            Screen::ReadingNotes => self.handle_reading_notes_keys(key),
            Screen::CardBrowser => {
                self.handle_card_browser_keys(key);
                Effect::Nothing
            },
            Screen::CardDetail | Screen::DailyCard | Screen::Help | Screen::JournalDetail => {
                self.handle_closing_keys(key);
                Effect::Nothing
            },
            Screen::Journal => self.handle_journal_keys(key),
            Screen::Quit | Screen::NewReading => Effect::Nothing,
        }
    }
}

} // verus!
