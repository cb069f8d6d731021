//! What the terminal application's screens show: the symbols and colours of
//! cards, the texts of labels, the shuffle animation's frames, the spread
//! drawings' slots and the styling of a saved reading's lines. Placing them
//! on the screen is the application's part.

use vstd::prelude::*;

use crate::cards::{
    keywords_text, ArcanaType, Card, DrawnCard, Suit,
};
use crate::cli::output::copy_str;
use crate::cli::repeat_char;
use crate::lines::{char_views, lines_of, split_lines, trim, trim_chars};
use crate::text::{
    chars_of, decimal_string, decimal_text, has_prefix, join_strs, join_text, matches_at,
    starts_with_chars, str_views, string_of,
};
use crate::tui::app::{app_suit_color, AppTheme, CardFilter, SHUFFLE_TICKS};
use crate::ui::theme::Rgb;

verus! {

/// The emblem of a suit.
pub open spec fn suit_symbol_of(suit: Suit) -> &'static str {
    match suit {
        Suit::Wands => "🔥",
        Suit::Cups => "💧",
        Suit::Swords => "⚔️",
        Suit::Pentacles => "🌿",
    }
}

/// Get suit symbol
pub fn suit_symbol(suit: Suit) -> (s: &'static str)
    ensures
        s == suit_symbol_of(suit),
{
    match suit {
        Suit::Wands => "🔥",
        Suit::Cups => "💧",
        Suit::Swords => "⚔️",
        Suit::Pentacles => "🌿",
    }
}

/// The symbol of an arcana.
pub open spec fn arcana_symbol_of(arcana: ArcanaType) -> &'static str {
    match arcana {
        ArcanaType::Major => "✦",
        ArcanaType::Minor => "○",
    }
}

/// Get arcana symbol
pub fn arcana_symbol(arcana: ArcanaType) -> (s: &'static str)
    ensures
        s == arcana_symbol_of(arcana),
{
    match arcana {
        ArcanaType::Major => "✦",
        ArcanaType::Minor => "○",
    }
}

/// The symbol shown beside a card: the Major Arcana's star, the suit's
/// emblem, or the Minor Arcana's circle for a card without a suit.
pub open spec fn card_symbol_of(card: Card) -> &'static str {
    match card.arcana {
        ArcanaType::Major => arcana_symbol_of(ArcanaType::Major),
        ArcanaType::Minor => match card.suit {
            Some(s) => suit_symbol_of(s),
            None => arcana_symbol_of(ArcanaType::Minor),
        },
    }
}

/// The symbol shown beside a card
pub fn card_symbol(card: &Card) -> (s: &'static str)
    ensures
        s == card_symbol_of(*card),
{
    match card.arcana {
        ArcanaType::Major => arcana_symbol(ArcanaType::Major),
        ArcanaType::Minor => match card.suit {
            Some(s) => suit_symbol(s),
            None => arcana_symbol(ArcanaType::Minor),
        },
    }
}

/// The colour of a card: mauve for the Major Arcana, the suit's colour, or
/// lavender for a card without a suit.
pub open spec fn card_color_of(card: Card, theme: AppTheme) -> Rgb {
    match card.arcana {
        ArcanaType::Major => theme.mauve,
        ArcanaType::Minor => match card.suit {
            Some(s) => app_suit_color(theme, s),
            None => theme.lavender,
        },
    }
}

/// Get color for a card based on its suit or arcana
pub fn card_color(card: &Card, theme: &AppTheme) -> (c: Rgb)
    ensures
        c == card_color_of(*card, *theme),
{
    match card.arcana {
        ArcanaType::Major => theme.mauve,
        ArcanaType::Minor => match card.suit {
            Some(s) => theme.suit_color(s),
            None => theme.lavender,
        },
    }
}

/// The label of a filter in the card browser.
pub open spec fn filter_label_of(filter: CardFilter) -> Seq<char> {
    match filter {
        CardFilter::All => "All Cards (78)"@,
        CardFilter::Major => "Major Arcana (22)"@,
        CardFilter::Suit(s) => crate::cards::suit_label(s)@ + " (14)"@,
    }
}

/// The label of a filter in the card browser
pub fn filter_label(filter: CardFilter) -> (r: String)
    ensures
        r@ == filter_label_of(filter),
{
    match filter {
        CardFilter::All => copy_str("All Cards (78)"),
        CardFilter::Major => copy_str("Major Arcana (22)"),
        CardFilter::Suit(s) => {
            let mut r = copy_str(s.as_str());
            r.append(" (14)");
            r
        },
    }
}

/// The first `n` keywords of a card, joined with a separator.
pub open spec fn first_keywords(card: Card, n: nat, sep: Seq<char>) -> Seq<char> {
    let k = if card.keywords@.len() < n {
        card.keywords@.len()
    } else {
        n
    };
    join_text(str_views(card.keywords@.take(k as int)), sep)
}

fn join_first_keywords(card: &Card, n: usize, sep: &str) -> (r: String)
    ensures
        r@ == first_keywords(*card, n as nat, sep@),
{
    let k = if card.keywords.len() < n {
        card.keywords.len()
    } else {
        n
    };
    let mut v: Vec<&str> = Vec::new();
    let mut i: usize = 0;
    while i < k
        invariant
            i <= k <= card.keywords@.len(),
            v@ == card.keywords@.take(i as int),
        decreases k - i,
    {
        v.push(card.keywords[i]);
        i = i + 1;
        assert(v@ =~= card.keywords@.take(i as int));
    }
    join_strs(v.as_slice(), sep)
}

/// The keywords the card browser shows after a card's name: the first three,
/// after a dash.
pub fn browser_keywords(card: &Card) -> (r: String)
    ensures
        r@ == "  — "@ + first_keywords(*card, 3, ", "@),
{
    let mut r = copy_str("  — ");
    r.append(join_first_keywords(card, 3, ", ").as_str());
    r
}

/// The numbered title of a card's place in a spread: "1. Past".
pub fn slot_title(number: usize, position: &str) -> (r: String)
    ensures
        r@ == decimal_text(number as nat) + ". "@ + position@,
{
    let mut r = decimal_string(number);
    r.append(". ");
    r.append(position);
    r
}

/// The shuffle animation's stage after `ticks` ticks: cards face down, then
/// cards turning, then the reading being prepared.
pub open spec fn shuffle_stage_of(ticks: u32) -> u8 {
    if ticks < 7 {
        0
    } else if ticks < 14 {
        1
    } else {
        2
    }
}

/// The shuffle animation's stage: a third of the way it shows cards face
/// down, two thirds of the way cards turning, then the reading being prepared
pub fn shuffle_stage(ticks: u32) -> (s: u8)
    ensures
        s == shuffle_stage_of(ticks),
{
    if ticks < 7 {
        0
    } else if ticks < 14 {
        1
    } else {
        2
    }
}

/// The shuffle's progress bar: forty cells, two filled per tick.
pub open spec fn shuffle_bar_of(ticks: u32) -> Seq<char> {
    let filled = 2 * ticks;
    seq!['['] + Seq::new(filled as nat, |_i: int| '█') + Seq::new((40 - filled) as nat, |_i: int| '░') + seq![']']
}

/// The shuffle's progress bar
pub fn shuffle_bar(ticks: u32) -> (r: String)
    requires
        ticks <= SHUFFLE_TICKS,
    ensures
        r@ =~~= shuffle_bar_of(ticks),
{
    let filled = (2 * ticks) as usize;
    let mut r = copy_str("[");
    r.append(repeat_char('█', filled).as_str());
    r.append(repeat_char('░', 40 - filled).as_str());
    r.append("]");
    proof {
        reveal_strlit("[");
        reveal_strlit("]");
    }
    r
}

/// The shuffle's progress as a percentage: five per tick.
pub fn shuffle_percent(ticks: u32) -> (r: String)
    requires
        ticks <= SHUFFLE_TICKS,
    ensures
        r@ == decimal_text(5 * ticks as nat) + "%"@,
{
    let n = 5 * (ticks as usize);
    let mut r = decimal_string(n);
    r.append("%");
    r
}

/// "Card 3 of 10": which card is being revealed.
pub fn reveal_header(index: usize, count: usize) -> (r: String)
    requires
        index < usize::MAX,
    ensures
        r@ == "Card "@ + decimal_text(index as nat + 1) + " of "@ + decimal_text(count as nat),
{
    let mut r = copy_str("Card ");
    r.append(decimal_string(index + 1).as_str());
    r.append(" of ");
    r.append(decimal_string(count).as_str());
    r
}

/// The marks of the revealed cards: one per card, filled up to the one shown.
pub fn reveal_marks(index: usize, count: usize) -> (r: Vec<bool>)
    ensures
        r@.len() == count,
        forall|i: int| 0 <= i < count ==> #[trigger] r@[i] == (i <= index),
{
    let mut r: Vec<bool> = Vec::new();
    let mut i: usize = 0;
    while i < count
        invariant
            i <= count,
            r@.len() == i,
            forall|k: int| 0 <= k < i ==> #[trigger] r@[k] == (k <= index),
        decreases count - i,
    {
        r.push(i <= index);
        i = i + 1;
    }
    r
}

/// The first line of a card in a spread drawing: its name, with a turn
/// arrow when reversed.
pub fn mini_card_name(drawn: &DrawnCard) -> (r: String)
    ensures
        r@ == drawn.card.name@ + if drawn.reversed {
            " ⟳"@
        } else {
            ""@
        },
{
    let mut r = copy_str(drawn.card.name);
    if drawn.reversed {
        r.append(" ⟳");
    } else {
        proof {
            reveal_strlit("");
            assert(r@ =~= r@ + ""@);
        }
    }
    r
}

/// The second line of a card in a spread drawing: its first two keywords.
pub fn mini_card_keywords(drawn: &DrawnCard) -> (r: String)
    ensures
        r@ == first_keywords(drawn.card, 2, ", "@),
{
    join_first_keywords(&drawn.card, 2, ", ")
}

/// A card in a small slot of the Celtic Cross drawing: its name, after a
/// turn arrow when reversed.
pub fn tiny_card_text(drawn: &DrawnCard) -> (r: String)
    ensures
        r@ == (if drawn.reversed {
            "⟳ "@
        } else {
            ""@
        }) + drawn.card.name@,
{
    let mut r = if drawn.reversed {
        copy_str("⟳ ")
    } else {
        String::new()
    };
    proof {
        reveal_strlit("");
        assert(""@ =~= Seq::<char>::empty());
    }
    r.append(drawn.card.name);
    r
}

/// The challenge card under the five-card cross: a turn arrow when reversed
/// (nothing otherwise), a space, and its name.
pub fn challenge_text(drawn: &DrawnCard) -> (r: String)
    ensures
        r@ == (if drawn.reversed {
            "⟳"@
        } else {
            ""@
        }) + " "@ + drawn.card.name@,
{
    let mut r = if drawn.reversed {
        copy_str("⟳")
    } else {
        String::new()
    };
    proof {
        reveal_strlit("");
        assert(""@ =~= Seq::<char>::empty());
    }
    r.append(" ");
    r.append(drawn.card.name);
    r
}

/// The preview of a drawn card's meaning: its first 80 characters and an ellipsis.
pub fn meaning_preview(drawn: &DrawnCard) -> (r: String)
    ensures
        r@ == (if drawn.reversed {
            drawn.card.reversed
        } else {
            drawn.card.upright
        })@.take(if (if drawn.reversed {
            drawn.card.reversed
        } else {
            drawn.card.upright
        })@.len() < 80 {
            (if drawn.reversed {
                drawn.card.reversed
            } else {
                drawn.card.upright
            })@.len() as int
        } else {
            80
        }) + "..."@,
{
    let meaning = drawn.meaning();
    let chars = chars_of(meaning);
    let n = if chars.len() < 80 {
        chars.len()
    } else {
        80
    };
    let mut head: Vec<char> = Vec::new();
    let mut i: usize = 0;
    while i < n
        invariant
            i <= n <= chars@.len(),
            head@ == chars@.take(i as int),
        decreases n - i,
    {
        head.push(chars[i]);
        i = i + 1;
        assert(head@ =~= chars@.take(i as int));
    }
    let mut r = string_of(&head);
    r.append("...");
    r
}

/// "Three-Card Spread — 3 cards": the reading whose notes are typed.
pub fn notes_header(spread_name: &str, count: usize) -> (r: String)
    ensures
        r@ == spread_name@ + " — "@ + decimal_text(count as nat) + " cards"@,
{
    let mut r = copy_str(spread_name);
    r.append(" — ");
    r.append(decimal_string(count).as_str());
    r.append(" cards");
    r
}

/// The notes being typed, followed by the cursor.
pub fn notes_input(notes: &str) -> (r: String)
    ensures
        r@ == notes@ + "▏"@,
{
    let mut r = copy_str(notes);
    r.append("▏");
    r
}

/// "12 saved readings": the size of the journal.
pub fn saved_readings_label(count: usize) -> (r: String)
    ensures
        r@ == decimal_text(count as nat) + " saved readings"@,
{
    let mut r = decimal_string(count);
    r.append(" saved readings");
    r
}

/// " (3 cards)": the size of a journal entry.
pub fn entry_cards_label(count: usize) -> (r: String)
    ensures
        r@ == " ("@ + decimal_text(count as nat) + " cards)"@,
{
    let mut r = copy_str(" (");
    r.append(decimal_string(count).as_str());
    r.append(" cards)");
    r
}

/// How the journal shows a line of a saved reading.
#[derive(Debug, Clone, Copy, PartialEq, Eq, Structural)]
pub enum LineKind {
    Title,
    Section,
    CardHeading,
    Reversed,
    Upright,
    Emphasis,
    Bullet,
    Blank,
    Text,
}

/// A line of a saved reading as the journal shows it.
pub struct ShownLine {
    pub text: String,
    pub kind: LineKind,
}

/// `text` ends with `suffix`.
pub open spec fn has_suffix(text: Seq<char>, suffix: Seq<char>) -> bool {
    suffix.len() <= text.len() && text.subrange(text.len() - suffix.len(), text.len() as int) == suffix
}

/// The text without every leading repetition of a pattern, as
/// `str::trim_start_matches` gives it.
pub open spec fn strip_prefixes(t: Seq<char>, p: Seq<char>) -> Seq<char>
    decreases t.len(),
{
    if p.len() > 0 && has_prefix(t, p) {
        strip_prefixes(t.skip(p.len() as int), p)
    } else {
        t
    }
}

/// The text without every trailing repetition of a pattern, as
/// `str::trim_end_matches` gives it.
pub open spec fn strip_suffixes(t: Seq<char>, p: Seq<char>) -> Seq<char>
    decreases t.len(),
{
    if p.len() > 0 && has_suffix(t, p) {
        strip_suffixes(t.take(t.len() - p.len()), p)
    } else {
        t
    }
}

/// How the journal shows a line of a saved reading: headings of three levels
/// without their marks, emphasized words (the orientations in their
/// colours), metadata bullets, blank lines, and other text as it is.
pub open spec fn shown_line_of(line: Seq<char>) -> (Seq<char>, LineKind) {
    if has_prefix(line, "# "@) {
        (trim(strip_prefixes(line, "# "@)), LineKind::Title)
    } else if has_prefix(line, "## "@) {
        (trim(strip_prefixes(line, "## "@)), LineKind::Section)
    } else if has_prefix(line, "### "@) {
        (trim(strip_prefixes(line, "### "@)), LineKind::CardHeading)
    } else if has_prefix(line, "**"@) && has_suffix(line, "**"@) {
        let t = strip_suffixes(strip_prefixes(line, "**"@), "**"@);
        (t, if t == "Reversed"@ {
            LineKind::Reversed
        } else if t == "Upright"@ {
            LineKind::Upright
        } else {
            LineKind::Emphasis
        })
    } else if has_prefix(line, "**"@) {
        (line, LineKind::Text)
    } else if has_prefix(line, "- **"@) {
        (line, LineKind::Bullet)
    } else if trim(line).len() == 0 {
        (Seq::empty(), LineKind::Blank)
    } else {
        (line, LineKind::Text)
    }
}

fn ends_with_chars(text: &Vec<char>, suffix: &Vec<char>) -> (b: bool)
    ensures
        b == has_suffix(text@, suffix@),
{
    if suffix.len() > text.len() {
        return false;
    }
    let start = text.len() - suffix.len();
    let text_len = text.len();
    let mut k: usize = 0;
    while k < suffix.len()
        invariant
            text_len == text@.len(),
            start + suffix@.len() == text@.len(),
            k <= suffix@.len(),
            forall|j: int| 0 <= j < k ==> text@[start + j] == suffix@[j],
        decreases suffix@.len() - k,
    {
        if text[start + k] != suffix[k] {
            assert(text@.subrange(start as int, text@.len() as int)[k as int] != suffix@[k as int]);
            return false;
        }
        k = k + 1;
    }
    assert(text@.subrange(start as int, text@.len() as int) =~= suffix@);
    true
}

fn strip_prefix_runs(t: &Vec<char>, p: &Vec<char>) -> (r: Vec<char>)
    requires
        p@.len() > 0,
    ensures
        r@ == strip_prefixes(t@, p@),
{
    let mut start: usize = 0;
    assert(t@.skip(0) =~= t@);
    while p.len() <= t.len() - start && matches_at(t, p, start)
        invariant
            start <= t@.len(),
            p@.len() > 0,
            strip_prefixes(t@, p@) == strip_prefixes(t@.skip(start as int), p@),
        decreases t@.len() - start,
    {
        proof {
            assert(t@.skip(start as int).subrange(0, p@.len() as int) =~= t@.subrange(start as int, start + p@.len()));
            assert(t@.skip(start as int).skip(p@.len() as int) =~= t@.skip(start + p@.len()));
        }
        start = start + p.len();
    }
    proof {
        if start + p@.len() <= t@.len() {
            assert(t@.skip(start as int).subrange(0, p@.len() as int) =~= t@.subrange(start as int, start + p@.len()));
        }
    }
    let mut r: Vec<char> = Vec::new();
    let mut k: usize = start;
    while k < t.len()
        invariant
            start <= k <= t@.len(),
            r@ == t@.subrange(start as int, k as int),
        decreases t@.len() - k,
    {
        r.push(t[k]);
        k = k + 1;
        assert(r@ =~= t@.subrange(start as int, k as int));
    }
    assert(r@ =~= t@.skip(start as int));
    r
}

fn strip_suffix_runs(t: &Vec<char>, p: &Vec<char>) -> (r: Vec<char>)
    requires
        p@.len() > 0,
    ensures
        r@ == strip_suffixes(t@, p@),
{
    let mut end: usize = t.len();
    assert(t@.take(t@.len() as int) =~= t@);
    let mut cur: Vec<char> = t.clone();
    while cur.len() >= p.len() && ends_with_chars(&cur, p)
        invariant
            end == cur@.len(),
            cur@ == t@.take(end as int),
            end <= t@.len(),
            p@.len() > 0,
            strip_suffixes(t@, p@) == strip_suffixes(cur@, p@),
        decreases end,
    {
        let mut i: usize = 0;
        let next_end = end - p.len();
        assert(cur@.take(next_end as int) =~= t@.take(next_end as int));
        let mut shorter: Vec<char> = Vec::new();
        while i < next_end
            invariant
                i <= next_end <= cur@.len(),
                shorter@ == cur@.take(i as int),
            decreases next_end - i,
        {
            shorter.push(cur[i]);
            i = i + 1;
            assert(shorter@ =~= cur@.take(i as int));
        }
        cur = shorter;
        end = next_end;
    }
    cur
}

fn is_text(text: &Vec<char>, word: &str) -> (b: bool)
    ensures
        b == (text@ == word@),
{
    crate::text::same_chars(text, &chars_of(word))
}

/// How the journal shows one line of a saved reading
pub fn shown_line(line: &Vec<char>) -> (r: ShownLine)
    ensures
        (r.text@, r.kind) == shown_line_of(line@),
{
    let h1 = chars_of("# ");
    let h2 = chars_of("## ");
    let h3 = chars_of("### ");
    let stars = chars_of("**");
    let bullet = chars_of("- **");
    proof {
        reveal_strlit("# ");
        reveal_strlit("## ");
        reveal_strlit("### ");
        reveal_strlit("**");
        reveal_strlit("- **");
    }
    if starts_with_chars(line, &h1) {
        ShownLine { text: string_of(&trim_chars(&strip_prefix_runs(line, &h1))), kind: LineKind::Title }
    } else if starts_with_chars(line, &h2) {
        ShownLine { text: string_of(&trim_chars(&strip_prefix_runs(line, &h2))), kind: LineKind::Section }
    } else if starts_with_chars(line, &h3) {
        ShownLine { text: string_of(&trim_chars(&strip_prefix_runs(line, &h3))), kind: LineKind::CardHeading }
    } else if starts_with_chars(line, &stars) && ends_with_chars(line, &stars) {
        let t = strip_suffix_runs(&strip_prefix_runs(line, &stars), &stars);
        let kind = if is_text(&t, "Reversed") {
            LineKind::Reversed
        } else if is_text(&t, "Upright") {
            LineKind::Upright
        } else {
            LineKind::Emphasis
        };
        ShownLine { text: string_of(&t), kind }
    } else if starts_with_chars(line, &stars) {
        ShownLine { text: string_of(line), kind: LineKind::Text }
    } else if starts_with_chars(line, &bullet) {
        ShownLine { text: string_of(line), kind: LineKind::Bullet }
    } else if trim_chars(line).len() == 0 {
        ShownLine { text: String::new(), kind: LineKind::Blank }
    } else {
        ShownLine { text: string_of(line), kind: LineKind::Text }
    }
}

/// How the journal shows each line of a saved reading.
pub open spec fn shown_views(lines: Seq<ShownLine>) -> Seq<(Seq<char>, LineKind)> {
    lines.map_values(|l: ShownLine| (l.text@, l.kind))
}

/// How the journal shows a saved reading: each of its lines, styled
pub fn shown_reading(content: &str) -> (r: Vec<ShownLine>)
    ensures
        shown_views(r@) == split_lines(content@).map_values(|l: Seq<char>| shown_line_of(l)),
{
    let lines = lines_of(&chars_of(content));
    let ghost lv = char_views(lines@);
    let mut out: Vec<ShownLine> = Vec::new();
    let mut i: usize = 0;
    while i < lines.len()
        invariant
            i <= lines@.len(),
            lv == char_views(lines@),
            lv == split_lines(content@),
            shown_views(out@) == lv.take(i as int).map_values(|l: Seq<char>| shown_line_of(l)),
        decreases lines@.len() - i,
    {
        let shown = shown_line(&lines[i]);
        let ghost before = shown_views(out@);
        out.push(shown);
        proof {
            assert(lv[i as int] == lines@[i as int]@);
            assert(shown_views(out@) =~= before.push(shown_line_of(lv[i as int])));
            assert(lv.take(i + 1).map_values(|l: Seq<char>| shown_line_of(l)) =~= lv.take(i as int).map_values(
                |l: Seq<char>| shown_line_of(l),
            ).push(shown_line_of(lv[i as int])));
        }
        i = i + 1;
    }
    assert(lv.take(lines@.len() as int) =~= lv);
    out
}

/// How a line of the daily card's description is shown.
#[derive(Debug, Clone, Copy, PartialEq, Eq, Structural)]
pub enum InfoKind {
    Blank,
    Major,
    Minor,
    Detail,
}

/// A line of the daily card's description.
pub struct InfoLine {
    pub text: String,
    pub kind: InfoKind,
}

/// The lines of the daily card's description after its name: its arcana
/// (with the suit and the suit's element for the Minor Arcana), astrology
/// and numerology where it has them, its yes/no answer, and its keywords.
pub open spec fn card_info_of(card: Card) -> Seq<(Seq<char>, InfoKind)> {
    let kind: Seq<(Seq<char>, InfoKind)> = if card.arcana == ArcanaType::Major {
        seq![("Major Arcana"@, InfoKind::Major)]
    } else {
        seq![
            ("Minor Arcana — "@ + crate::cards::suit_label(card.suit->0)@, InfoKind::Minor),
            ("Element: "@ + crate::cards::element_label(crate::cards::suit_element(card.suit->0))@, InfoKind::Detail),
        ]
    };
    let astrology: Seq<(Seq<char>, InfoKind)> = match card.astrology {
        Some(a) => seq![("Astrology: "@ + a@, InfoKind::Detail)],
        None => Seq::empty(),
    };
    let numerology: Seq<(Seq<char>, InfoKind)> = match card.numerology {
        Some(n) => seq![("Numerology: "@ + n@, InfoKind::Detail)],
        None => Seq::empty(),
    };
    seq![(Seq::<char>::empty(), InfoKind::Blank)] + kind + astrology + numerology + seq![
        ("Yes/No: "@ + crate::cards::yes_or_no_label(card.yes_or_no)@, InfoKind::Detail),
        (Seq::<char>::empty(), InfoKind::Blank),
        ("Keywords: "@ + keywords_text(card), InfoKind::Detail),
    ]
}

/// The texts and kinds of description lines.
pub open spec fn info_views(lines: Seq<InfoLine>) -> Seq<(Seq<char>, InfoKind)> {
    lines.map_values(|l: InfoLine| (l.text@, l.kind))
}

fn push_info(lines: &mut Vec<InfoLine>, text: String, kind: InfoKind)
    ensures
        info_views(final(lines)@) == info_views(old(lines)@).push((text@, kind)),
{
    let ghost before = info_views(lines@);
    lines.push(InfoLine { text, kind });
    assert(info_views(lines@) =~= before.push((text@, kind)));
}

/// The daily card's description lines. A Minor Arcana card needs a suit.
pub fn card_info(card: &Card) -> (r: Vec<InfoLine>)
    requires
        card.arcana == ArcanaType::Minor ==> card.suit is Some,
    ensures
        info_views(r@) =~~= card_info_of(*card),
{
    let mut lines: Vec<InfoLine> = Vec::new();
    assert(info_views(lines@) =~= Seq::<(Seq<char>, InfoKind)>::empty());
    let ghost mut expect: Seq<(Seq<char>, InfoKind)> = seq![(Seq::<char>::empty(), InfoKind::Blank)];
    push_info(&mut lines, String::new(), InfoKind::Blank);
    if card.arcana == ArcanaType::Major {
        push_info(&mut lines, copy_str("Major Arcana"), InfoKind::Major);
        proof { expect = expect.push(("Major Arcana"@, InfoKind::Major)); }
    } else {
        let suit = match card.suit {
            Some(s) => s,
            None => Suit::Wands,
        };
        let mut t = copy_str("Minor Arcana — ");
        t.append(suit.as_str());
        push_info(&mut lines, t, InfoKind::Minor);
        let mut e = copy_str("Element: ");
        e.append(suit.element().as_str());
        push_info(&mut lines, e, InfoKind::Detail);
        proof {
            expect = expect.push(("Minor Arcana — "@ + crate::cards::suit_label(suit)@, InfoKind::Minor));
            expect = expect.push(("Element: "@ + crate::cards::element_label(crate::cards::suit_element(suit))@, InfoKind::Detail));
        }
    }
    match card.astrology {
        Some(a) => {
            let mut t = copy_str("Astrology: ");
            t.append(a);
            push_info(&mut lines, t, InfoKind::Detail);
            proof { expect = expect.push(("Astrology: "@ + a@, InfoKind::Detail)); }
        },
        None => {},
    }
    match card.numerology {
        Some(n) => {
            let mut t = copy_str("Numerology: ");
            t.append(n);
            push_info(&mut lines, t, InfoKind::Detail);
            proof { expect = expect.push(("Numerology: "@ + n@, InfoKind::Detail)); }
        },
        None => {},
    }
    let mut yn = copy_str("Yes/No: ");
    yn.append(card.yes_or_no.as_str());
    push_info(&mut lines, yn, InfoKind::Detail);
    push_info(&mut lines, String::new(), InfoKind::Blank);
    let mut kw = copy_str("Keywords: ");
    kw.append(card.keywords_string().as_str());
    push_info(&mut lines, kw, InfoKind::Detail);
    proof {
        expect = expect.push(("Yes/No: "@ + crate::cards::yes_or_no_label(card.yes_or_no)@, InfoKind::Detail));
        expect = expect.push((Seq::<char>::empty(), InfoKind::Blank));
        expect = expect.push(("Keywords: "@ + keywords_text(*card), InfoKind::Detail));
        assert(expect =~~= card_info_of(*card));
    }
    lines
}

} // verus!
