//! The lines the command-line commands print: each line a row of spans of
//! text, each span in one style. Rendering a span in its style is the
//! terminal's part; where a command measures the rendered text, the
//! rendering is asked for.

use vstd::prelude::*;
use vstd::string::StrSliceExecFns;

use crate::cards::{
    display_name_text, element_label, keywords_text, roman_of, suit_element, suit_label,
    yes_or_no_label, ArcanaType, Card,
};
use crate::cli::{
    byte_len, line_texts, repeat_char, spaces, truncate, views, visible_len, visible_scan,
    words_of, wrap_groups, wrap_lines,
};
use crate::text::{join_strs, join_text, str_views};
use crate::cards::{DrawnCard, Suit};
use crate::spreads::reading::{shown_count, Reading};
use crate::spreads::SpreadLayout;
use vstd::utf8::{encode_utf8, is_char_boundary};
use crate::ui::theme::style::{card_name, card_name_style, card_name_style_of, reversed, reversed_marker, reversed_style};
use crate::ui::theme::{colored, mocha, styled, styled_outcome, theme, Ink, TextStyle};

verus! {

/// A piece of text in one style.
#[derive(Debug, Clone)]
pub struct Span {
    pub text: String,
    pub style: TextStyle,
}

/// The text and style of a span.
pub open spec fn span_view(s: Span) -> (Seq<char>, TextStyle) {
    (s.text@, s.style)
}

/// The texts and styles of a line's spans.
pub open spec fn line_view(line: Seq<Span>) -> Seq<(Seq<char>, TextStyle)> {
    line.map_values(|s: Span| span_view(s))
}

/// The views of the lines of a page.
pub open spec fn page_view(page: Seq<Vec<Span>>) -> Seq<Seq<(Seq<char>, TextStyle)>> {
    page.map_values(|l: Vec<Span>| line_view(l@))
}

/// The text of a line with the styles left out.
pub open spec fn line_text_of(line: Seq<(Seq<char>, TextStyle)>) -> Seq<char>
    decreases line.len(),
{
    if line.len() == 0 {
        Seq::empty()
    } else {
        line_text_of(line.drop_last()) + line.last().0
    }
}

/// No colour and no emphasis.
pub open spec fn plain_style() -> TextStyle {
    TextStyle { ink: None, bold: false, underlined: false }
}

/// Bold, without colour.
pub open spec fn bold_style() -> TextStyle {
    TextStyle { ink: None, bold: true, underlined: false }
}

/// A span of text in a style.
pub fn span(text: &str, style: TextStyle) -> (s: Span)
    ensures
        span_view(s) == (text@, style),
{
    let mut t = String::new();
    t.append(text);
    Span { text: t, style }
}

/// A span holding a string in a style.
pub fn span_of(text: String, style: TextStyle) -> (s: Span)
    ensures
        span_view(s) == (text@, style),
{
    Span { text, style }
}

/// Add a span to the end of a line.
pub fn push_span(line: &mut Vec<Span>, s: Span)
    ensures
        line_view(final(line)@) == line_view(old(line)@).push(span_view(s)),
{
    let ghost before = line_view(line@);
    line.push(s);
    assert(line_view(line@) =~= before.push(span_view(s)));
}

/// Add a line to the end of a page.
pub fn push_line(page: &mut Vec<Vec<Span>>, line: Vec<Span>)
    ensures
        page_view(final(page)@) == page_view(old(page)@).push(line_view(line@)),
{
    let ghost before = page_view(page@);
    page.push(line);
    assert(page_view(page@) =~= before.push(line_view(line@)));
}

/// Add the lines of one page to the end of another.
pub fn append_page(page: &mut Vec<Vec<Span>>, more: Vec<Vec<Span>>)
    ensures
        page_view(final(page)@) == page_view(old(page)@) + page_view(more@),
{
    let ghost a = page@;
    let ghost b = more@;
    let mut more = more;
    page.append(&mut more);
    assert(page_view(page@) =~= page_view(a) + page_view(b));
}

/// The empty line.
pub fn blank_line() -> (l: Vec<Span>)
    ensures
        line_view(l@) == Seq::<(Seq<char>, TextStyle)>::empty(),
{
    let l: Vec<Span> = Vec::new();
    assert(line_view(l@) =~= Seq::<(Seq<char>, TextStyle)>::empty());
    l
}

/// `n` spaces as a string.
fn space_string(n: usize) -> (r: String)
    ensures
        r@ == spaces(n as nat),
{
    let r = repeat_char(' ', n);
    assert(r@ =~= spaces(n as nat));
    r
}

/// The width of the boxes the command line draws.
pub const BOX_WIDTH: usize = 66;

/// The title text of a header.
pub open spec fn header_title(title: Seq<char>) -> Seq<char> {
    " 🔮 "@ + title + " "@
}

/// The lines of a header: a double-ruled box in mauve around the bold
/// title, centred by its byte length.
pub open spec fn header_page(title: Seq<char>) -> Seq<Seq<(Seq<char>, TextStyle)>> {
    let t = header_title(title);
    let len = byte_len(t);
    let padding = ((66 - len) / 2) as nat;
    let mauve = colored(mocha().mauve);
    seq![
        seq![("╔"@, mauve), (Seq::new(66, |_i: int| '═'), mauve), ("╗"@, mauve)],
        seq![
            ("║"@, mauve),
            (spaces(padding), plain_style()),
            (t, bold_style()),
            (spaces((66 - padding - len) as nat), plain_style()),
            ("║"@, mauve),
        ],
        seq![("╚"@, mauve), (Seq::new(66, |_i: int| '═'), mauve), ("╝"@, mauve)],
    ]
}

/// Print a header with box drawing: its lines. The title must fit the box.
pub fn header_lines(title: &str) -> (r: Vec<Vec<Span>>)
    requires
        byte_len(header_title(title@)) <= 66,
    ensures
        page_view(r@) == header_page(title@),
{
    let mauve = TextStyle { ink: Some(Ink::Rgb(crate::ui::theme::theme().mauve)), bold: false, underlined: false };
    let mut title_text = String::new();
    title_text.append(" 🔮 ");
    title_text.append(title);
    title_text.append(" ");
    let title_len = title_text.as_str().len();
    let padding = (BOX_WIDTH - title_len) / 2;
    let mut page: Vec<Vec<Span>> = Vec::new();
    let mut top: Vec<Span> = Vec::new();
    push_span(&mut top, span("╔", mauve));
    push_span(&mut top, span_of(repeat_char('═', BOX_WIDTH), mauve));
    push_span(&mut top, span("╗", mauve));
    push_line(&mut page, top);
    let mut middle: Vec<Span> = Vec::new();
    push_span(&mut middle, span("║", mauve));
    push_span(&mut middle, span_of(space_string(padding), TextStyle { ink: None, bold: false, underlined: false }));
    push_span(&mut middle, span_of(title_text, TextStyle { ink: None, bold: true, underlined: false }));
    push_span(&mut middle, span_of(space_string(BOX_WIDTH - padding - title_len), TextStyle { ink: None, bold: false, underlined: false }));
    push_span(&mut middle, span("║", mauve));
    push_line(&mut page, middle);
    let mut bottom: Vec<Span> = Vec::new();
    push_span(&mut bottom, span("╚", mauve));
    push_span(&mut bottom, span_of(repeat_char('═', BOX_WIDTH), mauve));
    push_span(&mut bottom, span("╝", mauve));
    push_line(&mut page, bottom);
    assert(page_view(page@) =~~= header_page(title@));
    page
}

/// The theme's lavender.
pub open spec fn lavender_style() -> TextStyle {
    colored(mocha().lavender)
}

/// The theme's subdued text colour.
pub open spec fn subtext_style() -> TextStyle {
    colored(mocha().subtext0)
}

/// The theme's sky blue.
pub open spec fn sky_style() -> TextStyle {
    colored(mocha().sky)
}

/// The theme's mauve.
pub open spec fn mauve_style() -> TextStyle {
    colored(mocha().mauve)
}

/// A terminal colour, bold.
pub open spec fn named_bold(ink: Ink) -> TextStyle {
    TextStyle { ink: Some(ink), bold: true, underlined: false }
}

pub fn lavender() -> (t: TextStyle)
    ensures
        t == lavender_style(),
{
    TextStyle { ink: Some(Ink::Rgb(crate::ui::theme::theme().lavender)), bold: false, underlined: false }
}

pub fn subtext() -> (t: TextStyle)
    ensures
        t == subtext_style(),
{
    TextStyle { ink: Some(Ink::Rgb(crate::ui::theme::theme().subtext0)), bold: false, underlined: false }
}

pub fn sky() -> (t: TextStyle)
    ensures
        t == sky_style(),
{
    TextStyle { ink: Some(Ink::Rgb(crate::ui::theme::theme().sky)), bold: false, underlined: false }
}

pub fn mauve() -> (t: TextStyle)
    ensures
        t == mauve_style(),
{
    TextStyle { ink: Some(Ink::Rgb(crate::ui::theme::theme().mauve)), bold: false, underlined: false }
}

pub fn plain() -> (t: TextStyle)
    ensures
        t == plain_style(),
{
    TextStyle { ink: None, bold: false, underlined: false }
}

/// The text of a line with the styles left out.
pub fn plain_text(line: &Vec<Span>) -> (r: String)
    ensures
        r@ == line_text_of(line_view(line@)),
{
    let mut r = String::new();
    let mut i: usize = 0;
    while i < line.len()
        invariant
            i <= line@.len(),
            r@ == line_text_of(line_view(line@).take(i as int)),
        decreases line@.len() - i,
    {
        proof {
            assert(line_view(line@).take(i + 1).drop_last() =~= line_view(line@).take(i as int));
            assert(line_view(line@).take(i + 1).last() == span_view(line@[i as int]));
            if i == 0 {
                assert(line_view(line@).take(0) =~= Seq::<(Seq<char>, TextStyle)>::empty());
            }
        }
        r.append(line[i].text.as_str());
        i = i + 1;
    }
    assert(line_view(line@).take(line@.len() as int) =~= line_view(line@));
    r
}

/// A line with a left and a right border, the content padded with spaces so
/// that the right border stands `width` visible characters after the left one.
pub open spec fn bordered(
    left: (Seq<char>, TextStyle),
    content: Seq<(Seq<char>, TextStyle)>,
    right: (Seq<char>, TextStyle),
    width: nat,
) -> Seq<(Seq<char>, TextStyle)> {
    let visible = visible_scan(line_text_of(content)).1;
    let padding: nat = if visible < width {
        (width - visible) as nat
    } else {
        0
    };
    seq![left] + content + seq![(spaces(padding), plain_style()), right]
}

/// Print a line with content that has a left border and right border at exact width
pub fn content_line(left: Span, content: Vec<Span>, right: Span, width: usize) -> (r: Vec<Span>)
    ensures
        line_view(r@) == bordered(span_view(left), line_view(content@), span_view(right), width as nat),
{
    let text = plain_text(&content);
    let visible = visible_len(text.as_str());
    let padding = if visible < width {
        width - visible
    } else {
        0
    };
    let mut line: Vec<Span> = Vec::new();
    push_span(&mut line, left);
    let ghost start = line_view(line@);
    let ghost old_line = line@;
    let mut content = content;
    let ghost c = line_view(content@);
    let ghost cv = content@;
    line.append(&mut content);
    assert(line@ == old_line + cv);
    assert(line_view(line@) =~= start + c);
    push_span(&mut line, span_of(space_string(padding), plain()));
    push_span(&mut line, right);
    assert(line_view(line@) =~= bordered(span_view(left), c, span_view(right), width as nat));
    line
}

/// A line inside the card box: lavender borders 66 characters apart.
pub open spec fn boxed(content: Seq<(Seq<char>, TextStyle)>) -> Seq<(Seq<char>, TextStyle)> {
    bordered(("│"@, lavender_style()), content, ("│"@, lavender_style()), 66)
}

fn boxed_line(content: Vec<Span>) -> (r: Vec<Span>)
    ensures
        line_view(r@) == boxed(line_view(content@)),
{
    content_line(span("│", lavender()), content, span("│", lavender()), BOX_WIDTH)
}

/// A rule across the card box: plain corners around a lavender bar.
pub open spec fn rule(left: Seq<char>, right: Seq<char>) -> Seq<(Seq<char>, TextStyle)> {
    seq![(left, plain_style()), (Seq::new(66, |_i: int| '─'), lavender_style()), (right, plain_style())]
}

fn rule_line(left: &str, right: &str) -> (r: Vec<Span>)
    ensures
        line_view(r@) =~~= rule(left@, right@),
{
    let mut line: Vec<Span> = Vec::new();
    push_span(&mut line, span(left, plain()));
    push_span(&mut line, span_of(repeat_char('─', BOX_WIDTH), lavender()));
    push_span(&mut line, span(right, plain()));
    line
}

/// A line of one plain span.
pub fn text_line(text: String) -> (r: Vec<Span>)
    ensures
        line_view(r@) == seq![(text@, plain_style())],
{
    let mut line: Vec<Span> = Vec::new();
    push_span(&mut line, span_of(text, plain()));
    line
}

/// The lines of a text wrapped to a width, as the command line wraps meanings.
pub open spec fn wrapped(text: Seq<char>, width: nat) -> Seq<Seq<char>> {
    line_texts(wrap_groups(words_of(text), width))
}

/// A row of the card box holding an indented line of a meaning.
pub open spec fn indented_row(l: Seq<char>) -> Seq<(Seq<char>, TextStyle)> {
    boxed(seq![("   "@ + l, plain_style())])
}

/// The rows of the card box holding indented lines.
pub open spec fn indented_rows(lines: Seq<Seq<char>>) -> Seq<Seq<(Seq<char>, TextStyle)>> {
    Seq::new(lines.len(), |i: int| indented_row(lines[i]))
}

/// The rows of a meaning in the card box: the label before the first line,
/// the following lines indented.
pub open spec fn meaning_rows(label: Seq<char>, style: TextStyle, lines: Seq<Seq<char>>) -> Seq<
    Seq<(Seq<char>, TextStyle)>,
> {
    if lines.len() == 0 {
        Seq::empty()
    } else {
        seq![boxed(seq![(" "@, plain_style()), (label, style), (": "@ + lines[0], plain_style())])]
            + indented_rows(lines.drop_first())
    }
}

fn meaning_lines(label: &str, style: TextStyle, text: &str) -> (r: Vec<Vec<Span>>)
    ensures
        page_view(r@) == meaning_rows(label@, style, wrapped(text@, 62)),
{
    let lines = wrap_lines(text, 62);
    let ghost lv = views(lines@);
    let mut page: Vec<Vec<Span>> = Vec::new();
    if lines.len() == 0 {
        assert(page_view(page@) =~= Seq::<Seq<(Seq<char>, TextStyle)>>::empty());
        return page;
    }
    let mut first: Vec<Span> = Vec::new();
    push_span(&mut first, span(" ", plain()));
    push_span(&mut first, span(label, style));
    let mut rest = String::new();
    rest.append(": ");
    rest.append(lines[0].as_str());
    push_span(&mut first, span_of(rest, plain()));
    assert(line_view(first@) =~= seq![(" "@, plain_style()), (label@, style), (": "@ + lv[0], plain_style())]);
    push_line(&mut page, boxed_line(first));
    let ghost head = page_view(page@);
    assert(indented_rows(lv.drop_first().take(0)) =~= Seq::<Seq<(Seq<char>, TextStyle)>>::empty());
    let mut i: usize = 1;
    while i < lines.len()
        invariant
            1 <= i <= lines@.len(),
            lv == views(lines@),
            page_view(page@) == head + indented_rows(lv.drop_first().take(i - 1)),
        decreases lines@.len() - i,
    {
        let mut text = String::new();
        text.append("   ");
        text.append(lines[i].as_str());
        let ghost before = page_view(page@);
        push_line(&mut page, boxed_line(text_line(text)));
        proof {
            assert(lv.drop_first().take(i as int) =~= lv.drop_first().take(i - 1).push(lv[i as int]));
            assert(lv[i as int] == lines@[i as int]@);
            assert(indented_rows(lv.drop_first().take(i as int)) =~= indented_rows(lv.drop_first().take(i - 1)).push(
                indented_row(lv[i as int])));
        }
        i = i + 1;
    }
    proof {
        assert(lv.drop_first().take(lines@.len() - 1) =~= lv.drop_first());
        assert(lv[0] == lines@[0]@);
        assert(page_view(page@) =~= meaning_rows(label@, style, wrapped(text@, 62)));
    }
    page
}

/// The kind of a card and where it belongs: Major Arcana with its numeral,
/// or Minor Arcana with its suit and the suit's element.
pub open spec fn arcana_info(card: Card) -> Seq<char> {
    if card.arcana == ArcanaType::Major {
        let numeral: Seq<char> = match roman_of(card) {
            Some(r) => r@,
            None => Seq::empty(),
        };
        "Major Arcana "@ + numeral
    } else {
        let suit: Seq<char> = match card.suit {
            Some(s) => suit_label(s)@,
            None => Seq::empty(),
        };
        let element: Seq<char> = match card.suit {
            Some(s) => element_label(suit_element(s))@,
            None => Seq::empty(),
        };
        "Minor Arcana — "@ + suit + " ("@ + element + ")"@
    }
}

fn arcana_info_text(card: &Card) -> (r: String)
    ensures
        r@ == arcana_info(*card),
{
    let mut r = String::new();
    if card.arcana == ArcanaType::Major {
        r.append("Major Arcana ");
        match card.roman_numeral() {
            Some(numeral) => r.append(numeral),
            None => {},
        }
        proof {
            reveal_strlit("");
        }
    } else {
        r.append("Minor Arcana — ");
        match card.suit {
            Some(s) => r.append(s.as_str()),
            None => {},
        }
        r.append(" (");
        match card.suit {
            Some(s) => r.append(s.element().as_str()),
            None => {},
        }
        r.append(")");
    }
    assert(r@ =~= arcana_info(*card));
    r
}

/// A row of the card box that names an attribute and gives its value in sky blue.
pub open spec fn attribute_row(label: Seq<char>, value: Seq<char>) -> Seq<(Seq<char>, TextStyle)> {
    boxed(seq![(" "@ + label + spaces((12 - label.len()) as nat) + " "@, plain_style()), (value, sky_style())])
}

fn attribute_line(label: &str, value: &str) -> (r: Vec<Span>)
    requires
        label@.len() <= 12,
    ensures
        line_view(r@) == attribute_row(label@, value@),
{
    let mut head = String::new();
    head.append(" ");
    head.append(label);
    let n = label.unicode_len();
    head.append(space_string(12 - n).as_str());
    head.append(" ");
    let mut line: Vec<Span> = Vec::new();
    let ghost h = head@;
    push_span(&mut line, span_of(head, plain()));
    push_span(&mut line, span(value, sky()));
    assert(h =~= " "@ + label@ + spaces((12 - label@.len()) as nat) + " "@);
    assert(line_view(line@) =~= seq![(" "@ + label@ + spaces((12 - label@.len()) as nat) + " "@, plain_style()), (value@, sky_style())]);
    boxed_line(line)
}

/// The title row of the card box: the card's name after a star, bold, centred
/// by its visible length.
pub open spec fn title_row(card: Card) -> Seq<(Seq<char>, TextStyle)> {
    let display = display_name_text(card);
    let visible = visible_scan("✦ "@ + display).1;
    let padding: nat = if visible < 66 {
        ((66 - visible) / 2) as nat
    } else {
        0
    };
    boxed(seq![(spaces(padding), plain_style()), ("✦"@, bold_style()), (" "@, plain_style()), (display, bold_style())])
}

/// The head of the card box: its top, the title, the kind of card and its keywords.
pub open spec fn detail_head(card: Card) -> Seq<Seq<(Seq<char>, TextStyle)>> {
    seq![
        rule("╭"@, "╮"@),
        title_row(card),
        rule("├"@, "┤"@),
        boxed(seq![(" "@ + arcana_info(card), plain_style())]),
        boxed(seq![("  "@, plain_style()), (" Keywords: "@ + keywords_text(card), subtext_style())]),
        rule("├"@, "┤"@),
    ]
}

fn detail_head_lines(card: &Card) -> (r: Vec<Vec<Span>>)
    ensures
        page_view(r@) =~~= detail_head(*card),
{
    let mut page: Vec<Vec<Span>> = Vec::new();
    let top = rule_line("╭", "╮");
    let display = card.display_name();
    let mut title_plain = String::new();
    title_plain.append("✦ ");
    title_plain.append(display.as_str());
    let visible = visible_len(title_plain.as_str());
    let padding = if visible < BOX_WIDTH {
        (BOX_WIDTH - visible) / 2
    } else {
        0
    };
    let mut title: Vec<Span> = Vec::new();
    let ghost d = display@;
    push_span(&mut title, span_of(space_string(padding), plain()));
    push_span(&mut title, span("✦", TextStyle { ink: None, bold: true, underlined: false }));
    push_span(&mut title, span(" ", plain()));
    push_span(&mut title, span_of(display, TextStyle { ink: None, bold: true, underlined: false }));
    assert(line_view(title@) =~= seq![(spaces(padding as nat), plain_style()), ("✦"@, bold_style()), (" "@, plain_style()), (d, bold_style())]);
    let title_row_line = boxed_line(title);
    assert(line_view(title_row_line@) == title_row(*card));
    let sep = rule_line("├", "┤");
    let mut info = String::new();
    info.append(" ");
    info.append(arcana_info_text(card).as_str());
    let info_line = boxed_line(text_line(info));
    let mut keywords = String::new();
    keywords.append(" Keywords: ");
    keywords.append(card.keywords_string().as_str());
    let ghost k = keywords@;
    let mut kw_line: Vec<Span> = Vec::new();
    push_span(&mut kw_line, span("  ", plain()));
    push_span(&mut kw_line, span_of(keywords, subtext()));
    assert(line_view(kw_line@) =~= seq![("  "@, plain_style()), (k, subtext_style())]);
    let kw_row = boxed_line(kw_line);
    let sep2 = rule_line("├", "┤");
    let ghost expect = detail_head(*card);
    assert(line_view(top@) =~~= expect[0]);
    assert(line_view(sep@) =~~= expect[2]);
    assert(line_view(sep2@) =~~= expect[5]);
    push_line(&mut page, top);
    push_line(&mut page, title_row_line);
    push_line(&mut page, sep);
    push_line(&mut page, info_line);
    push_line(&mut page, kw_row);
    push_line(&mut page, sep2);
    page
}

/// The rows of a card's attributes: its element, astrology and numerology
/// where it has them, and its yes/no answer.
pub open spec fn detail_attributes(card: Card) -> Seq<Seq<(Seq<char>, TextStyle)>> {
    let element_rows: Seq<Seq<(Seq<char>, TextStyle)>> = match card.element {
        Some(e) => seq![attribute_row("Element:"@, element_label(e)@)],
        None => Seq::empty(),
    };
    let astrology_rows: Seq<Seq<(Seq<char>, TextStyle)>> = match card.astrology {
        Some(a) => seq![attribute_row("Astrology:"@, a@)],
        None => Seq::empty(),
    };
    let numerology_rows: Seq<Seq<(Seq<char>, TextStyle)>> = match card.numerology {
        Some(n) => seq![attribute_row("Numerology:"@, n@)],
        None => Seq::empty(),
    };
    element_rows + astrology_rows + numerology_rows + seq![
        attribute_row("Yes/No:"@, yes_or_no_label(card.yes_or_no)@),
    ]
}

fn detail_attribute_lines(card: &Card) -> (r: Vec<Vec<Span>>)
    ensures
        page_view(r@) =~~= detail_attributes(*card),
{
    proof {
        reveal_strlit("Element:");
        reveal_strlit("Astrology:");
        reveal_strlit("Numerology:");
        reveal_strlit("Yes/No:");
    }
    let mut page: Vec<Vec<Span>> = Vec::new();
    let ghost mut expect: Seq<Seq<(Seq<char>, TextStyle)>> = Seq::empty();
    match card.element {
        Some(e) => {
            push_line(&mut page, attribute_line("Element:", e.as_str()));
            proof { expect = expect.push(attribute_row("Element:"@, element_label(e)@)); }
        },
        None => {},
    }
    match card.astrology {
        Some(a) => {
            push_line(&mut page, attribute_line("Astrology:", a));
            proof { expect = expect.push(attribute_row("Astrology:"@, a@)); }
        },
        None => {},
    }
    match card.numerology {
        Some(n) => {
            push_line(&mut page, attribute_line("Numerology:", n));
            proof { expect = expect.push(attribute_row("Numerology:"@, n@)); }
        },
        None => {},
    }
    push_line(&mut page, attribute_line("Yes/No:", card.yes_or_no.as_str()));
    proof {
        expect = expect.push(attribute_row("Yes/No:"@, yes_or_no_label(card.yes_or_no)@));
        assert(expect =~~= detail_attributes(*card));
    }
    page
}

/// The lines of a card's full description in its box.
pub open spec fn card_detail_page(card: Card) -> Seq<Seq<(Seq<char>, TextStyle)>> {
    detail_head(card) + meaning_rows("Upright"@, named_bold(Ink::Green), wrapped(card.upright@, 62))
        + seq![rule("├"@, "┤"@)] + meaning_rows(
        "Reversed"@,
        named_bold(Ink::Yellow),
        wrapped(card.reversed@, 62),
    ) + seq![rule("├"@, "┤"@)] + detail_attributes(card) + seq![rule("╰"@, "╯"@)]
}

/// Print detailed card information: its lines
pub fn card_detail_lines(card: &Card) -> (r: Vec<Vec<Span>>)
    ensures
        page_view(r@) =~~= card_detail_page(*card),
{
    let mut page = detail_head_lines(card);
    append_page(&mut page, meaning_lines("Upright", TextStyle { ink: Some(Ink::Green), bold: true, underlined: false }, card.upright));
    push_line(&mut page, rule_line("├", "┤"));
    append_page(&mut page, meaning_lines("Reversed", TextStyle { ink: Some(Ink::Yellow), bold: true, underlined: false }, card.reversed));
    push_line(&mut page, rule_line("├", "┤"));
    append_page(&mut page, detail_attribute_lines(card));
    push_line(&mut page, rule_line("╰", "╯"));
    page
}

/// A rule across a drawn card's box, all in lavender.
pub open spec fn lavender_rule(left: Seq<char>, right: Seq<char>) -> Seq<(Seq<char>, TextStyle)> {
    seq![(left, lavender_style()), (Seq::new(66, |_i: int| '─'), lavender_style()), (right, lavender_style())]
}

fn lavender_rule_line(left: &str, right: &str) -> (r: Vec<Span>)
    ensures
        line_view(r@) =~~= lavender_rule(left@, right@),
{
    let mut line: Vec<Span> = Vec::new();
    push_span(&mut line, span(left, lavender()));
    push_span(&mut line, span_of(repeat_char('─', BOX_WIDTH), lavender()));
    push_span(&mut line, span(right, lavender()));
    line
}

/// The position row of a drawn card's box: the position's name, bold in sky
/// blue, centred by its byte length.
pub open spec fn position_row(position_name: Seq<char>) -> Seq<(Seq<char>, TextStyle)> {
    let text = " Position: "@ + position_name + " "@;
    let len = byte_len(text);
    let padding = ((66 - len) / 2) as nat;
    seq![
        ("│"@, lavender_style()),
        (spaces(padding), plain_style()),
        (text, TextStyle { ink: Some(Ink::Rgb(mocha().sky)), bold: true, underlined: false }),
        (spaces((66 - padding - len) as nat), plain_style()),
        ("│"@, lavender_style()),
    ]
}

/// The card row of a drawn card's box, given the two paddings: the card's
/// name in its style after a star, and the reversal marker when reversed.
pub open spec fn card_row(drawn: DrawnCard, left_pad: nat, right_pad: nat) -> Seq<(Seq<char>, TextStyle)> {
    let name = seq![(" ✦ "@, plain_style()), (display_name_text(drawn.card), card_name_style_of(drawn.card))];
    let marker: Seq<(Seq<char>, TextStyle)> = if drawn.reversed {
        seq![(" "@, plain_style()), (reversed_marker(), named_bold(Ink::Rgb(mocha().yellow)))]
    } else {
        Seq::empty()
    };
    seq![("│"@, lavender_style()), (spaces(left_pad), plain_style())] + name + marker + seq![
        (spaces(right_pad), plain_style()),
        ("│"@, lavender_style()),
    ]
}

/// The keywords row of a drawn card's box, given the padding after the keywords.
pub open spec fn keywords_row(drawn: DrawnCard, pad: nat) -> Seq<(Seq<char>, TextStyle)> {
    seq![
        ("│"@, lavender_style()),
        (" Keywords: "@, plain_style()),
        (keywords_text(drawn.card), subtext_style()),
        (spaces(pad), plain_style()),
        (" "@, plain_style()),
        ("│"@, lavender_style()),
    ]
}

/// A row of a drawn card's meaning, padded to 63 characters.
pub open spec fn meaning_line_row(line: Seq<char>) -> Seq<(Seq<char>, TextStyle)> {
    let pad: nat = if line.len() < 63 {
        (63 - line.len()) as nat
    } else {
        0
    };
    seq![
        ("│"@, lavender_style()),
        ("   "@ + line + spaces(pad) + " "@, plain_style()),
        ("│"@, lavender_style()),
    ]
}

/// The rows of a drawn card's meaning.
pub open spec fn meaning_line_rows(lines: Seq<Seq<char>>) -> Seq<Seq<(Seq<char>, TextStyle)>> {
    Seq::new(lines.len(), |i: int| meaning_line_row(lines[i]))
}

/// The label of a drawn card's meaning: green "Meaning" upright, yellow
/// "Meaning (Reversed)" reversed, both bold.
pub open spec fn meaning_label_row(drawn: DrawnCard) -> Seq<(Seq<char>, TextStyle)> {
    seq![
        ("│"@, lavender_style()),
        (" "@, plain_style()),
        if drawn.reversed {
            ("Meaning (Reversed)"@, named_bold(Ink::Yellow))
        } else {
            ("Meaning"@, named_bold(Ink::Green))
        },
        (":"@, plain_style()),
    ]
}

/// The lines of a drawn card's box, given the paddings the terminal's
/// rendering decided.
pub open spec fn drawn_card_page(
    position_name: Seq<char>,
    drawn: DrawnCard,
    left_pad: nat,
    right_pad: nat,
    keywords_pad: nat,
) -> Seq<Seq<(Seq<char>, TextStyle)>> {
    let meaning = (if drawn.reversed {
        drawn.card.reversed
    } else {
        drawn.card.upright
    })@;
    seq![
        lavender_rule("┌"@, "┐"@),
        position_row(position_name),
        lavender_rule("├"@, "┤"@),
        card_row(drawn, left_pad, right_pad),
        lavender_rule("├"@, "┤"@),
        keywords_row(drawn, keywords_pad),
        lavender_rule("├"@, "┤"@),
        meaning_label_row(drawn),
    ] + meaning_line_rows(wrapped(meaning, 62)) + seq![lavender_rule("└"@, "┘"@)]
}

/// The paddings of a drawn card's box. The card row is centred by the byte
/// length of its rendered text, escape codes included, and the keywords are
/// padded to 55 characters of their rendered text: `rendered` and
/// `rendered_keywords` are those lengths, of texts the terminal styling
/// rendered (see `styled_outcome`).
pub open spec fn drawn_card_pads(
    drawn: DrawnCard,
    left_pad: nat,
    right_pad: nat,
    keywords_pad: nat,
    rendered: nat,
    rendered_keywords: nat,
) -> bool {
    &&& left_pad == (66 - if rendered < 66 {
        rendered
    } else {
        66
    }) / 2
    &&& right_pad == if left_pad + rendered < 66 {
        (66 - left_pad - rendered) as nat
    } else {
        0
    }
    &&& exists|rn: Seq<char>, rr: Seq<char>|
        #[trigger] card_rendering(drawn, rn, rr) && rendered == byte_len(card_row_text(drawn, rn, rr)) as usize
    &&& exists|rk: Seq<char>|
        #[trigger] styled_outcome(keywords_text(drawn.card), subtext_style(), rk) && rendered_keywords == rk.len()
    &&& keywords_pad == if rendered_keywords < 55 {
        (55 - rendered_keywords) as nat
    } else {
        0
    }
}

/// `rn` and `rr` are what the terminal styling rendered for a drawn card's
/// name and, when it is reversed, for the reversal marker.
pub open spec fn card_rendering(drawn: DrawnCard, rn: Seq<char>, rr: Seq<char>) -> bool {
    &&& styled_outcome(display_name_text(drawn.card), card_name_style_of(drawn.card), rn)
    &&& drawn.reversed ==> styled_outcome(reversed_marker(), reversed_style(), rr)
}

/// The text a drawn card's row is centred by: a star, the rendered name, and
/// the rendered reversal marker when the card is reversed.
pub open spec fn card_row_text(drawn: DrawnCard, rn: Seq<char>, rr: Seq<char>) -> Seq<char> {
    " ✦ "@ + rn + if drawn.reversed {
        " "@ + rr
    } else {
        Seq::<char>::empty()
    }
}

/// The lines of a drawn card's box, with some paddings the rendering decided.
pub open spec fn is_drawn_card_page(page: Seq<Seq<(Seq<char>, TextStyle)>>, position_name: Seq<char>, drawn: DrawnCard) -> bool {
    exists|left_pad: nat, right_pad: nat, keywords_pad: nat, rendered: nat, rendered_keywords: nat|
        drawn_card_pads(drawn, left_pad, right_pad, keywords_pad, rendered, rendered_keywords)
            && page =~~= drawn_card_page(position_name, drawn, left_pad, right_pad, keywords_pad)
}

fn meaning_box_lines(meaning: &str) -> (r: Vec<Vec<Span>>)
    ensures
        page_view(r@) =~~= meaning_line_rows(wrapped(meaning@, 62)),
{
    let lines = wrap_lines(meaning, 62);
    let ghost lv = views(lines@);
    let mut page: Vec<Vec<Span>> = Vec::new();
    let mut i: usize = 0;
    assert(page_view(page@) =~= meaning_line_rows(lv.take(0)));
    while i < lines.len()
        invariant
            i <= lines@.len(),
            lv == views(lines@),
            page_view(page@) =~~= meaning_line_rows(lv.take(i as int)),
        decreases lines@.len() - i,
    {
        let n = lines[i].as_str().unicode_len();
        let pad = if n < 63 {
            63 - n
        } else {
            0
        };
        let mut text = String::new();
        text.append("   ");
        text.append(lines[i].as_str());
        text.append(space_string(pad).as_str());
        text.append(" ");
        let ghost t = text@;
        let mut row: Vec<Span> = Vec::new();
        push_span(&mut row, span("│", lavender()));
        push_span(&mut row, span_of(text, plain()));
        push_span(&mut row, span("│", lavender()));
        proof {
            assert(lv[i as int] == lines@[i as int]@);
            assert(line_view(row@) =~~= meaning_line_row(lv[i as int]));
            assert(meaning_line_rows(lv.take(i + 1)) =~~= meaning_line_rows(lv.take(i as int)).push(
                meaning_line_row(lv[i as int]),
            ));
        }
        push_line(&mut page, row);
        i = i + 1;
    }
    assert(lv.take(lines@.len() as int) =~= lv);
    page
}

/// Print a drawn card in reading context: the lines of its box
#[verifier::rlimit(40)]
pub fn drawn_card_lines(position_name: &str, drawn: &DrawnCard) -> (r: Vec<Vec<Span>>)
    requires
        byte_len(" Position: "@ + position_name@ + " "@) <= 66,
    ensures
        is_drawn_card_page(page_view(r@), position_name@, *drawn),
{
    let mut page: Vec<Vec<Span>> = Vec::new();
    push_line(&mut page, lavender_rule_line("┌", "┐"));
    // position row
    let mut pos_text = String::new();
    pos_text.append(" Position: ");
    pos_text.append(position_name);
    pos_text.append(" ");
    let pos_len = pos_text.as_str().len();
    let padding = (BOX_WIDTH - pos_len) / 2;
    let ghost pt = pos_text@;
    let mut pos_row: Vec<Span> = Vec::new();
    push_span(&mut pos_row, span("│", lavender()));
    push_span(&mut pos_row, span_of(space_string(padding), plain()));
    push_span(&mut pos_row, span_of(pos_text, TextStyle { ink: Some(Ink::Rgb(theme().sky)), bold: true, underlined: false }));
    push_span(&mut pos_row, span_of(space_string(BOX_WIDTH - padding - pos_len), plain()));
    push_span(&mut pos_row, span("│", lavender()));
    assert(line_view(pos_row@) =~~= position_row(position_name@));
    push_line(&mut page, pos_row);
    push_line(&mut page, lavender_rule_line("├", "┤"));
    // card row: centred by the byte length of its rendered text
    let display = drawn.card.display_name();
    let name_style = card_name_style(&drawn.card);
    let rendered_name = styled(display.as_str(), name_style);
    let mut card_text = String::new();
    card_text.append(" ✦ ");
    card_text.append(rendered_name.as_str());
    let ghost mut rr: Seq<char> = Seq::empty();
    if drawn.reversed {
        let rendered_rev = reversed();
        proof {
            rr = rendered_rev@;
        }
        card_text.append(" ");
        card_text.append(rendered_rev.as_str());
    }
    proof {
        assert(card_text@ =~= card_row_text(*drawn, rendered_name@, rr));
        assert(card_rendering(*drawn, rendered_name@, rr));
    }
    let card_len = card_text.as_str().len();
    let shown = if card_len < BOX_WIDTH {
        card_len
    } else {
        BOX_WIDTH
    };
    let card_padding = (BOX_WIDTH - shown) / 2;
    let right_padding = if card_len < BOX_WIDTH && card_padding + card_len < BOX_WIDTH {
        BOX_WIDTH - card_padding - card_len
    } else {
        0
    };
    let ghost dv = display@;
    let mut card_row_line: Vec<Span> = Vec::new();
    push_span(&mut card_row_line, span("│", lavender()));
    push_span(&mut card_row_line, span_of(space_string(card_padding), plain()));
    push_span(&mut card_row_line, span(" ✦ ", plain()));
    push_span(&mut card_row_line, span_of(display, name_style));
    let ghost head = line_view(card_row_line@);
    if drawn.reversed {
        push_span(&mut card_row_line, span(" ", plain()));
        push_span(&mut card_row_line, span("⟳ REVERSED", TextStyle { ink: Some(Ink::Rgb(theme().yellow)), bold: true, underlined: false }));
    }
    let ghost mid = line_view(card_row_line@);
    push_span(&mut card_row_line, span_of(space_string(right_padding), plain()));
    push_span(&mut card_row_line, span("│", lavender()));
    proof {
        reveal_strlit("⟳ REVERSED");
        assert(line_view(card_row_line@) =~~= card_row(*drawn, card_padding as nat, right_padding as nat));
    }
    push_line(&mut page, card_row_line);
    push_line(&mut page, lavender_rule_line("├", "┤"));
    // keywords row: padded to 55 characters of its rendered text
    let keywords = drawn.keywords();
    let rendered_keywords = styled(keywords.as_str(), subtext());
    let kw_chars = rendered_keywords.as_str().unicode_len();
    let kw_pad = if kw_chars < 55 {
        55 - kw_chars
    } else {
        0
    };
    let ghost kv = keywords@;
    let mut kw_row: Vec<Span> = Vec::new();
    push_span(&mut kw_row, span("│", lavender()));
    push_span(&mut kw_row, span(" Keywords: ", plain()));
    push_span(&mut kw_row, span_of(keywords, subtext()));
    push_span(&mut kw_row, span_of(space_string(kw_pad), plain()));
    push_span(&mut kw_row, span(" ", plain()));
    push_span(&mut kw_row, span("│", lavender()));
    assert(line_view(kw_row@) =~~= keywords_row(*drawn, kw_pad as nat));
    push_line(&mut page, kw_row);
    push_line(&mut page, lavender_rule_line("├", "┤"));
    // meaning
    let mut label_row: Vec<Span> = Vec::new();
    push_span(&mut label_row, span("│", lavender()));
    push_span(&mut label_row, span(" ", plain()));
    if drawn.reversed {
        push_span(&mut label_row, span("Meaning (Reversed)", TextStyle { ink: Some(Ink::Yellow), bold: true, underlined: false }));
    } else {
        push_span(&mut label_row, span("Meaning", TextStyle { ink: Some(Ink::Green), bold: true, underlined: false }));
    }
    push_span(&mut label_row, span(":", plain()));
    assert(line_view(label_row@) =~~= meaning_label_row(*drawn));
    push_line(&mut page, label_row);
    let ghost before_meaning = page_view(page@);
    append_page(&mut page, meaning_box_lines(drawn.meaning()));
    push_line(&mut page, lavender_rule_line("└", "┘"));
    proof {
        let rendered = card_len as nat;
        let rendered_kw = kw_chars as nat;
        assert(card_rendering(*drawn, rendered_name@, rr));
        assert(rendered == byte_len(card_row_text(*drawn, rendered_name@, rr)) as usize);
        assert(styled_outcome(keywords_text(drawn.card), subtext_style(), rendered_keywords@));
        assert(rendered_kw == rendered_keywords@.len());
        assert(drawn_card_pads(*drawn, card_padding as nat, right_padding as nat, kw_pad as nat, rendered, rendered_kw));
        assert(page_view(page@) =~~= drawn_card_page(position_name@, *drawn, card_padding as nat, right_padding as nat, kw_pad as nat));
        assert(is_drawn_card_page(page_view(page@), position_name@, *drawn));
    }
    page
}

/// Pages one after another with an empty line between consecutive ones.
pub open spec fn joined_pages(parts: Seq<Seq<Seq<(Seq<char>, TextStyle)>>>) -> Seq<Seq<(Seq<char>, TextStyle)>>
    decreases parts.len(),
{
    if parts.len() == 0 {
        Seq::empty()
    } else if parts.len() == 1 {
        parts[0]
    } else {
        joined_pages(parts.drop_last()) + seq![Seq::empty()] + parts.last()
    }
}

/// The cards of a reading shown in order, each in its box under its
/// position's name, with an empty line between boxes.
pub open spec fn is_cards_section(page: Seq<Seq<(Seq<char>, TextStyle)>>, reading: Reading) -> bool {
    exists|parts: Seq<Seq<Seq<(Seq<char>, TextStyle)>>>|
        #[trigger] parts.len() == shown_count(reading.drawn@, reading.spread.positions@) && (forall|k: int|
            0 <= k < parts.len() ==> is_drawn_card_page(
                #[trigger] parts[k],
                reading.spread.positions@[k].name@,
                reading.drawn@[k],
            )) && page == joined_pages(parts)
}

/// Every position name of a reading's shown cards fits in a drawn card's box.
pub open spec fn positions_fit(reading: Reading) -> bool {
    forall|k: int|
        0 <= k < shown_count(reading.drawn@, reading.spread.positions@) ==> byte_len(
            " Position: "@ + (#[trigger] reading.spread.positions@[k]).name@ + " "@,
        ) <= 66
}

fn cards_section_lines(reading: &Reading) -> (r: Vec<Vec<Span>>)
    requires
        positions_fit(*reading),
    ensures
        is_cards_section(page_view(r@), *reading),
{
    let n = if reading.drawn.len() <= reading.spread.positions.len() {
        reading.drawn.len()
    } else {
        reading.spread.positions.len()
    };
    let mut page: Vec<Vec<Span>> = Vec::new();
    let ghost mut parts: Seq<Seq<Seq<(Seq<char>, TextStyle)>>> = Seq::empty();
    let mut i: usize = 0;
    assert(page_view(page@) =~= joined_pages(parts));
    while i < n
        invariant
            i <= n,
            n == shown_count(reading.drawn@, reading.spread.positions@),
            n <= reading.drawn@.len(),
            n <= reading.spread.positions@.len(),
            positions_fit(*reading),
            parts.len() == i,
            forall|k: int|
                0 <= k < i ==> is_drawn_card_page(
                    #[trigger] parts[k],
                    reading.spread.positions@[k].name@,
                    reading.drawn@[k],
                ),
            page_view(page@) == joined_pages(parts),
        decreases n - i,
    {
        let ghost before = parts;
        if i > 0 {
            push_line(&mut page, blank_line());
        }
        let position = &reading.spread.positions[i];
        assert(byte_len(" Position: "@ + reading.spread.positions@[i as int].name@ + " "@) <= 66);
        let block = drawn_card_lines(position.name, &reading.drawn[i]);
        let ghost b = page_view(block@);
        append_page(&mut page, block);
        proof {
            parts = parts.push(b);
            assert(parts.drop_last() =~= before);
            if i == 0 {
                assert(page_view(page@) =~= b);
            }
        }
        i = i + 1;
    }
    page
}

/// The five-card cross drawn in text.
pub open spec fn cross_layout() -> Seq<Seq<(Seq<char>, TextStyle)>> {
    seq![
        Seq::empty(),
        seq![("Spread Layout:"@, TextStyle { ink: None, bold: true, underlined: true })],
        Seq::empty(),
        seq![("         (3) Past              "@, plain_style())],
        seq![("            │                  "@, plain_style())],
        seq![("    (4) Future ┼ (1) Present ┼ (2) Challenge"@, plain_style())],
        seq![("            │                  "@, plain_style())],
        seq![("         (5) Potential         "@, plain_style())],
        Seq::empty(),
    ]
}

fn cross_layout_lines() -> (r: Vec<Vec<Span>>)
    ensures
        page_view(r@) =~~= cross_layout(),
{
    let mut page: Vec<Vec<Span>> = Vec::new();
    push_line(&mut page, blank_line());
    let mut title: Vec<Span> = Vec::new();
    push_span(&mut title, span("Spread Layout:", TextStyle { ink: None, bold: true, underlined: true }));
    push_line(&mut page, title);
    push_line(&mut page, blank_line());
    push_line(&mut page, text_line(copy_str("         (3) Past              ")));
    push_line(&mut page, text_line(copy_str("            │                  ")));
    push_line(&mut page, text_line(copy_str("    (4) Future ┼ (1) Present ┼ (2) Challenge")));
    push_line(&mut page, text_line(copy_str("            │                  ")));
    push_line(&mut page, text_line(copy_str("         (5) Potential         ")));
    push_line(&mut page, blank_line());
    page
}

/// A string holding a copy of a text.
pub fn copy_str(text: &str) -> (r: String)
    ensures
        r@ == text@,
{
    let mut r = String::new();
    r.append(text);
    r
}

/// `r` is what truncating `s` to `max` bytes gives (see `truncate`).
pub open spec fn truncated(s: Seq<char>, max: nat, r: Seq<char>) -> bool {
    if byte_len(s) <= max {
        r == s + spaces((max - s.len()) as nat)
    } else {
        exists|head: Seq<char>| r == head + "..."@ && encode_utf8(head) == encode_utf8(s).take(max - 3)
    }
}

/// A name cut to fit the layout: at most 13 bytes, or cut at a character boundary.
pub open spec fn fits_layout(name: Seq<char>) -> bool {
    &&& byte_len(name) <= usize::MAX
    &&& byte_len(name) > 13 ==> is_char_boundary(encode_utf8(name), 10)
}

/// A text padded with spaces to 13 characters.
pub open spec fn pad13(t: Seq<char>) -> Seq<char> {
    if t.len() < 13 {
        t + spaces((13 - t.len()) as nat)
    } else {
        t
    }
}

/// The Celtic Cross drawn in text with the (cut) names of its cards.
pub open spec fn celtic_art(n: Seq<Seq<char>>) -> Seq<Seq<(Seq<char>, TextStyle)>> {
    let p = plain_style();
    seq![
        Seq::empty(),
        seq![("Celtic Cross Layout:"@, TextStyle { ink: None, bold: true, underlined: true })],
        Seq::empty(),
        seq![("                    ┌─────┐"@, p)],
        seq![("                    │  5  │ "@ + n[4], p)],
        seq![("          ┌─────┼─────┼─────┐         ┌─────┐"@, p)],
        seq![("          │  4  │1/2 │  6  │         │ 10  │"@, p)],
        seq![("          │ "@ + pad13(n[3]) + " │ "@ + pad13(n[5]) + " │         │ "@ + pad13(n[9]) + " │"@, p)],
        seq![("          └─────┼─────┼─────┘         ├─────┤"@, p)],
        seq![("                │  3  │               │  9  │"@, p)],
        seq![("                │ "@ + pad13(n[2]) + " │               │ "@ + pad13(n[8]) + " │"@, p)],
        seq![("                └─────┘               ├─────┤"@, p)],
        seq![("                                      │  8  │"@, p)],
        seq![("                                      │ "@ + pad13(n[7]) + " │"@, p)],
        seq![("                                      ├─────┤"@, p)],
        seq![("                                      │  7  │"@, p)],
        seq![("                                      │ "@ + pad13(n[6]) + " │"@, p)],
        seq![("                                      └─────┘"@, p)],
        Seq::empty(),
        seq![("Card 1 crosses Card 2 (The Challenge)"@, p)],
    ]
}

/// Pad a text with spaces to 13 characters.
fn padded13(t: &String) -> (r: String)
    ensures
        r@ == pad13(t@),
{
    let n = t.as_str().unicode_len();
    let mut r = String::new();
    r.append(t.as_str());
    if n < 13 {
        r.append(space_string(13 - n).as_str());
    }
    r
}

fn celtic_layout_lines(reading: &Reading) -> (r: Vec<Vec<Span>>)
    requires
        reading.drawn@.len() >= 10,
        forall|k: int| 0 <= k < 10 ==> fits_layout(#[trigger] reading.drawn@[k].card.name@),
    ensures
        exists|names: Seq<Seq<char>>|
            #[trigger] names.len() == 10 && (forall|k: int|
                0 <= k < 10 ==> truncated(reading.drawn@[k].card.name@, 13, #[trigger] names[k]))
                && page_view(r@) =~~= celtic_art(names),
{
    let mut names: Vec<String> = Vec::new();
    let mut i: usize = 0;
    while i < 10
        invariant
            i <= 10,
            reading.drawn@.len() >= 10,
            forall|k: int| 0 <= k < 10 ==> fits_layout(#[trigger] reading.drawn@[k].card.name@),
            names@.len() == i,
            forall|k: int| 0 <= k < i ==> truncated(reading.drawn@[k].card.name@, 13, #[trigger] names@[k]@),
        decreases 10 - i,
    {
        assert(fits_layout(reading.drawn@[i as int].card.name@));
        let t = truncate(reading.drawn[i].card.name, 13);
        names.push(t);
        i = i + 1;
    }
    let n2 = padded13(&names[2]);
    let n3 = padded13(&names[3]);
    let n5 = padded13(&names[5]);
    let n6 = padded13(&names[6]);
    let n7 = padded13(&names[7]);
    let n8 = padded13(&names[8]);
    let n9 = padded13(&names[9]);
    let mut page: Vec<Vec<Span>> = Vec::new();
    push_line(&mut page, blank_line());
    let mut title: Vec<Span> = Vec::new();
    push_span(&mut title, span("Celtic Cross Layout:", TextStyle { ink: None, bold: true, underlined: true }));
    push_line(&mut page, title);
    push_line(&mut page, blank_line());
    push_line(&mut page, text_line(copy_str("                    ┌─────┐")));
    let mut l5 = copy_str("                    │  5  │ ");
    l5.append(names[4].as_str());
    push_line(&mut page, text_line(l5));
    push_line(&mut page, text_line(copy_str("          ┌─────┼─────┼─────┐         ┌─────┐")));
    push_line(&mut page, text_line(copy_str("          │  4  │1/2 │  6  │         │ 10  │")));
    let mut l8 = copy_str("          │ ");
    l8.append(n3.as_str());
    l8.append(" │ ");
    l8.append(n5.as_str());
    l8.append(" │         │ ");
    l8.append(n9.as_str());
    l8.append(" │");
    push_line(&mut page, text_line(l8));
    push_line(&mut page, text_line(copy_str("          └─────┼─────┼─────┘         ├─────┤")));
    push_line(&mut page, text_line(copy_str("                │  3  │               │  9  │")));
    let mut l11 = copy_str("                │ ");
    l11.append(n2.as_str());
    l11.append(" │               │ ");
    l11.append(n8.as_str());
    l11.append(" │");
    push_line(&mut page, text_line(l11));
    push_line(&mut page, text_line(copy_str("                └─────┘               ├─────┤")));
    push_line(&mut page, text_line(copy_str("                                      │  8  │")));
    let mut l14 = copy_str("                                      │ ");
    l14.append(n7.as_str());
    l14.append(" │");
    push_line(&mut page, text_line(l14));
    push_line(&mut page, text_line(copy_str("                                      ├─────┤")));
    push_line(&mut page, text_line(copy_str("                                      │  7  │")));
    let mut l17 = copy_str("                                      │ ");
    l17.append(n6.as_str());
    l17.append(" │");
    push_line(&mut page, text_line(l17));
    push_line(&mut page, text_line(copy_str("                                      └─────┘")));
    push_line(&mut page, blank_line());
    push_line(&mut page, text_line(copy_str("Card 1 crosses Card 2 (The Challenge)")));
    proof {
        let nv = views(names@);
        assert(nv.len() == 10);
        assert forall|k: int| 0 <= k < 10 implies truncated(reading.drawn@[k].card.name@, 13, #[trigger] nv[k]) by {
            assert(nv[k] == names@[k]@);
        }
        assert(page_view(page@) =~~= celtic_art(nv));
    }
    page
}

/// The lines that show a reading: its cards in their boxes, then for the
/// five-card cross a drawing of the cross, and for a Celtic Cross of ten or
/// more cards a drawing of the Celtic Cross with the cards' names.
pub open spec fn is_reading_page(page: Seq<Seq<(Seq<char>, TextStyle)>>, reading: Reading) -> bool {
    match reading.spread.layout {
        SpreadLayout::Single => if reading.drawn@.len() > 0 && reading.spread.positions@.len() > 0 {
            is_drawn_card_page(page, reading.spread.positions@[0].name@, reading.drawn@[0])
        } else {
            page == Seq::<Seq<(Seq<char>, TextStyle)>>::empty()
        },
        SpreadLayout::Linear => is_cards_section(page, reading),
        SpreadLayout::Cross => exists|a: Seq<Seq<(Seq<char>, TextStyle)>>|
            #[trigger] is_cards_section(a, reading) && page =~~= a + cross_layout(),
        SpreadLayout::CelticCross => exists|a: Seq<Seq<(Seq<char>, TextStyle)>>|
            #[trigger] is_cards_section(a, reading) && if reading.drawn@.len() >= 10 {
                exists|names: Seq<Seq<char>>|
                    #[trigger] names.len() == 10 && (forall|k: int|
                        0 <= k < 10 ==> truncated(reading.drawn@[k].card.name@, 13, #[trigger] names[k]))
                        && page =~~= a + celtic_art(names)
            } else {
                page == a
            },
    }
}

/// What a reading needs to be shown: position names that fit their boxes,
/// and for a Celtic Cross card names that can be cut to fit the drawing.
pub open spec fn reading_fits(reading: Reading) -> bool {
    &&& positions_fit(reading)
    &&& reading.spread.positions@.len() > 0 ==> byte_len(" Position: "@ + reading.spread.positions@[0].name@ + " "@) <= 66
    &&& (reading.spread.layout == SpreadLayout::CelticCross && reading.drawn@.len() >= 10) ==> forall|k: int|
        0 <= k < 10 ==> fits_layout(#[trigger] reading.drawn@[k].card.name@)
}

/// Display a reading based on its spread's layout: its lines
pub fn reading_lines(reading: &Reading) -> (r: Vec<Vec<Span>>)
    requires
        reading_fits(*reading),
    ensures
        is_reading_page(page_view(r@), *reading),
{
    match reading.spread.layout {
        SpreadLayout::Single => {
            match reading.get_card_at(0) {
                Some((card, position)) => drawn_card_lines(position.name, card),
                None => {
                    let page: Vec<Vec<Span>> = Vec::new();
                    assert(page_view(page@) =~= Seq::<Seq<(Seq<char>, TextStyle)>>::empty());
                    page
                },
            }
        },
        SpreadLayout::Linear => cards_section_lines(reading),
        SpreadLayout::Cross => {
            let mut page = cards_section_lines(reading);
            let ghost a = page_view(page@);
            append_page(&mut page, cross_layout_lines());
            assert(is_cards_section(a, *reading));
            page
        },
        SpreadLayout::CelticCross => {
            let mut page = cards_section_lines(reading);
            let ghost a = page_view(page@);
            assert(is_cards_section(a, *reading));
            if reading.card_count() >= 10 {
                append_page(&mut page, celtic_layout_lines(reading));
            }
            page
        },
    }
}

/// Print a subheader: its line, the title between heavy rules in lavender.
pub fn subheader_line(title: &str) -> (r: Vec<Span>)
    ensures
        line_view(r@) == seq![("━━━ "@ + title@ + " ━━━"@, lavender_style())],
{
    let mut text = copy_str("━━━ ");
    text.append(title);
    text.append(" ━━━");
    let mut line: Vec<Span> = Vec::new();
    push_span(&mut line, span_of(text, lavender()));
    line
}

/// The text of a boxed header.
pub open spec fn boxed_header_text(title: Seq<char>, subtitle: Seq<char>) -> Seq<char> {
    " "@ + title + " ("@ + subtitle + ")"@
}

/// The lines of a boxed header: a plain box, as wide as the header's bytes
/// and two more, around the bold lavender header.
pub open spec fn boxed_header_page(title: Seq<char>, subtitle: Seq<char>) -> Seq<Seq<(Seq<char>, TextStyle)>> {
    let header = boxed_header_text(title, subtitle);
    let n = byte_len(header) + 2;
    seq![
        seq![("┌"@ + Seq::new(n, |_i: int| '─') + "┐"@, plain_style())],
        seq![("│ "@, plain_style()), (header, named_bold(Ink::Rgb(mocha().lavender))), (" │"@, plain_style())],
        seq![("└"@ + Seq::new(n, |_i: int| '─') + "┘"@, plain_style())],
    ]
}

/// Print a boxed header for spread display: its lines
pub fn boxed_header_lines(title: &str, subtitle: &str) -> (r: Vec<Vec<Span>>)
    requires
        byte_len(boxed_header_text(title@, subtitle@)) + 2 <= usize::MAX,
    ensures
        page_view(r@) =~~= boxed_header_page(title@, subtitle@),
{
    let mut header = copy_str(" ");
    header.append(title);
    header.append(" (");
    header.append(subtitle);
    header.append(")");
    let n = header.as_str().len() + 2;
    let mut top = copy_str("┌");
    top.append(repeat_char('─', n).as_str());
    top.append("┐");
    let mut bottom = copy_str("└");
    bottom.append(repeat_char('─', n).as_str());
    bottom.append("┘");
    let mut middle: Vec<Span> = Vec::new();
    push_span(&mut middle, span("│ ", plain()));
    push_span(&mut middle, span_of(header, TextStyle { ink: Some(Ink::Rgb(theme().lavender)), bold: true, underlined: false }));
    push_span(&mut middle, span(" │", plain()));
    let mut page: Vec<Vec<Span>> = Vec::new();
    push_line(&mut page, text_line(top));
    push_line(&mut page, middle);
    push_line(&mut page, text_line(bottom));
    page
}

/// The symbol a card list shows before a card: a mauve star for the Major
/// Arcana, the suit's emblem in its colour, a lavender circle otherwise.
pub open spec fn card_symbol(card: Card) -> (Seq<char>, TextStyle) {
    match card.arcana {
        ArcanaType::Major => ("★"@, mauve_style()),
        ArcanaType::Minor => match card.suit {
            Some(Suit::Wands) => ("🔥"@, colored(mocha().peach)),
            Some(Suit::Cups) => ("💧"@, colored(mocha().pink)),
            Some(Suit::Swords) => ("⚔️"@, TextStyle { ink: Some(Ink::Red), bold: false, underlined: false }),
            Some(Suit::Pentacles) => ("🌿"@, TextStyle { ink: Some(Ink::Green), bold: false, underlined: false }),
            None => ("○"@, lavender_style()),
        },
    }
}

fn card_symbol_span(card: &Card) -> (s: Span)
    ensures
        span_view(s) == card_symbol(*card),
{
    let t = theme();
    match card.arcana {
        ArcanaType::Major => span("★", mauve()),
        ArcanaType::Minor => match card.suit {
            Some(Suit::Wands) => span("🔥", TextStyle { ink: Some(Ink::Rgb(t.peach)), bold: false, underlined: false }),
            Some(Suit::Cups) => span("💧", TextStyle { ink: Some(Ink::Rgb(t.pink)), bold: false, underlined: false }),
            Some(Suit::Swords) => span("⚔️", TextStyle { ink: Some(Ink::Red), bold: false, underlined: false }),
            Some(Suit::Pentacles) => span("🌿", TextStyle { ink: Some(Ink::Green), bold: false, underlined: false }),
            None => span("○", lavender()),
        },
    }
}

/// The keywords a card list shows: the first three joined with " | ", or
/// all of them when there are fewer.
pub open spec fn listed_keywords(card: Card) -> Seq<char> {
    let k = card.keywords@;
    if k.len() >= 3 {
        k[0]@ + " | "@ + k[1]@ + " | "@ + k[2]@
    } else {
        join_text(str_views(k), " | "@)
    }
}

/// A card's row in a list, given the padding after its name.
pub open spec fn card_row_view(card: Card, pad: nat) -> Seq<(Seq<char>, TextStyle)> {
    seq![
        ("  "@, plain_style()),
        card_symbol(card),
        (" "@, plain_style()),
        (display_name_text(card), card_name_style_of(card)),
        (spaces(pad), plain_style()),
        (" "@, plain_style()),
        (listed_keywords(card), subtext_style()),
    ]
}

/// A card's row in a list: the name is padded to 35 characters of its
/// rendered text, escape codes included (see `styled_outcome`).
pub open spec fn is_card_row(line: Seq<(Seq<char>, TextStyle)>, card: Card) -> bool {
    exists|rendered: Seq<char>|
        #[trigger] styled_outcome(display_name_text(card), card_name_style_of(card), rendered) && line
            =~~= card_row_view(card, name_pad(rendered.len()))
}

/// The spaces after a name whose rendered text has `rendered` characters,
/// up to 35 characters.
pub open spec fn name_pad(rendered: nat) -> nat {
    if rendered < 35 {
        (35 - rendered) as nat
    } else {
        0
    }
}

/// Print a card in list format: its line
pub fn card_line(card: &Card) -> (r: Vec<Span>)
    ensures
        is_card_row(line_view(r@), *card),
{
    let rendered_name = card_name(card);
    let n = rendered_name.as_str().unicode_len();
    let pad = if n < 35 {
        35 - n
    } else {
        0
    };
    let keywords = if card.keywords.len() >= 3 {
        let mut k = copy_str(card.keywords[0]);
        k.append(" | ");
        k.append(card.keywords[1]);
        k.append(" | ");
        k.append(card.keywords[2]);
        k
    } else {
        join_strs(card.keywords, " | ")
    };
    let ghost kv = keywords@;
    let display = card.display_name();
    let ghost dv = display@;
    let mut line: Vec<Span> = Vec::new();
    push_span(&mut line, span("  ", plain()));
    push_span(&mut line, card_symbol_span(card));
    push_span(&mut line, span(" ", plain()));
    push_span(&mut line, span_of(display, card_name_style(card)));
    push_span(&mut line, span_of(space_string(pad), plain()));
    push_span(&mut line, span(" ", plain()));
    push_span(&mut line, span_of(keywords, subtext()));
    proof {
        assert(styled_outcome(display_name_text(*card), card_name_style_of(*card), rendered_name@));
        assert(kv == listed_keywords(*card));
        assert(line_view(line@) =~~= card_row_view(*card, pad as nat));
        assert(name_pad(n as nat) == pad);
    }
    line
}

/// Card rows for each card of a list, in order.
pub open spec fn is_card_rows(page: Seq<Seq<(Seq<char>, TextStyle)>>, cards: Seq<Card>) -> bool {
    &&& page.len() == cards.len()
    &&& forall|k: int| 0 <= k < page.len() ==> is_card_row(#[trigger] page[k], cards[k])
}

/// The rows of a list of cards.
pub fn card_rows(cards: &Vec<Card>) -> (r: Vec<Vec<Span>>)
    ensures
        is_card_rows(page_view(r@), cards@),
{
    let mut page: Vec<Vec<Span>> = Vec::new();
    let mut i: usize = 0;
    while i < cards.len()
        invariant
            i <= cards@.len(),
            page_view(page@).len() == i,
            forall|k: int| 0 <= k < i ==> is_card_row(#[trigger] page_view(page@)[k], cards@[k]),
        decreases cards@.len() - i,
    {
        let line = card_line(&cards[i]);
        let ghost before = page_view(page@);
        push_line(&mut page, line);
        proof {
            assert forall|k: int| 0 <= k < i + 1 implies is_card_row(#[trigger] page_view(page@)[k], cards@[k]) by {
                if k < i {
                    assert(page_view(page@)[k] == before[k]);
                }
            }
        }
        i = i + 1;
    }
    page
}

} // verus!
