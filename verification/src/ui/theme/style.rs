//! Styled text helpers

use vstd::prelude::*;

use crate::cards::{display_name_text, ArcanaType, Card};
use crate::cli::visible_scan;
use crate::ui::theme::{
    bold_in, law_styling_adds_no_visible_width, mocha, styled, styled_outcome, suit_color_of, theme, Ink,
    TextStyle,
};

verus! {

/// The style a card's name is written in: bold, mauve for the Major Arcana,
/// the suit's colour for suited cards, lavender otherwise.
pub open spec fn card_name_style_of(card: Card) -> TextStyle {
    match card.arcana {
        ArcanaType::Major => bold_in(Ink::Rgb(mocha().mauve)),
        ArcanaType::Minor => match card.suit {
            Some(suit) => bold_in(Ink::Rgb(suit_color_of(mocha(), suit))),
            None => bold_in(Ink::Rgb(mocha().lavender)),
        },
    }
}

/// The style a card's name is written in
pub fn card_name_style(card: &Card) -> (s: TextStyle)
    ensures
        s == card_name_style_of(*card),
{
    let t = theme();
    let color = match card.arcana {
        ArcanaType::Major => t.mauve,
        ArcanaType::Minor => match card.suit {
            Some(suit) => t.suit_color(suit),
            None => t.lavender,
        },
    };
    TextStyle { ink: Some(Ink::Rgb(color)), bold: true, underlined: false }
}

/// Style a card name with appropriate colors: its display name in bold, in
/// the colour of its arcana or suit
pub fn card_name(card: &Card) -> (r: String)
    ensures
        styled_outcome(display_name_text(*card), card_name_style_of(*card), r@),
        !display_name_text(*card).contains('\x1b') ==> r@.len() == 0 || visible_scan(r@) == (
        false,
        display_name_text(*card).len(),
        ),
{
    let name = card.display_name();
    let r = styled(name.as_str(), card_name_style(card));
    proof {
        if !display_name_text(*card).contains('\x1b') {
            law_styling_adds_no_visible_width(display_name_text(*card), card_name_style_of(*card), r@);
        }
    }
    r
}

/// The reversal marker.
pub open spec fn reversed_marker() -> Seq<char> {
    "⟳ REVERSED"@
}

/// The style of the reversal marker: bold, in the theme's yellow.
pub open spec fn reversed_style() -> TextStyle {
    bold_in(Ink::Rgb(mocha().yellow))
}

/// Style reversed indicator
pub fn reversed() -> (r: String)
    ensures
        styled_outcome(reversed_marker(), reversed_style(), r@),
{
    let t = theme();
    let marker = "⟳ REVERSED";
    proof {
        reveal_strlit("⟳ REVERSED");
    }
    styled(marker, TextStyle { ink: Some(Ink::Rgb(t.yellow)), bold: true, underlined: false })
}

} // verus!
