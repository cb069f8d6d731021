//! Cards: the arcana, suits and elements, the card record, and drawn cards.

pub mod major;
pub mod minor;

use vstd::prelude::*;

use crate::text::{decimal_string, decimal_text, join_strs, join_text, str_views};

verus! {

/// The type of arcana - Major or Minor
#[derive(Debug, Clone, Copy, PartialEq, Eq, Structural)]
pub enum ArcanaType {
    Major,
    Minor,
}

/// The label of an arcana type.
pub open spec fn arcana_label(a: ArcanaType) -> &'static str {
    match a {
        ArcanaType::Major => "Major Arcana",
        ArcanaType::Minor => "Minor Arcana",
    }
}

impl ArcanaType {
    /// The label shown for this arcana type ("Major Arcana" or "Minor Arcana").
    pub fn as_str(&self) -> (s: &'static str)
        ensures
            s == arcana_label(*self),
    {
        match self {
            ArcanaType::Major => "Major Arcana",
            ArcanaType::Minor => "Minor Arcana",
        }
    }
}

/// The four suits of the Minor Arcana
#[derive(Debug, Clone, Copy, PartialEq, Eq, Structural)]
pub enum Suit {
    Wands,
    Cups,
    Swords,
    Pentacles,
}

/// The name of a suit.
pub open spec fn suit_label(s: Suit) -> &'static str {
    match s {
        Suit::Wands => "Wands",
        Suit::Cups => "Cups",
        Suit::Swords => "Swords",
        Suit::Pentacles => "Pentacles",
    }
}

/// The element that belongs to a suit.
pub open spec fn suit_element(s: Suit) -> Element {
    match s {
        Suit::Wands => Element::Fire,
        Suit::Cups => Element::Water,
        Suit::Swords => Element::Air,
        Suit::Pentacles => Element::Earth,
    }
}

impl Suit {
    /// Get the element associated with this suit
    pub fn element(&self) -> (e: Element)
        ensures
            e == suit_element(*self),
    {
        match self {
            Suit::Wands => Element::Fire,
            Suit::Cups => Element::Water,
            Suit::Swords => Element::Air,
            Suit::Pentacles => Element::Earth,
        }
    }

    /// The name of this suit ("Wands", "Cups", "Swords" or "Pentacles").
    pub fn as_str(&self) -> (s: &'static str)
        ensures
            s == suit_label(*self),
    {
        match self {
            Suit::Wands => "Wands",
            Suit::Cups => "Cups",
            Suit::Swords => "Swords",
            Suit::Pentacles => "Pentacles",
        }
    }
}

/// The four classical elements
#[derive(Debug, Clone, Copy, PartialEq, Eq, Structural)]
pub enum Element {
    Fire,
    Water,
    Air,
    Earth,
}

/// The name of an element.
pub open spec fn element_label(e: Element) -> &'static str {
    match e {
        Element::Fire => "Fire",
        Element::Water => "Water",
        Element::Air => "Air",
        Element::Earth => "Earth",
    }
}

impl Element {
    /// The name of this element.
    pub fn as_str(&self) -> (s: &'static str)
        ensures
            s == element_label(*self),
    {
        match self {
            Element::Fire => "Fire",
            Element::Water => "Water",
            Element::Air => "Air",
            Element::Earth => "Earth",
        }
    }
}

/// Yes/No/Maybe for quick card pulls
#[derive(Debug, Clone, Copy, PartialEq, Eq, Structural)]
pub enum YesOrNo {
    Yes,
    No,
    Maybe,
}

/// The word for a yes/no/maybe answer.
pub open spec fn yes_or_no_label(y: YesOrNo) -> &'static str {
    match y {
        YesOrNo::Yes => "Yes",
        YesOrNo::No => "No",
        YesOrNo::Maybe => "Maybe",
    }
}

impl YesOrNo {
    /// The word for this answer ("Yes", "No" or "Maybe").
    pub fn as_str(&self) -> (s: &'static str)
        ensures
            s == yes_or_no_label(*self),
    {
        match self {
            YesOrNo::Yes => "Yes",
            YesOrNo::No => "No",
            YesOrNo::Maybe => "Maybe",
        }
    }
}

/// A single tarot card with all its metadata
#[derive(Debug, Clone, Copy)]
pub struct Card {
    pub name: &'static str,
    pub arcana: ArcanaType,
    pub suit: Option<Suit>,
    pub number: u8,
    pub keywords: &'static [&'static str],
    pub upright: &'static str,
    pub reversed: &'static str,
    pub description: &'static str,
    pub element: Option<Element>,
    pub astrology: Option<&'static str>,
    pub numerology: Option<&'static str>,
    pub yes_or_no: YesOrNo,
}

/// The Roman numerals of the Major Arcana, "0" for The Fool up to "XXI" for The World.
pub open spec fn roman_table(n: u8) -> &'static str {
    match n {
        0 => "0",
        1 => "I",
        2 => "II",
        3 => "III",
        4 => "IV",
        5 => "V",
        6 => "VI",
        7 => "VII",
        8 => "VIII",
        9 => "IX",
        10 => "X",
        11 => "XI",
        12 => "XII",
        13 => "XIII",
        14 => "XIV",
        15 => "XV",
        16 => "XVI",
        17 => "XVII",
        18 => "XVIII",
        19 => "XIX",
        20 => "XX",
        _ => "XXI",
    }
}

fn roman_entry(n: u8) -> (s: &'static str)
    requires
        n < 22,
    ensures
        s == roman_table(n),
{
    match n {
        0 => "0",
        1 => "I",
        2 => "II",
        3 => "III",
        4 => "IV",
        5 => "V",
        6 => "VI",
        7 => "VII",
        8 => "VIII",
        9 => "IX",
        10 => "X",
        11 => "XI",
        12 => "XII",
        13 => "XIII",
        14 => "XIV",
        15 => "XV",
        16 => "XVI",
        17 => "XVII",
        18 => "XVIII",
        19 => "XIX",
        20 => "XX",
        _ => "XXI",
    }
}

/// The Roman numeral of a card: present exactly for Major Arcana cards numbered 0 to 21.
pub open spec fn roman_of(c: Card) -> Option<&'static str> {
    if c.arcana == ArcanaType::Major && c.number < 22 {
        Some(roman_table(c.number))
    } else {
        None
    }
}

/// The word a Minor Arcana card uses for its rank: Ace, Page, Knight, Queen,
/// King, or the number itself.
pub open spec fn rank_text(n: u8) -> Seq<char> {
    if n == 1 {
        "Ace"@
    } else if n == 11 {
        "Page"@
    } else if n == 12 {
        "Knight"@
    } else if n == 13 {
        "Queen"@
    } else if n == 14 {
        "King"@
    } else {
        decimal_text(n as nat)
    }
}

/// The full display name of a card.
pub open spec fn display_name_text(c: Card) -> Seq<char> {
    match c.arcana {
        ArcanaType::Major => match roman_of(c) {
            Some(numeral) => c.name@ + " ("@ + numeral@ + ")"@,
            None => c.name@,
        },
        ArcanaType::Minor => match c.suit {
            Some(s) => rank_text(c.number) + " of "@ + suit_label(s)@,
            None => c.name@,
        },
    }
}

/// The keywords of a card joined with ", ".
pub open spec fn keywords_text(c: Card) -> Seq<char> {
    join_text(str_views(c.keywords@), ", "@)
}

impl Card {
    /// Get the Roman numeral representation for Major Arcana
    pub fn roman_numeral(&self) -> (r: Option<&'static str>)
        ensures
            r == roman_of(*self),
    {
        match self.arcana {
            ArcanaType::Major => {
                if self.number < 22 {
                    Some(roman_entry(self.number))
                } else {
                    None
                }
            },
            ArcanaType::Minor => None,
        }
    }

    /// Get the full display name including number/roman numeral
    pub fn display_name(&self) -> (r: String)
        ensures
            r@ == display_name_text(*self),
    {
        let mut r = String::new();
        match self.arcana {
            ArcanaType::Major => {
                r.append(self.name);
                match self.roman_numeral() {
                    Some(numeral) => {
                        r.append(" (");
                        r.append(numeral);
                        r.append(")");
                    },
                    None => {},
                }
            },
            ArcanaType::Minor => {
                match self.suit {
                    Some(suit) => {
                        match self.number {
                            1 => r.append("Ace"),
                            11 => r.append("Page"),
                            12 => r.append("Knight"),
                            13 => r.append("Queen"),
                            14 => r.append("King"),
                            _ => {
                                r = decimal_string(self.number as usize);
                            },
                        }
                        r.append(" of ");
                        r.append(suit.as_str());
                    },
                    None => {
                        r.append(self.name);
                    },
                }
            },
        }
        r
    }

    /// Get the keywords as a comma-separated string
    pub fn keywords_string(&self) -> (r: String)
        ensures
            r@ == keywords_text(*self),
    {
        join_strs(self.keywords, ", ")
    }
}

/// A card that has been drawn, with reversal status and position
#[derive(Debug, Clone, Copy)]
pub struct DrawnCard {
    pub card: Card,
    pub reversed: bool,
    pub position: Option<SpreadPosition>,
}

impl DrawnCard {
    /// Create a new drawn card
    pub fn new(card: Card, reversed: bool) -> (d: DrawnCard)
        ensures
            d.card == card,
            d.reversed == reversed,
            d.position is None,
    {
        DrawnCard { card, reversed, position: None }
    }

    /// Get the meaning (upright or reversed based on orientation)
    pub fn meaning(&self) -> (m: &'static str)
        ensures
            m == (if self.reversed {
                self.card.reversed
            } else {
                self.card.upright
            }),
    {
        if self.reversed {
            self.card.reversed
        } else {
            self.card.upright
        }
    }

    /// Get the keywords (same for both orientations, but could be customized)
    pub fn keywords(&self) -> (r: String)
        ensures
            r@ == keywords_text(self.card),
    {
        self.card.keywords_string()
    }
}

/// Position in a spread layout
#[derive(Debug, Clone, Copy)]
pub struct SpreadPosition {
    pub name: &'static str,
    pub description: &'static str,
    pub index: usize,
}

impl SpreadPosition {
    /// Create a new spread position
    pub fn new(name: &'static str, description: &'static str, index: usize) -> (p: SpreadPosition)
        ensures
            p.name == name,
            p.description == description,
            p.index == index,
    {
        SpreadPosition { name, description, index }
    }
}

} // verus!
