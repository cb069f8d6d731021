//! Tarot spread definitions and reading orchestration

pub mod readback;
pub mod reading;

use vstd::prelude::*;

use crate::cards::SpreadPosition;
use crate::text::{chars_of, same_chars, lowercase, lowercase_chars};

verus! {

/// Visual layout type for rendering
#[derive(Debug, Clone, Copy, PartialEq, Eq, Structural)]
pub enum SpreadLayout {
    /// Single card, no special layout
    Single,
    /// Linear layout (horizontal)
    Linear,
    /// Cross formation
    Cross,
    /// Celtic Cross (complex 10-card layout)
    CelticCross,
}

/// The six spreads the application offers.
#[derive(Debug, Clone, Copy, PartialEq, Eq, Structural)]
pub enum SpreadType {
    Single,
    Three,
    Situation,
    MindBodySpirit,
    Five,
    Celtic,
}

/// A tarot spread with defined positions
#[derive(Debug, Clone, Copy)]
pub struct Spread {
    pub name: &'static str,
    pub description: &'static str,
    pub positions: &'static [SpreadPosition],
    pub layout: SpreadLayout,
}

/// The name of each spread.
pub open spec fn spread_name(t: SpreadType) -> &'static str {
    match t {
        SpreadType::Single => "Single Card",
        SpreadType::Three => "Three-Card Spread",
        SpreadType::Situation => "Situation-Action-Outcome",
        SpreadType::MindBodySpirit => "Mind-Body-Spirit",
        SpreadType::Five => "Five-Card Cross",
        SpreadType::Celtic => "Celtic Cross",
    }
}

/// How many cards each spread lays out.
pub open spec fn spread_size(t: SpreadType) -> nat {
    match t {
        SpreadType::Single => 1,
        SpreadType::Three => 3,
        SpreadType::Situation => 3,
        SpreadType::MindBodySpirit => 3,
        SpreadType::Five => 5,
        SpreadType::Celtic => 10,
    }
}

/// How each spread is drawn on screen.
pub open spec fn spread_layout(t: SpreadType) -> SpreadLayout {
    match t {
        SpreadType::Single => SpreadLayout::Single,
        SpreadType::Three => SpreadLayout::Linear,
        SpreadType::Situation => SpreadLayout::Linear,
        SpreadType::MindBodySpirit => SpreadLayout::Linear,
        SpreadType::Five => SpreadLayout::Cross,
        SpreadType::Celtic => SpreadLayout::CelticCross,
    }
}

/// The Single spread with all its positions.
pub open spec fn single_spread() -> Spread {
    Spread {
        name: "Single Card",
        description: "A quick insight or answer to a specific question",
        positions: &[
            SpreadPosition {
                name: "The Card",
                description: "The energy, message, or answer you need right now",
                index: 0,
            },
        ],
        layout: SpreadLayout::Single,
    }
}

/// The Three spread with all its positions.
pub open spec fn three_card_spread() -> Spread {
    Spread {
        name: "Three-Card Spread",
        description: "A journey through time: what was, what is, and what will be",
        positions: &[
            SpreadPosition {
                name: "Past",
                description: "What has led to this moment. The foundation and influences that shaped your current situation.",
                index: 0,
            },
            SpreadPosition {
                name: "Present",
                description: "The current situation. Where you stand right now and the energy surrounding you.",
                index: 1,
            },
            SpreadPosition {
                name: "Future",
                description: "Where things are heading. The likely outcome if current energies continue.",
                index: 2,
            },
        ],
        layout: SpreadLayout::Linear,
    }
}

/// The Situation spread with all its positions.
pub open spec fn situation_action_outcome_spread() -> Spread {
    Spread {
        name: "Situation-Action-Outcome",
        description: "Understanding your situation, what to do, and the result",
        positions: &[
            SpreadPosition {
                name: "Situation",
                description: "The current circumstances and context of your question.",
                index: 0,
            },
            SpreadPosition {
                name: "Action",
                description: "The recommended approach or action to take.",
                index: 1,
            },
            SpreadPosition {
                name: "Outcome",
                description: "The likely result if you take the suggested action.",
                index: 2,
            },
        ],
        layout: SpreadLayout::Linear,
    }
}

/// The MindBodySpirit spread with all its positions.
pub open spec fn mind_body_spirit_spread() -> Spread {
    Spread {
        name: "Mind-Body-Spirit",
        description: "A holistic view of your current state",
        positions: &[
            SpreadPosition {
                name: "Mind",
                description: "Your mental state, thoughts, and intellectual perspective.",
                index: 0,
            },
            SpreadPosition {
                name: "Body",
                description: "Your physical state, health, and material circumstances.",
                index: 1,
            },
            SpreadPosition {
                name: "Spirit",
                description: "Your spiritual state, intuition, and higher guidance.",
                index: 2,
            },
        ],
        layout: SpreadLayout::Linear,
    }
}

/// The Five spread with all its positions.
pub open spec fn five_card_cross_spread() -> Spread {
    Spread {
        name: "Five-Card Cross",
        description: "A comprehensive view of your situation with challenge and potential",
        positions: &[
            SpreadPosition {
                name: "Present",
                description: "The heart of the matter. Your current situation and central energy.",
                index: 0,
            },
            SpreadPosition {
                name: "Challenge",
                description: "What's working against you. Obstacles, difficulties, or opposition.",
                index: 1,
            },
            SpreadPosition {
                name: "Past",
                description: "Foundation of the situation. What has led to where you are now.",
                index: 2,
            },
            SpreadPosition {
                name: "Future",
                description: "What's coming next. Near-term developments and energies approaching.",
                index: 3,
            },
            SpreadPosition {
                name: "Potential",
                description: "The best possible outcome. What can be achieved with awareness and effort.",
                index: 4,
            },
        ],
        layout: SpreadLayout::Cross,
    }
}

/// The Celtic spread with all its positions.
pub open spec fn celtic_cross_spread() -> Spread {
    Spread {
        name: "Celtic Cross",
        description: "The classic ten-card spread for deep insight into any situation",
        positions: &[
            SpreadPosition {
                name: "Present",
                description: "The current situation. The heart of the matter and your central energy right now.",
                index: 0,
            },
            SpreadPosition {
                name: "Challenge",
                description: "The immediate obstacle or challenge. What crosses you, creates difficulty, or needs attention.",
                index: 1,
            },
            SpreadPosition {
                name: "Foundation",
                description: "The root cause. What underlies the situation, often unconscious or from the distant past.",
                index: 2,
            },
            SpreadPosition {
                name: "Recent Past",
                description: "What's just happened. Recent events that are still influencing the present.",
                index: 3,
            },
            SpreadPosition {
                name: "Crown",
                description: "The best that can be achieved. Your highest potential or goal in this situation.",
                index: 4,
            },
            SpreadPosition {
                name: "Near Future",
                description: "What's coming soon. Events and energies approaching in the short term.",
                index: 5,
            },
            SpreadPosition {
                name: "Self",
                description: "Your attitude and approach. How you see yourself and your role in this situation.",
                index: 6,
            },
            SpreadPosition {
                name: "Environment",
                description: "External influences. How others see you and the energies of people around you.",
                index: 7,
            },
            SpreadPosition {
                name: "Hopes & Fears",
                description: "What you hope for or fear. Your expectations, anxieties, and desires regarding the outcome.",
                index: 8,
            },
            SpreadPosition {
                name: "Outcome",
                description: "The likely result. Where the current path leads if energies continue unchanged.",
                index: 9,
            },
        ],
        layout: SpreadLayout::CelticCross,
    }
}

/// The spread of each type, with its name, description, positions and layout.
pub open spec fn spread_of(t: SpreadType) -> Spread {
    match t {
        SpreadType::Single => single_spread(),
        SpreadType::Three => three_card_spread(),
        SpreadType::Situation => situation_action_outcome_spread(),
        SpreadType::MindBodySpirit => mind_body_spirit_spread(),
        SpreadType::Five => five_card_cross_spread(),
        SpreadType::Celtic => celtic_cross_spread(),
    }
}

/// `s` is the spread of type `t`: that spread with its description and its
/// positions' names and descriptions, whose name, number of positions (each
/// knowing its own index) and layout are the type's.
pub open spec fn is_spread(s: Spread, t: SpreadType) -> bool {
    &&& s == spread_of(t)
    &&& s.name == spread_name(t)
    &&& s.positions@.len() == spread_size(t)
    &&& s.layout == spread_layout(t)
    &&& forall|i: int| 0 <= i < s.positions@.len() ==> (#[trigger] s.positions@[i]).index == i
}

impl Spread {
    /// Get the number of cards in this spread
    pub fn card_count(&self) -> (n: usize)
        ensures
            n == self.positions@.len(),
    {
        self.positions.len()
    }

    /// Get a position by index
    pub fn get_position(&self, index: usize) -> (r: Option<&'static SpreadPosition>)
        ensures
            r is Some <==> index < self.positions@.len(),
            r matches Some(p) ==> *p == self.positions@[index as int],
    {
        if index < self.positions.len() {
            Some(&self.positions[index])
        } else {
            None
        }
    }
}

/// Single card spread - quick insight
pub fn single() -> (s: Spread)
    ensures
        is_spread(s, SpreadType::Single),
{
    Spread {
        name: "Single Card",
        description: "A quick insight or answer to a specific question",
        positions: &[
            SpreadPosition {
                name: "The Card",
                description: "The energy, message, or answer you need right now",
                index: 0,
            },
        ],
        layout: SpreadLayout::Single,
    }
}

/// Three-card spread - past, present, future
pub fn three_card() -> (s: Spread)
    ensures
        is_spread(s, SpreadType::Three),
{
    Spread {
        name: "Three-Card Spread",
        description: "A journey through time: what was, what is, and what will be",
        positions: &[
            SpreadPosition {
                name: "Past",
                description: "What has led to this moment. The foundation and influences that shaped your current situation.",
                index: 0,
            },
            SpreadPosition {
                name: "Present",
                description: "The current situation. Where you stand right now and the energy surrounding you.",
                index: 1,
            },
            SpreadPosition {
                name: "Future",
                description: "Where things are heading. The likely outcome if current energies continue.",
                index: 2,
            },
        ],
        layout: SpreadLayout::Linear,
    }
}

/// Three-card spread alternative: situation, action, outcome
pub fn situation_action_outcome() -> (s: Spread)
    ensures
        is_spread(s, SpreadType::Situation),
{
    Spread {
        name: "Situation-Action-Outcome",
        description: "Understanding your situation, what to do, and the result",
        positions: &[
            SpreadPosition {
                name: "Situation",
                description: "The current circumstances and context of your question.",
                index: 0,
            },
            SpreadPosition {
                name: "Action",
                description: "The recommended approach or action to take.",
                index: 1,
            },
            SpreadPosition {
                name: "Outcome",
                description: "The likely result if you take the suggested action.",
                index: 2,
            },
        ],
        layout: SpreadLayout::Linear,
    }
}

/// Three-card spread alternative: mind, body, spirit
pub fn mind_body_spirit() -> (s: Spread)
    ensures
        is_spread(s, SpreadType::MindBodySpirit),
{
    Spread {
        name: "Mind-Body-Spirit",
        description: "A holistic view of your current state",
        positions: &[
            SpreadPosition {
                name: "Mind",
                description: "Your mental state, thoughts, and intellectual perspective.",
                index: 0,
            },
            SpreadPosition {
                name: "Body",
                description: "Your physical state, health, and material circumstances.",
                index: 1,
            },
            SpreadPosition {
                name: "Spirit",
                description: "Your spiritual state, intuition, and higher guidance.",
                index: 2,
            },
        ],
        layout: SpreadLayout::Linear,
    }
}

/// Five-card cross spread
pub fn five_card_cross() -> (s: Spread)
    ensures
        is_spread(s, SpreadType::Five),
{
    Spread {
        name: "Five-Card Cross",
        description: "A comprehensive view of your situation with challenge and potential",
        positions: &[
            SpreadPosition {
                name: "Present",
                description: "The heart of the matter. Your current situation and central energy.",
                index: 0,
            },
            SpreadPosition {
                name: "Challenge",
                description: "What's working against you. Obstacles, difficulties, or opposition.",
                index: 1,
            },
            SpreadPosition {
                name: "Past",
                description: "Foundation of the situation. What has led to where you are now.",
                index: 2,
            },
            SpreadPosition {
                name: "Future",
                description: "What's coming next. Near-term developments and energies approaching.",
                index: 3,
            },
            SpreadPosition {
                name: "Potential",
                description: "The best possible outcome. What can be achieved with awareness and effort.",
                index: 4,
            },
        ],
        layout: SpreadLayout::Cross,
    }
}

/// Celtic Cross - the classic 10-card spread
pub fn celtic_cross() -> (s: Spread)
    ensures
        is_spread(s, SpreadType::Celtic),
{
    Spread {
        name: "Celtic Cross",
        description: "The classic ten-card spread for deep insight into any situation",
        positions: &[
            SpreadPosition {
                name: "Present",
                description: "The current situation. The heart of the matter and your central energy right now.",
                index: 0,
            },
            SpreadPosition {
                name: "Challenge",
                description: "The immediate obstacle or challenge. What crosses you, creates difficulty, or needs attention.",
                index: 1,
            },
            SpreadPosition {
                name: "Foundation",
                description: "The root cause. What underlies the situation, often unconscious or from the distant past.",
                index: 2,
            },
            SpreadPosition {
                name: "Recent Past",
                description: "What's just happened. Recent events that are still influencing the present.",
                index: 3,
            },
            SpreadPosition {
                name: "Crown",
                description: "The best that can be achieved. Your highest potential or goal in this situation.",
                index: 4,
            },
            SpreadPosition {
                name: "Near Future",
                description: "What's coming soon. Events and energies approaching in the short term.",
                index: 5,
            },
            SpreadPosition {
                name: "Self",
                description: "Your attitude and approach. How you see yourself and your role in this situation.",
                index: 6,
            },
            SpreadPosition {
                name: "Environment",
                description: "External influences. How others see you and the energies of people around you.",
                index: 7,
            },
            SpreadPosition {
                name: "Hopes & Fears",
                description: "What you hope for or fear. Your expectations, anxieties, and desires regarding the outcome.",
                index: 8,
            },
            SpreadPosition {
                name: "Outcome",
                description: "The likely result. Where the current path leads if energies continue unchanged.",
                index: 9,
            },
        ],
        layout: SpreadLayout::CelticCross,
    }
}

impl SpreadType {
    /// The spread of this type
    pub fn as_spread(&self) -> (s: Spread)
        ensures
            is_spread(s, *self),
    {
        match self {
            SpreadType::Single => single(),
            SpreadType::Three => three_card(),
            SpreadType::Situation => situation_action_outcome(),
            SpreadType::MindBodySpirit => mind_body_spirit(),
            SpreadType::Five => five_card_cross(),
            SpreadType::Celtic => celtic_cross(),
        }
    }
}

/// The spread a lowercase name or alias selects.
pub open spec fn spread_alias(name: Seq<char>) -> Option<SpreadType> {
    if name == "single"@ || name == "one"@ {
        Some(SpreadType::Single)
    } else if name == "three"@ || name == "3"@ || name == "past-present-future"@ {
        Some(SpreadType::Three)
    } else if name == "situation"@ || name == "situation-action-outcome"@ {
        Some(SpreadType::Situation)
    } else if name == "mind-body-spirit"@ || name == "holistic"@ {
        Some(SpreadType::MindBodySpirit)
    } else if name == "five"@ || name == "5"@ || name == "cross"@ {
        Some(SpreadType::Five)
    } else if name == "celtic"@ || name == "celtic-cross"@ || name == "10"@ {
        Some(SpreadType::Celtic)
    } else {
        None
    }
}

fn is_word(text: &Vec<char>, word: &str) -> (b: bool)
    ensures
        b == (text@ == word@),
{
    same_chars(text, &chars_of(word))
}

/// Get a spread by name or alias, ignoring case
pub fn get_by_name(name: &str) -> (r: Option<Spread>)
    ensures
        match spread_alias(lowercase(name@)) {
            Some(t) => r matches Some(s) && is_spread(s, t),
            None => r is None,
        },
{
    let lower = lowercase_chars(name);
    if is_word(&lower, "single") || is_word(&lower, "one") {
        Some(single())
    } else if is_word(&lower, "three") || is_word(&lower, "3") || is_word(&lower, "past-present-future") {
        Some(three_card())
    } else if is_word(&lower, "situation") || is_word(&lower, "situation-action-outcome") {
        Some(situation_action_outcome())
    } else if is_word(&lower, "mind-body-spirit") || is_word(&lower, "holistic") {
        Some(mind_body_spirit())
    } else if is_word(&lower, "five") || is_word(&lower, "5") || is_word(&lower, "cross") {
        Some(five_card_cross())
    } else if is_word(&lower, "celtic") || is_word(&lower, "celtic-cross") || is_word(&lower, "10") {
        Some(celtic_cross())
    } else {
        None
    }
}

/// The six spreads in the order they are offered.
pub open spec fn spread_order(i: int) -> SpreadType {
    if i == 0 {
        SpreadType::Single
    } else if i == 1 {
        SpreadType::Three
    } else if i == 2 {
        SpreadType::Situation
    } else if i == 3 {
        SpreadType::MindBodySpirit
    } else if i == 4 {
        SpreadType::Five
    } else {
        SpreadType::Celtic
    }
}

/// Get all available spreads
pub fn all_spreads() -> (v: Vec<Spread>)
    ensures
        v@.len() == 6,
        forall|i: int| 0 <= i < 6 ==> is_spread(#[trigger] v@[i], spread_order(i)),
{
    let mut v: Vec<Spread> = Vec::new();
    v.push(single());
    v.push(three_card());
    v.push(situation_action_outcome());
    v.push(mind_body_spirit());
    v.push(five_card_cross());
    v.push(celtic_cross());
    v
}

} // verus!
