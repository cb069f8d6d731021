//! The twenty-two cards of the Major Arcana.

use vstd::prelude::*;

use super::{ArcanaType, Card, Element, YesOrNo};

verus! {

/// The name of the Major Arcana card numbered `n` (0 for The Fool up to 21 for The World).
pub open spec fn major_name(n: u8) -> &'static str {
    match n {
        0 => "The Fool",
        1 => "The Magician",
        2 => "The High Priestess",
        3 => "The Empress",
        4 => "The Emperor",
        5 => "The Hierophant",
        6 => "The Lovers",
        7 => "The Chariot",
        8 => "Strength",
        9 => "The Hermit",
        10 => "Wheel of Fortune",
        11 => "Justice",
        12 => "The Hanged Man",
        13 => "Death",
        14 => "Temperance",
        15 => "The Devil",
        16 => "The Tower",
        17 => "The Star",
        18 => "The Moon",
        19 => "The Sun",
        20 => "Judgement",
        _ => "The World",
    }
}

/// The Major Arcana card numbered `n` (0 to 21), with all its data.
pub open spec fn major_card_of(n: u8) -> Card {
    match n {
        0 => Card {
            name: "The Fool",
            arcana: ArcanaType::Major,
            suit: None,
            number: 0,
            keywords: &["beginnings", "innocence", "spontaneity", "free spirit"],
            upright: "A new journey begins; trust the moment and take a leap of faith with an open heart.",
            reversed: "Recklessness, hesitation, or fear of the unknown holds you back from a fresh start.",
            description: "A carefree traveller steps toward a cliff edge with a small dog at their heels and the sun at their back.",
            element: Some(Element::Air),
            astrology: Some("Uranus"),
            numerology: Some("0 — infinite potential"),
            yes_or_no: YesOrNo::Yes,
        },
        1 => Card {
            name: "The Magician",
            arcana: ArcanaType::Major,
            suit: None,
            number: 1,
            keywords: &["manifestation", "resourcefulness", "power", "inspired action"],
            upright: "You have every tool you need; focus your will and turn ideas into reality.",
            reversed: "Manipulation, untapped talent, or poor planning scatter your power.",
            description: "A figure points one hand to the sky and one to the earth, the four suit symbols laid out on a table.",
            element: Some(Element::Air),
            astrology: Some("Mercury"),
            numerology: Some("1 — initiation and will"),
            yes_or_no: YesOrNo::Yes,
        },
        2 => Card {
            name: "The High Priestess",
            arcana: ArcanaType::Major,
            suit: None,
            number: 2,
            keywords: &["intuition", "sacred knowledge", "the subconscious", "mystery"],
            upright: "Trust your intuition and the quiet knowledge that lies beneath the surface.",
            reversed: "Secrets, disconnection from intuition, or withdrawal cloud your inner voice.",
            description: "A serene priestess sits between a black and a white pillar, a scroll of hidden wisdom in her lap.",
            element: Some(Element::Water),
            astrology: Some("Moon"),
            numerology: Some("2 — duality and receptivity"),
            yes_or_no: YesOrNo::Maybe,
        },
        3 => Card {
            name: "The Empress",
            arcana: ArcanaType::Major,
            suit: None,
            number: 3,
            keywords: &["femininity", "beauty", "nature", "abundance"],
            upright: "Abundance, nurturing, and creativity flourish when you connect with nature and the senses.",
            reversed: "Creative block or dependence on others leaves you feeling depleted.",
            description: "A crowned woman rests on cushions in a field of ripening wheat beside a flowing stream.",
            element: Some(Element::Earth),
            astrology: Some("Venus"),
            numerology: Some("3 — creativity and growth"),
            yes_or_no: YesOrNo::Yes,
        },
        4 => Card {
            name: "The Emperor",
            arcana: ArcanaType::Major,
            suit: None,
            number: 4,
            keywords: &["authority", "structure", "control", "fatherhood"],
            upright: "Structure, discipline, and steady leadership create lasting stability.",
            reversed: "Domination, rigidity, or a lack of discipline undermines your authority.",
            description: "A stern ruler sits on a stone throne carved with rams, mountains rising behind him.",
            element: Some(Element::Fire),
            astrology: Some("Aries"),
            numerology: Some("4 — stability and order"),
            yes_or_no: YesOrNo::Yes,
        },
        5 => Card {
            name: "The Hierophant",
            arcana: ArcanaType::Major,
            suit: None,
            number: 5,
            keywords: &["spiritual wisdom", "tradition", "conformity", "institutions"],
            upright: "Tradition, shared beliefs, and trusted teachers offer guidance.",
            reversed: "Personal beliefs and freedom challenge convention and the status quo.",
            description: "A religious figure raises a hand in blessing before two kneeling followers.",
            element: Some(Element::Earth),
            astrology: Some("Taurus"),
            numerology: Some("5 — teaching and belief"),
            yes_or_no: YesOrNo::Maybe,
        },
        6 => Card {
            name: "The Lovers",
            arcana: ArcanaType::Major,
            suit: None,
            number: 6,
            keywords: &["love", "harmony", "relationships", "choices"],
            upright: "A meaningful union or choice aligned with your values brings harmony.",
            reversed: "Self-love, disharmony, or misaligned values strain a relationship.",
            description: "Two figures stand beneath an angel, the tree of knowledge and the tree of life behind them.",
            element: Some(Element::Air),
            astrology: Some("Gemini"),
            numerology: Some("6 — union and balance"),
            yes_or_no: YesOrNo::Yes,
        },
        7 => Card {
            name: "The Chariot",
            arcana: ArcanaType::Major,
            suit: None,
            number: 7,
            keywords: &["control", "willpower", "success", "determination"],
            upright: "Determination and focused will carry you to victory over obstacles.",
            reversed: "Lack of direction or self-discipline lets opposing forces pull you apart.",
            description: "A warrior rides a chariot drawn by a black and a white sphinx.",
            element: Some(Element::Water),
            astrology: Some("Cancer"),
            numerology: Some("7 — victory through effort"),
            yes_or_no: YesOrNo::Yes,
        },
        8 => Card {
            name: "Strength",
            arcana: ArcanaType::Major,
            suit: None,
            number: 8,
            keywords: &["courage", "persuasion", "influence", "compassion"],
            upright: "Quiet courage and compassion tame what force alone cannot.",
            reversed: "Self-doubt, low energy, or raw emotion weakens your resolve.",
            description: "A woman gently closes the jaws of a lion, an infinity sign above her head.",
            element: Some(Element::Fire),
            astrology: Some("Leo"),
            numerology: Some("8 — inner power"),
            yes_or_no: YesOrNo::Yes,
        },
        9 => Card {
            name: "The Hermit",
            arcana: ArcanaType::Major,
            suit: None,
            number: 9,
            keywords: &["soul-searching", "introspection", "solitude", "inner guidance"],
            upright: "Step back from the noise to seek wisdom and guidance within.",
            reversed: "Isolation or loneliness turns healthy solitude into withdrawal.",
            description: "An old man stands alone on a snowy peak holding a lantern containing a star.",
            element: Some(Element::Earth),
            astrology: Some("Virgo"),
            numerology: Some("9 — completion and wisdom"),
            yes_or_no: YesOrNo::Maybe,
        },
        10 => Card {
            name: "Wheel of Fortune",
            arcana: ArcanaType::Major,
            suit: None,
            number: 10,
            keywords: &["good luck", "karma", "life cycles", "destiny"],
            upright: "The wheel turns in your favour; embrace change and the cycles of fate.",
            reversed: "Bad luck or resistance to change leaves you feeling out of control.",
            description: "A great wheel turns in the sky, surrounded by the four living creatures and a sphinx.",
            element: Some(Element::Fire),
            astrology: Some("Jupiter"),
            numerology: Some("10 — cycles and turning points"),
            yes_or_no: YesOrNo::Yes,
        },
        11 => Card {
            name: "Justice",
            arcana: ArcanaType::Major,
            suit: None,
            number: 11,
            keywords: &["justice", "fairness", "truth", "cause and effect"],
            upright: "Truth and fairness prevail; actions meet their just consequences.",
            reversed: "Unfairness, dishonesty, or a lack of accountability distorts the outcome.",
            description: "A crowned figure holds a raised sword in one hand and balanced scales in the other.",
            element: Some(Element::Air),
            astrology: Some("Libra"),
            numerology: Some("11 — balance and intuition"),
            yes_or_no: YesOrNo::Maybe,
        },
        12 => Card {
            name: "The Hanged Man",
            arcana: ArcanaType::Major,
            suit: None,
            number: 12,
            keywords: &["pause", "surrender", "letting go", "new perspectives"],
            upright: "Surrender and a pause reveal a new perspective on the situation.",
            reversed: "Delays, resistance, or stalling keep you stuck in indecision.",
            description: "A man hangs upside down from a living tree, his face calm and his head glowing.",
            element: Some(Element::Water),
            astrology: Some("Neptune"),
            numerology: Some("12 — sacrifice and perspective"),
            yes_or_no: YesOrNo::Maybe,
        },
        13 => Card {
            name: "Death",
            arcana: ArcanaType::Major,
            suit: None,
            number: 13,
            keywords: &["endings", "change", "transformation", "transition"],
            upright: "An ending clears the way for transformation and new beginnings.",
            reversed: "Resistance to change prolongs a situation that needs to end.",
            description: "A skeleton in armour rides a white horse beneath a black banner bearing a white rose.",
            element: Some(Element::Water),
            astrology: Some("Scorpio"),
            numerology: Some("13 — transformation"),
            yes_or_no: YesOrNo::No,
        },
        14 => Card {
            name: "Temperance",
            arcana: ArcanaType::Major,
            suit: None,
            number: 14,
            keywords: &["balance", "moderation", "patience", "purpose"],
            upright: "Balance, patience, and moderation blend opposing forces into harmony.",
            reversed: "Imbalance, excess, or a lack of long-term vision disrupts the flow.",
            description: "An angel pours water between two cups, one foot on land and one in the water.",
            element: Some(Element::Fire),
            astrology: Some("Sagittarius"),
            numerology: Some("14 — harmony and integration"),
            yes_or_no: YesOrNo::Yes,
        },
        15 => Card {
            name: "The Devil",
            arcana: ArcanaType::Major,
            suit: None,
            number: 15,
            keywords: &["shadow self", "attachment", "addiction", "restriction"],
            upright: "Attachments, temptations, and unhealthy patterns hold you in chains.",
            reversed: "Release from limiting beliefs and reclaiming personal power.",
            description: "A horned figure looms over two chained people who could easily slip free.",
            element: Some(Element::Earth),
            astrology: Some("Capricorn"),
            numerology: Some("15 — material bondage"),
            yes_or_no: YesOrNo::No,
        },
        16 => Card {
            name: "The Tower",
            arcana: ArcanaType::Major,
            suit: None,
            number: 16,
            keywords: &["sudden change", "upheaval", "chaos", "revelation"],
            upright: "Sudden upheaval tears down false structures and reveals the truth.",
            reversed: "Fear of change or a disaster narrowly averted delays the inevitable.",
            description: "Lightning strikes a tall tower, sending flames and falling figures into the night.",
            element: Some(Element::Fire),
            astrology: Some("Mars"),
            numerology: Some("16 — breakdown and awakening"),
            yes_or_no: YesOrNo::No,
        },
        17 => Card {
            name: "The Star",
            arcana: ArcanaType::Major,
            suit: None,
            number: 17,
            keywords: &["hope", "faith", "purpose", "renewal"],
            upright: "Hope, healing, and renewed faith light the way forward.",
            reversed: "Discouragement or a lack of faith dims your sense of purpose.",
            description: "A figure kneels by a pool beneath a bright star, pouring water onto land and into the pool.",
            element: Some(Element::Air),
            astrology: Some("Aquarius"),
            numerology: Some("17 — hope and inspiration"),
            yes_or_no: YesOrNo::Yes,
        },
        18 => Card {
            name: "The Moon",
            arcana: ArcanaType::Major,
            suit: None,
            number: 18,
            keywords: &["illusion", "fear", "anxiety", "subconscious"],
            upright: "Illusions and hidden fears surface; let intuition guide you through uncertainty.",
            reversed: "Confusion lifts as fears are released and the truth comes to light.",
            description: "A dog and a wolf howl at the moon while a crayfish crawls from the water between two towers.",
            element: Some(Element::Water),
            astrology: Some("Pisces"),
            numerology: Some("18 — intuition and illusion"),
            yes_or_no: YesOrNo::No,
        },
        19 => Card {
            name: "The Sun",
            arcana: ArcanaType::Major,
            suit: None,
            number: 19,
            keywords: &["positivity", "fun", "warmth", "success"],
            upright: "Joy, success, and vitality shine on everything you do.",
            reversed: "Temporary sadness or a lack of clarity clouds an otherwise bright outlook.",
            description: "A radiant child rides a white horse beneath a blazing sun, sunflowers behind the wall.",
            element: Some(Element::Fire),
            astrology: Some("Sun"),
            numerology: Some("19 — joy and vitality"),
            yes_or_no: YesOrNo::Yes,
        },
        20 => Card {
            name: "Judgement",
            arcana: ArcanaType::Major,
            suit: None,
            number: 20,
            keywords: &["judgement", "rebirth", "inner calling", "absolution"],
            upright: "A call to awaken invites reflection, forgiveness, and rebirth.",
            reversed: "Self-doubt or an inner critic ignores the call to change.",
            description: "An angel sounds a trumpet as figures rise from their graves with open arms.",
            element: Some(Element::Fire),
            astrology: Some("Pluto"),
            numerology: Some("20 — awakening and renewal"),
            yes_or_no: YesOrNo::Yes,
        },
        _ => Card {
            name: "The World",
            arcana: ArcanaType::Major,
            suit: None,
            number: 21,
            keywords: &["completion", "integration", "accomplishment", "travel"],
            upright: "A cycle reaches completion, bringing fulfilment and a sense of wholeness.",
            reversed: "Seeking closure or shortcuts leaves a chapter unfinished.",
            description: "A dancer floats within a laurel wreath, the four living creatures at its corners.",
            element: Some(Element::Earth),
            astrology: Some("Saturn"),
            numerology: Some("21 — fulfilment and wholeness"),
            yes_or_no: YesOrNo::Yes,
        },
    }
}

/// The Major Arcana card numbered `n`.
pub fn major_card(n: u8) -> (c: Card)
    requires
        n < 22,
    ensures
        c.name == major_name(n),
        c.arcana == ArcanaType::Major,
        c.suit is None,
        c.number == n,
        c == major_card_of(n),
{
    match n {
        0 => Card {
            name: "The Fool",
            arcana: ArcanaType::Major,
            suit: None,
            number: 0,
            keywords: &["beginnings", "innocence", "spontaneity", "free spirit"],
            upright: "A new journey begins; trust the moment and take a leap of faith with an open heart.",
            reversed: "Recklessness, hesitation, or fear of the unknown holds you back from a fresh start.",
            description: "A carefree traveller steps toward a cliff edge with a small dog at their heels and the sun at their back.",
            element: Some(Element::Air),
            astrology: Some("Uranus"),
            numerology: Some("0 — infinite potential"),
            yes_or_no: YesOrNo::Yes,
        },
        1 => Card {
            name: "The Magician",
            arcana: ArcanaType::Major,
            suit: None,
            number: 1,
            keywords: &["manifestation", "resourcefulness", "power", "inspired action"],
            upright: "You have every tool you need; focus your will and turn ideas into reality.",
            reversed: "Manipulation, untapped talent, or poor planning scatter your power.",
            description: "A figure points one hand to the sky and one to the earth, the four suit symbols laid out on a table.",
            element: Some(Element::Air),
            astrology: Some("Mercury"),
            numerology: Some("1 — initiation and will"),
            yes_or_no: YesOrNo::Yes,
        },
        2 => Card {
            name: "The High Priestess",
            arcana: ArcanaType::Major,
            suit: None,
            number: 2,
            keywords: &["intuition", "sacred knowledge", "the subconscious", "mystery"],
            upright: "Trust your intuition and the quiet knowledge that lies beneath the surface.",
            reversed: "Secrets, disconnection from intuition, or withdrawal cloud your inner voice.",
            description: "A serene priestess sits between a black and a white pillar, a scroll of hidden wisdom in her lap.",
            element: Some(Element::Water),
            astrology: Some("Moon"),
            numerology: Some("2 — duality and receptivity"),
            yes_or_no: YesOrNo::Maybe,
        },
        3 => Card {
            name: "The Empress",
            arcana: ArcanaType::Major,
            suit: None,
            number: 3,
            keywords: &["femininity", "beauty", "nature", "abundance"],
            upright: "Abundance, nurturing, and creativity flourish when you connect with nature and the senses.",
            reversed: "Creative block or dependence on others leaves you feeling depleted.",
            description: "A crowned woman rests on cushions in a field of ripening wheat beside a flowing stream.",
            element: Some(Element::Earth),
            astrology: Some("Venus"),
            numerology: Some("3 — creativity and growth"),
            yes_or_no: YesOrNo::Yes,
        },
        4 => Card {
            name: "The Emperor",
            arcana: ArcanaType::Major,
            suit: None,
            number: 4,
            keywords: &["authority", "structure", "control", "fatherhood"],
            upright: "Structure, discipline, and steady leadership create lasting stability.",
            reversed: "Domination, rigidity, or a lack of discipline undermines your authority.",
            description: "A stern ruler sits on a stone throne carved with rams, mountains rising behind him.",
            element: Some(Element::Fire),
            astrology: Some("Aries"),
            numerology: Some("4 — stability and order"),
            yes_or_no: YesOrNo::Yes,
        },
        5 => Card {
            name: "The Hierophant",
            arcana: ArcanaType::Major,
            suit: None,
            number: 5,
            keywords: &["spiritual wisdom", "tradition", "conformity", "institutions"],
            upright: "Tradition, shared beliefs, and trusted teachers offer guidance.",
            reversed: "Personal beliefs and freedom challenge convention and the status quo.",
            description: "A religious figure raises a hand in blessing before two kneeling followers.",
            element: Some(Element::Earth),
            astrology: Some("Taurus"),
            numerology: Some("5 — teaching and belief"),
            yes_or_no: YesOrNo::Maybe,
        },
        6 => Card {
            name: "The Lovers",
            arcana: ArcanaType::Major,
            suit: None,
            number: 6,
            keywords: &["love", "harmony", "relationships", "choices"],
            upright: "A meaningful union or choice aligned with your values brings harmony.",
            reversed: "Self-love, disharmony, or misaligned values strain a relationship.",
            description: "Two figures stand beneath an angel, the tree of knowledge and the tree of life behind them.",
            element: Some(Element::Air),
            astrology: Some("Gemini"),
            numerology: Some("6 — union and balance"),
            yes_or_no: YesOrNo::Yes,
        },
        7 => Card {
            name: "The Chariot",
            arcana: ArcanaType::Major,
            suit: None,
            number: 7,
            keywords: &["control", "willpower", "success", "determination"],
            upright: "Determination and focused will carry you to victory over obstacles.",
            reversed: "Lack of direction or self-discipline lets opposing forces pull you apart.",
            description: "A warrior rides a chariot drawn by a black and a white sphinx.",
            element: Some(Element::Water),
            astrology: Some("Cancer"),
            numerology: Some("7 — victory through effort"),
            yes_or_no: YesOrNo::Yes,
        },
        8 => Card {
            name: "Strength",
            arcana: ArcanaType::Major,
            suit: None,
            number: 8,
            keywords: &["courage", "persuasion", "influence", "compassion"],
            upright: "Quiet courage and compassion tame what force alone cannot.",
            reversed: "Self-doubt, low energy, or raw emotion weakens your resolve.",
            description: "A woman gently closes the jaws of a lion, an infinity sign above her head.",
            element: Some(Element::Fire),
            astrology: Some("Leo"),
            numerology: Some("8 — inner power"),
            yes_or_no: YesOrNo::Yes,
        },
        9 => Card {
            name: "The Hermit",
            arcana: ArcanaType::Major,
            suit: None,
            number: 9,
            keywords: &["soul-searching", "introspection", "solitude", "inner guidance"],
            upright: "Step back from the noise to seek wisdom and guidance within.",
            reversed: "Isolation or loneliness turns healthy solitude into withdrawal.",
            description: "An old man stands alone on a snowy peak holding a lantern containing a star.",
            element: Some(Element::Earth),
            astrology: Some("Virgo"),
            numerology: Some("9 — completion and wisdom"),
            yes_or_no: YesOrNo::Maybe,
        },
        10 => Card {
            name: "Wheel of Fortune",
            arcana: ArcanaType::Major,
            suit: None,
            number: 10,
            keywords: &["good luck", "karma", "life cycles", "destiny"],
            upright: "The wheel turns in your favour; embrace change and the cycles of fate.",
            reversed: "Bad luck or resistance to change leaves you feeling out of control.",
            description: "A great wheel turns in the sky, surrounded by the four living creatures and a sphinx.",
            element: Some(Element::Fire),
            astrology: Some("Jupiter"),
            numerology: Some("10 — cycles and turning points"),
            yes_or_no: YesOrNo::Yes,
        },
        11 => Card {
            name: "Justice",
            arcana: ArcanaType::Major,
            suit: None,
            number: 11,
            keywords: &["justice", "fairness", "truth", "cause and effect"],
            upright: "Truth and fairness prevail; actions meet their just consequences.",
            reversed: "Unfairness, dishonesty, or a lack of accountability distorts the outcome.",
            description: "A crowned figure holds a raised sword in one hand and balanced scales in the other.",
            element: Some(Element::Air),
            astrology: Some("Libra"),
            numerology: Some("11 — balance and intuition"),
            yes_or_no: YesOrNo::Maybe,
        },
        12 => Card {
            name: "The Hanged Man",
            arcana: ArcanaType::Major,
            suit: None,
            number: 12,
            keywords: &["pause", "surrender", "letting go", "new perspectives"],
            upright: "Surrender and a pause reveal a new perspective on the situation.",
            reversed: "Delays, resistance, or stalling keep you stuck in indecision.",
            description: "A man hangs upside down from a living tree, his face calm and his head glowing.",
            element: Some(Element::Water),
            astrology: Some("Neptune"),
            numerology: Some("12 — sacrifice and perspective"),
            yes_or_no: YesOrNo::Maybe,
        },
        13 => Card {
            name: "Death",
            arcana: ArcanaType::Major,
            suit: None,
            number: 13,
            keywords: &["endings", "change", "transformation", "transition"],
            upright: "An ending clears the way for transformation and new beginnings.",
            reversed: "Resistance to change prolongs a situation that needs to end.",
            description: "A skeleton in armour rides a white horse beneath a black banner bearing a white rose.",
            element: Some(Element::Water),
            astrology: Some("Scorpio"),
            numerology: Some("13 — transformation"),
            yes_or_no: YesOrNo::No,
        },
        14 => Card {
            name: "Temperance",
            arcana: ArcanaType::Major,
            suit: None,
            number: 14,
            keywords: &["balance", "moderation", "patience", "purpose"],
            upright: "Balance, patience, and moderation blend opposing forces into harmony.",
            reversed: "Imbalance, excess, or a lack of long-term vision disrupts the flow.",
            description: "An angel pours water between two cups, one foot on land and one in the water.",
            element: Some(Element::Fire),
            astrology: Some("Sagittarius"),
            numerology: Some("14 — harmony and integration"),
            yes_or_no: YesOrNo::Yes,
        },
        15 => Card {
            name: "The Devil",
            arcana: ArcanaType::Major,
            suit: None,
            number: 15,
            keywords: &["shadow self", "attachment", "addiction", "restriction"],
            upright: "Attachments, temptations, and unhealthy patterns hold you in chains.",
            reversed: "Release from limiting beliefs and reclaiming personal power.",
            description: "A horned figure looms over two chained people who could easily slip free.",
            element: Some(Element::Earth),
            astrology: Some("Capricorn"),
            numerology: Some("15 — material bondage"),
            yes_or_no: YesOrNo::No,
        },
        16 => Card {
            name: "The Tower",
            arcana: ArcanaType::Major,
            suit: None,
            number: 16,
            keywords: &["sudden change", "upheaval", "chaos", "revelation"],
            upright: "Sudden upheaval tears down false structures and reveals the truth.",
            reversed: "Fear of change or a disaster narrowly averted delays the inevitable.",
            description: "Lightning strikes a tall tower, sending flames and falling figures into the night.",
            element: Some(Element::Fire),
            astrology: Some("Mars"),
            numerology: Some("16 — breakdown and awakening"),
            yes_or_no: YesOrNo::No,
        },
        17 => Card {
            name: "The Star",
            arcana: ArcanaType::Major,
            suit: None,
            number: 17,
            keywords: &["hope", "faith", "purpose", "renewal"],
            upright: "Hope, healing, and renewed faith light the way forward.",
            reversed: "Discouragement or a lack of faith dims your sense of purpose.",
            description: "A figure kneels by a pool beneath a bright star, pouring water onto land and into the pool.",
            element: Some(Element::Air),
            astrology: Some("Aquarius"),
            numerology: Some("17 — hope and inspiration"),
            yes_or_no: YesOrNo::Yes,
        },
        18 => Card {
            name: "The Moon",
            arcana: ArcanaType::Major,
            suit: None,
            number: 18,
            keywords: &["illusion", "fear", "anxiety", "subconscious"],
            upright: "Illusions and hidden fears surface; let intuition guide you through uncertainty.",
            reversed: "Confusion lifts as fears are released and the truth comes to light.",
            description: "A dog and a wolf howl at the moon while a crayfish crawls from the water between two towers.",
            element: Some(Element::Water),
            astrology: Some("Pisces"),
            numerology: Some("18 — intuition and illusion"),
            yes_or_no: YesOrNo::No,
        },
        19 => Card {
            name: "The Sun",
            arcana: ArcanaType::Major,
            suit: None,
            number: 19,
            keywords: &["positivity", "fun", "warmth", "success"],
            upright: "Joy, success, and vitality shine on everything you do.",
            reversed: "Temporary sadness or a lack of clarity clouds an otherwise bright outlook.",
            description: "A radiant child rides a white horse beneath a blazing sun, sunflowers behind the wall.",
            element: Some(Element::Fire),
            astrology: Some("Sun"),
            numerology: Some("19 — joy and vitality"),
            yes_or_no: YesOrNo::Yes,
        },
        20 => Card {
            name: "Judgement",
            arcana: ArcanaType::Major,
            suit: None,
            number: 20,
            keywords: &["judgement", "rebirth", "inner calling", "absolution"],
            upright: "A call to awaken invites reflection, forgiveness, and rebirth.",
            reversed: "Self-doubt or an inner critic ignores the call to change.",
            description: "An angel sounds a trumpet as figures rise from their graves with open arms.",
            element: Some(Element::Fire),
            astrology: Some("Pluto"),
            numerology: Some("20 — awakening and renewal"),
            yes_or_no: YesOrNo::Yes,
        },
        _ => Card {
            name: "The World",
            arcana: ArcanaType::Major,
            suit: None,
            number: 21,
            keywords: &["completion", "integration", "accomplishment", "travel"],
            upright: "A cycle reaches completion, bringing fulfilment and a sense of wholeness.",
            reversed: "Seeking closure or shortcuts leaves a chapter unfinished.",
            description: "A dancer floats within a laurel wreath, the four living creatures at its corners.",
            element: Some(Element::Earth),
            astrology: Some("Saturn"),
            numerology: Some("21 — fulfilment and wholeness"),
            yes_or_no: YesOrNo::Yes,
        },
    }
}

} // verus!
