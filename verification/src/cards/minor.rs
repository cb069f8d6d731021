//! The fifty-six cards of the Minor Arcana: fourteen ranks in each of the four suits.

use vstd::prelude::*;

use super::{ArcanaType, Card, Element, Suit, YesOrNo};

verus! {

/// The suit of the Minor Arcana card at position `i` (suits come in the order
/// Wands, Cups, Swords, Pentacles, fourteen cards each).
pub open spec fn minor_suit(i: int) -> Suit {
    if i < 14 {
        Suit::Wands
    } else if i < 28 {
        Suit::Cups
    } else if i < 42 {
        Suit::Swords
    } else {
        Suit::Pentacles
    }
}

/// The rank of the Minor Arcana card at position `i`: 1 (Ace) to 14 (King).
pub open spec fn minor_number(i: int) -> int {
    i % 14 + 1
}

/// The name of the Minor Arcana card at position `i`.
pub open spec fn minor_name(i: u8) -> &'static str {
    match i {
        0 => "Ace of Wands",
        1 => "Two of Wands",
        2 => "Three of Wands",
        3 => "Four of Wands",
        4 => "Five of Wands",
        5 => "Six of Wands",
        6 => "Seven of Wands",
        7 => "Eight of Wands",
        8 => "Nine of Wands",
        9 => "Ten of Wands",
        10 => "Page of Wands",
        11 => "Knight of Wands",
        12 => "Queen of Wands",
        13 => "King of Wands",
        14 => "Ace of Cups",
        15 => "Two of Cups",
        16 => "Three of Cups",
        17 => "Four of Cups",
        18 => "Five of Cups",
        19 => "Six of Cups",
        20 => "Seven of Cups",
        21 => "Eight of Cups",
        22 => "Nine of Cups",
        23 => "Ten of Cups",
        24 => "Page of Cups",
        25 => "Knight of Cups",
        26 => "Queen of Cups",
        27 => "King of Cups",
        28 => "Ace of Swords",
        29 => "Two of Swords",
        30 => "Three of Swords",
        31 => "Four of Swords",
        32 => "Five of Swords",
        33 => "Six of Swords",
        34 => "Seven of Swords",
        35 => "Eight of Swords",
        36 => "Nine of Swords",
        37 => "Ten of Swords",
        38 => "Page of Swords",
        39 => "Knight of Swords",
        40 => "Queen of Swords",
        41 => "King of Swords",
        42 => "Ace of Pentacles",
        43 => "Two of Pentacles",
        44 => "Three of Pentacles",
        45 => "Four of Pentacles",
        46 => "Five of Pentacles",
        47 => "Six of Pentacles",
        48 => "Seven of Pentacles",
        49 => "Eight of Pentacles",
        50 => "Nine of Pentacles",
        51 => "Ten of Pentacles",
        52 => "Page of Pentacles",
        53 => "Knight of Pentacles",
        54 => "Queen of Pentacles",
        _ => "King of Pentacles",
    }
}

/// The Minor Arcana card at position `i` (0 to 55), with all its data.
pub open spec fn minor_card_of(i: u8) -> Card {
    match i {
        0 => Card {
            name: "Ace of Wands",
            arcana: ArcanaType::Minor,
            suit: Some(Suit::Wands),
            number: 1,
            keywords: &["inspiration", "new opportunities", "growth", "potential"],
            upright: "A spark of inspiration arrives; seize a new creative venture with enthusiasm.",
            reversed: "Delays, lack of motivation, or a creative block hold the fire back.",
            description: "A hand emerges from a cloud holding a sprouting wand, offering the seed of new energy.",
            element: Some(Element::Fire),
            astrology: None,
            numerology: Some("1 — new beginnings and potential"),
            yes_or_no: YesOrNo::Yes,
        },
        1 => Card {
            name: "Two of Wands",
            arcana: ArcanaType::Minor,
            suit: Some(Suit::Wands),
            number: 2,
            keywords: &["future planning", "progress", "decisions", "discovery"],
            upright: "You are planning the next step and weighing where your ambitions should take you.",
            reversed: "Fear of the unknown or poor planning keeps you from moving forward.",
            description: "A figure holds a globe and looks out from a castle wall, considering distant horizons.",
            element: Some(Element::Fire),
            astrology: Some("Mars in Aries"),
            numerology: Some("2 — balance and partnership"),
            yes_or_no: YesOrNo::Maybe,
        },
        2 => Card {
            name: "Three of Wands",
            arcana: ArcanaType::Minor,
            suit: Some(Suit::Wands),
            number: 3,
            keywords: &["expansion", "foresight", "overseas opportunities", "progress"],
            upright: "Your efforts are paying off and the horizon is opening up for growth.",
            reversed: "Obstacles and delays frustrate plans that seemed ready to expand.",
            description: "A figure watches ships sail out across the sea, waiting for ventures to return.",
            element: Some(Element::Fire),
            astrology: Some("Sun in Aries"),
            numerology: Some("3 — growth and expression"),
            yes_or_no: YesOrNo::Yes,
        },
        3 => Card {
            name: "Four of Wands",
            arcana: ArcanaType::Minor,
            suit: Some(Suit::Wands),
            number: 4,
            keywords: &["celebration", "harmony", "homecoming", "community"],
            upright: "A joyful milestone calls for celebration with the people who matter.",
            reversed: "Tension at home or a lack of support dampens a celebration.",
            description: "Four wands crowned with garlands frame a festive gathering before a castle.",
            element: Some(Element::Fire),
            astrology: Some("Venus in Aries"),
            numerology: Some("4 — stability and foundation"),
            yes_or_no: YesOrNo::Yes,
        },
        4 => Card {
            name: "Five of Wands",
            arcana: ArcanaType::Minor,
            suit: Some(Suit::Wands),
            number: 5,
            keywords: &["conflict", "competition", "tension", "disagreements"],
            upright: "Clashing egos and competition demand that you find a constructive way through.",
            reversed: "Conflict is avoided or resolved, bringing relief after struggle.",
            description: "Five figures brandish wands in a chaotic contest of wills.",
            element: Some(Element::Fire),
            astrology: Some("Saturn in Leo"),
            numerology: Some("5 — conflict and change"),
            yes_or_no: YesOrNo::No,
        },
        5 => Card {
            name: "Six of Wands",
            arcana: ArcanaType::Minor,
            suit: Some(Suit::Wands),
            number: 6,
            keywords: &["victory", "public recognition", "success", "self-confidence"],
            upright: "Success and recognition arrive as your achievements are celebrated.",
            reversed: "Self-doubt, a fall from grace, or a lack of recognition.",
            description: "A rider crowned with laurels parades through a cheering crowd.",
            element: Some(Element::Fire),
            astrology: Some("Jupiter in Leo"),
            numerology: Some("6 — harmony and reciprocity"),
            yes_or_no: YesOrNo::Yes,
        },
        6 => Card {
            name: "Seven of Wands",
            arcana: ArcanaType::Minor,
            suit: Some(Suit::Wands),
            number: 7,
            keywords: &["challenge", "perseverance", "defense", "standing your ground"],
            upright: "Hold your position with courage as others challenge what you have built.",
            reversed: "You feel overwhelmed and tempted to give up the fight.",
            description: "A figure on high ground fends off six wands rising from below.",
            element: Some(Element::Fire),
            astrology: Some("Mars in Leo"),
            numerology: Some("7 — reflection and assessment"),
            yes_or_no: YesOrNo::Maybe,
        },
        7 => Card {
            name: "Eight of Wands",
            arcana: ArcanaType::Minor,
            suit: Some(Suit::Wands),
            number: 8,
            keywords: &["speed", "movement", "swift action", "news"],
            upright: "Events move quickly; messages and momentum carry you forward.",
            reversed: "Delays, frustration, and scattered energy slow everything down.",
            description: "Eight wands fly through open sky, nearing their destination.",
            element: Some(Element::Fire),
            astrology: Some("Mercury in Sagittarius"),
            numerology: Some("8 — movement and mastery"),
            yes_or_no: YesOrNo::Yes,
        },
        8 => Card {
            name: "Nine of Wands",
            arcana: ArcanaType::Minor,
            suit: Some(Suit::Wands),
            number: 9,
            keywords: &["resilience", "persistence", "boundaries", "last stand"],
            upright: "Though weary, you are close to the finish; keep your guard and persist.",
            reversed: "Exhaustion and paranoia make you want to give up.",
            description: "A bandaged figure leans on a wand, watchful before a row of others.",
            element: Some(Element::Fire),
            astrology: Some("Moon in Sagittarius"),
            numerology: Some("9 — fruition and attainment"),
            yes_or_no: YesOrNo::Maybe,
        },
        9 => Card {
            name: "Ten of Wands",
            arcana: ArcanaType::Minor,
            suit: Some(Suit::Wands),
            number: 10,
            keywords: &["burden", "responsibility", "hard work", "overload"],
            upright: "You are carrying too much; success has become a heavy load.",
            reversed: "Learning to delegate and release burdens that are not yours.",
            description: "A figure struggles toward a town beneath a bundle of ten wands.",
            element: Some(Element::Fire),
            astrology: Some("Saturn in Sagittarius"),
            numerology: Some("10 — completion and renewal"),
            yes_or_no: YesOrNo::No,
        },
        10 => Card {
            name: "Page of Wands",
            arcana: ArcanaType::Minor,
            suit: Some(Suit::Wands),
            number: 11,
            keywords: &["enthusiasm", "exploration", "discovery", "free spirit"],
            upright: "Curious energy and new ideas invite you to explore without fear.",
            reversed: "Hasty starts, lack of direction, or creative frustration.",
            description: "A young figure gazes at a sprouting wand in a desert landscape.",
            element: Some(Element::Fire),
            astrology: None,
            numerology: None,
            yes_or_no: YesOrNo::Yes,
        },
        11 => Card {
            name: "Knight of Wands",
            arcana: ArcanaType::Minor,
            suit: Some(Suit::Wands),
            number: 12,
            keywords: &["energy", "passion", "adventure", "impulsiveness"],
            upright: "Bold action and adventure propel you toward your goals.",
            reversed: "Recklessness, haste, and scattered energy cause trouble.",
            description: "A knight charges forward on a rearing horse, wand held high.",
            element: Some(Element::Fire),
            astrology: None,
            numerology: None,
            yes_or_no: YesOrNo::Yes,
        },
        12 => Card {
            name: "Queen of Wands",
            arcana: ArcanaType::Minor,
            suit: Some(Suit::Wands),
            number: 13,
            keywords: &["courage", "confidence", "determination", "warmth"],
            upright: "Radiant confidence and warmth help you lead and inspire.",
            reversed: "Insecurity, jealousy, or demanding behaviour dims your light.",
            description: "A queen sits on a lion throne holding a sunflower and a wand.",
            element: Some(Element::Fire),
            astrology: None,
            numerology: None,
            yes_or_no: YesOrNo::Yes,
        },
        13 => Card {
            name: "King of Wands",
            arcana: ArcanaType::Minor,
            suit: Some(Suit::Wands),
            number: 14,
            keywords: &["leadership", "vision", "entrepreneur", "honour"],
            upright: "Visionary leadership turns big ideas into reality.",
            reversed: "Impulsiveness, arrogance, or high expectations undermine your lead.",
            description: "A king on a throne adorned with lions and salamanders holds a blossoming wand.",
            element: Some(Element::Fire),
            astrology: None,
            numerology: None,
            yes_or_no: YesOrNo::Yes,
        },
        14 => Card {
            name: "Ace of Cups",
            arcana: ArcanaType::Minor,
            suit: Some(Suit::Cups),
            number: 1,
            keywords: &["love", "new relationships", "compassion", "creativity"],
            upright: "Emotional renewal and new love overflow into your life.",
            reversed: "Emotional loss, blocked creativity, or emptiness.",
            description: "A hand offers a cup overflowing with five streams of water.",
            element: Some(Element::Water),
            astrology: None,
            numerology: Some("1 — new beginnings and potential"),
            yes_or_no: YesOrNo::Yes,
        },
        15 => Card {
            name: "Two of Cups",
            arcana: ArcanaType::Minor,
            suit: Some(Suit::Cups),
            number: 2,
            keywords: &["unified love", "partnership", "mutual attraction", "connection"],
            upright: "A balanced partnership forms through mutual respect and affection.",
            reversed: "Imbalance, broken communication, or tension in a relationship.",
            description: "Two figures exchange cups beneath a winged lion's head.",
            element: Some(Element::Water),
            astrology: Some("Venus in Cancer"),
            numerology: Some("2 — balance and partnership"),
            yes_or_no: YesOrNo::Yes,
        },
        16 => Card {
            name: "Three of Cups",
            arcana: ArcanaType::Minor,
            suit: Some(Suit::Cups),
            number: 3,
            keywords: &["celebration", "friendship", "creativity", "collaboration"],
            upright: "Friendship and community bring joy worth celebrating together.",
            reversed: "Overindulgence, gossip, or isolation from friends.",
            description: "Three women raise their cups in a joyful dance.",
            element: Some(Element::Water),
            astrology: Some("Mercury in Cancer"),
            numerology: Some("3 — growth and expression"),
            yes_or_no: YesOrNo::Yes,
        },
        17 => Card {
            name: "Four of Cups",
            arcana: ArcanaType::Minor,
            suit: Some(Suit::Cups),
            number: 4,
            keywords: &["meditation", "contemplation", "apathy", "reevaluation"],
            upright: "Withdrawal and contemplation can blind you to what is being offered.",
            reversed: "Retreat ends as you become open to new possibilities.",
            description: "A figure sits under a tree, ignoring a cup offered from a cloud.",
            element: Some(Element::Water),
            astrology: Some("Moon in Cancer"),
            numerology: Some("4 — stability and foundation"),
            yes_or_no: YesOrNo::Maybe,
        },
        18 => Card {
            name: "Five of Cups",
            arcana: ArcanaType::Minor,
            suit: Some(Suit::Cups),
            number: 5,
            keywords: &["regret", "failure", "disappointment", "pessimism"],
            upright: "Grief over what was lost overshadows what still remains.",
            reversed: "Acceptance, moving on, and finding peace after loss.",
            description: "A cloaked figure mourns three spilled cups while two stand behind.",
            element: Some(Element::Water),
            astrology: Some("Mars in Scorpio"),
            numerology: Some("5 — conflict and change"),
            yes_or_no: YesOrNo::No,
        },
        19 => Card {
            name: "Six of Cups",
            arcana: ArcanaType::Minor,
            suit: Some(Suit::Cups),
            number: 6,
            keywords: &["revisiting the past", "childhood memories", "innocence", "joy"],
            upright: "Nostalgia and simple kindness reconnect you with joy.",
            reversed: "Living in the past keeps you from moving forward.",
            description: "Children share cups filled with flowers in a peaceful courtyard.",
            element: Some(Element::Water),
            astrology: Some("Sun in Scorpio"),
            numerology: Some("6 — harmony and reciprocity"),
            yes_or_no: YesOrNo::Yes,
        },
        20 => Card {
            name: "Seven of Cups",
            arcana: ArcanaType::Minor,
            suit: Some(Suit::Cups),
            number: 7,
            keywords: &["opportunities", "choices", "wishful thinking", "illusion"],
            upright: "Many options appear, but not all of them are real.",
            reversed: "Clarity returns and you commit to a path.",
            description: "A figure faces seven cups floating in the clouds, each holding a vision.",
            element: Some(Element::Water),
            astrology: Some("Venus in Scorpio"),
            numerology: Some("7 — reflection and assessment"),
            yes_or_no: YesOrNo::Maybe,
        },
        21 => Card {
            name: "Eight of Cups",
            arcana: ArcanaType::Minor,
            suit: Some(Suit::Cups),
            number: 8,
            keywords: &["disappointment", "abandonment", "withdrawal", "escapism"],
            upright: "You walk away from what no longer fulfils you to seek deeper meaning.",
            reversed: "Fear of change keeps you in an unfulfilling situation.",
            description: "A figure leaves eight stacked cups behind, walking toward distant mountains.",
            element: Some(Element::Water),
            astrology: Some("Saturn in Pisces"),
            numerology: Some("8 — movement and mastery"),
            yes_or_no: YesOrNo::No,
        },
        22 => Card {
            name: "Nine of Cups",
            arcana: ArcanaType::Minor,
            suit: Some(Suit::Cups),
            number: 9,
            keywords: &["contentment", "satisfaction", "gratitude", "wish come true"],
            upright: "Wishes are fulfilled and you enjoy well-earned satisfaction.",
            reversed: "Inner happiness is missing despite outward success.",
            description: "A contented figure sits before a row of nine cups.",
            element: Some(Element::Water),
            astrology: Some("Jupiter in Pisces"),
            numerology: Some("9 — fruition and attainment"),
            yes_or_no: YesOrNo::Yes,
        },
        23 => Card {
            name: "Ten of Cups",
            arcana: ArcanaType::Minor,
            suit: Some(Suit::Cups),
            number: 10,
            keywords: &["divine love", "blissful relationships", "harmony", "alignment"],
            upright: "Harmony and lasting happiness fill your home and relationships.",
            reversed: "Disconnection or broken family bonds disturb the peace.",
            description: "A family rejoices beneath a rainbow of ten cups.",
            element: Some(Element::Water),
            astrology: Some("Mars in Pisces"),
            numerology: Some("10 — completion and renewal"),
            yes_or_no: YesOrNo::Yes,
        },
        24 => Card {
            name: "Page of Cups",
            arcana: ArcanaType::Minor,
            suit: Some(Suit::Cups),
            number: 11,
            keywords: &["creative opportunities", "intuitive messages", "curiosity", "possibility"],
            upright: "A gentle message or creative spark invites emotional openness.",
            reversed: "Emotional immaturity or creative blocks.",
            description: "A young figure gazes at a fish peeking out of a cup.",
            element: Some(Element::Water),
            astrology: None,
            numerology: None,
            yes_or_no: YesOrNo::Yes,
        },
        25 => Card {
            name: "Knight of Cups",
            arcana: ArcanaType::Minor,
            suit: Some(Suit::Cups),
            number: 12,
            keywords: &["creativity", "romance", "charm", "imagination"],
            upright: "A romantic offer or creative invitation follows your heart.",
            reversed: "Moodiness, unrealistic expectations, or jealousy.",
            description: "A knight rides slowly forward, offering a cup.",
            element: Some(Element::Water),
            astrology: None,
            numerology: None,
            yes_or_no: YesOrNo::Yes,
        },
        26 => Card {
            name: "Queen of Cups",
            arcana: ArcanaType::Minor,
            suit: Some(Suit::Cups),
            number: 13,
            keywords: &["compassion", "caring", "emotional stability", "intuition"],
            upright: "Compassion and intuition guide you to care for yourself and others.",
            reversed: "Emotional insecurity or co-dependence clouds your judgement.",
            description: "A queen sits by the sea, gazing at an ornate closed cup.",
            element: Some(Element::Water),
            astrology: None,
            numerology: None,
            yes_or_no: YesOrNo::Yes,
        },
        27 => Card {
            name: "King of Cups",
            arcana: ArcanaType::Minor,
            suit: Some(Suit::Cups),
            number: 14,
            keywords: &["emotional balance", "compassion", "diplomacy", "calm"],
            upright: "Emotional mastery lets you lead with calm and kindness.",
            reversed: "Emotional manipulation, moodiness, or volatility.",
            description: "A king sits on a throne floating on a restless sea.",
            element: Some(Element::Water),
            astrology: None,
            numerology: None,
            yes_or_no: YesOrNo::Yes,
        },
        28 => Card {
            name: "Ace of Swords",
            arcana: ArcanaType::Minor,
            suit: Some(Suit::Swords),
            number: 1,
            keywords: &["breakthroughs", "new ideas", "mental clarity", "success"],
            upright: "A breakthrough brings clarity and the power of truth.",
            reversed: "Confusion, miscommunication, or clouded judgement.",
            description: "A hand grasps an upright sword crowned with a wreath.",
            element: Some(Element::Air),
            astrology: None,
            numerology: Some("1 — new beginnings and potential"),
            yes_or_no: YesOrNo::Yes,
        },
        29 => Card {
            name: "Two of Swords",
            arcana: ArcanaType::Minor,
            suit: Some(Suit::Swords),
            number: 2,
            keywords: &["difficult decisions", "weighing up options", "an impasse", "avoidance"],
            upright: "You face a stalemate and must choose despite uncertainty.",
            reversed: "Indecision gives way to overload and information overwhelm.",
            description: "A blindfolded figure holds two crossed swords before the sea.",
            element: Some(Element::Air),
            astrology: Some("Moon in Libra"),
            numerology: Some("2 — balance and partnership"),
            yes_or_no: YesOrNo::Maybe,
        },
        30 => Card {
            name: "Three of Swords",
            arcana: ArcanaType::Minor,
            suit: Some(Suit::Swords),
            number: 3,
            keywords: &["heartbreak", "emotional pain", "sorrow", "grief"],
            upright: "Painful truths and sorrow must be felt before healing begins.",
            reversed: "Recovery, forgiveness, and release of pain.",
            description: "Three swords pierce a heart beneath a stormy sky.",
            element: Some(Element::Air),
            astrology: Some("Saturn in Libra"),
            numerology: Some("3 — growth and expression"),
            yes_or_no: YesOrNo::No,
        },
        31 => Card {
            name: "Four of Swords",
            arcana: ArcanaType::Minor,
            suit: Some(Suit::Swords),
            number: 4,
            keywords: &["rest", "relaxation", "meditation", "recuperation"],
            upright: "Rest and retreat restore your strength for what lies ahead.",
            reversed: "Restlessness, burnout, or stagnation.",
            description: "A knight lies in repose on a tomb beneath a stained-glass window.",
            element: Some(Element::Air),
            astrology: Some("Jupiter in Libra"),
            numerology: Some("4 — stability and foundation"),
            yes_or_no: YesOrNo::Maybe,
        },
        32 => Card {
            name: "Five of Swords",
            arcana: ArcanaType::Minor,
            suit: Some(Suit::Swords),
            number: 5,
            keywords: &["conflict", "disagreements", "competition", "defeat"],
            upright: "Winning at any cost leaves everyone feeling diminished.",
            reversed: "Reconciliation and making amends after conflict.",
            description: "A smirking figure collects swords as defeated rivals walk away.",
            element: Some(Element::Air),
            astrology: Some("Venus in Aquarius"),
            numerology: Some("5 — conflict and change"),
            yes_or_no: YesOrNo::No,
        },
        33 => Card {
            name: "Six of Swords",
            arcana: ArcanaType::Minor,
            suit: Some(Suit::Swords),
            number: 6,
            keywords: &["transition", "change", "rite of passage", "releasing baggage"],
            upright: "You move away from turmoil toward calmer waters.",
            reversed: "Resistance to change or unfinished business.",
            description: "A ferryman carries passengers across water toward a distant shore.",
            element: Some(Element::Air),
            astrology: Some("Mercury in Aquarius"),
            numerology: Some("6 — harmony and reciprocity"),
            yes_or_no: YesOrNo::Maybe,
        },
        34 => Card {
            name: "Seven of Swords",
            arcana: ArcanaType::Minor,
            suit: Some(Suit::Swords),
            number: 7,
            keywords: &["betrayal", "deception", "getting away with something", "strategy"],
            upright: "Strategy or deception is at play; watch for hidden motives.",
            reversed: "Coming clean, confession, or rethinking your approach.",
            description: "A figure sneaks away from a camp carrying five swords.",
            element: Some(Element::Air),
            astrology: Some("Moon in Aquarius"),
            numerology: Some("7 — reflection and assessment"),
            yes_or_no: YesOrNo::No,
        },
        35 => Card {
            name: "Eight of Swords",
            arcana: ArcanaType::Minor,
            suit: Some(Suit::Swords),
            number: 8,
            keywords: &["negative thoughts", "self-imposed restriction", "imprisonment", "victim mentality"],
            upright: "You feel trapped, yet the bonds are looser than they seem.",
            reversed: "Self-acceptance and new perspective set you free.",
            description: "A bound and blindfolded figure stands among eight swords.",
            element: Some(Element::Air),
            astrology: Some("Jupiter in Gemini"),
            numerology: Some("8 — movement and mastery"),
            yes_or_no: YesOrNo::No,
        },
        36 => Card {
            name: "Nine of Swords",
            arcana: ArcanaType::Minor,
            suit: Some(Suit::Swords),
            number: 9,
            keywords: &["anxiety", "worry", "fear", "depression"],
            upright: "Worry and sleepless fear magnify troubles in the night.",
            reversed: "Hope returns as you reach out and release anxiety.",
            description: "A figure sits up in bed, head in hands, beneath nine swords.",
            element: Some(Element::Air),
            astrology: Some("Mars in Gemini"),
            numerology: Some("9 — fruition and attainment"),
            yes_or_no: YesOrNo::No,
        },
        37 => Card {
            name: "Ten of Swords",
            arcana: ArcanaType::Minor,
            suit: Some(Suit::Swords),
            number: 10,
            keywords: &["painful endings", "deep wounds", "betrayal", "loss"],
            upright: "A painful ending has arrived, and the only way now is up.",
            reversed: "Recovery and regeneration after hitting rock bottom.",
            description: "A figure lies face down, pierced by ten swords, as dawn breaks.",
            element: Some(Element::Air),
            astrology: Some("Sun in Gemini"),
            numerology: Some("10 — completion and renewal"),
            yes_or_no: YesOrNo::No,
        },
        38 => Card {
            name: "Page of Swords",
            arcana: ArcanaType::Minor,
            suit: Some(Suit::Swords),
            number: 11,
            keywords: &["new ideas", "curiosity", "thirst for knowledge", "communication"],
            upright: "Curiosity and fresh ideas drive you to learn and speak up.",
            reversed: "Hasty words, gossip, or all talk and no action.",
            description: "A young figure holds a sword aloft against a windswept sky.",
            element: Some(Element::Air),
            astrology: None,
            numerology: None,
            yes_or_no: YesOrNo::Maybe,
        },
        39 => Card {
            name: "Knight of Swords",
            arcana: ArcanaType::Minor,
            suit: Some(Suit::Swords),
            number: 12,
            keywords: &["ambition", "action", "drive", "fast thinking"],
            upright: "Driven ambition charges ahead to achieve your goals.",
            reversed: "Restlessness, impulsiveness, and burnout.",
            description: "A knight charges into battle with sword raised against the wind.",
            element: Some(Element::Air),
            astrology: None,
            numerology: None,
            yes_or_no: YesOrNo::Yes,
        },
        40 => Card {
            name: "Queen of Swords",
            arcana: ArcanaType::Minor,
            suit: Some(Suit::Swords),
            number: 13,
            keywords: &["independence", "unbiased judgement", "clear boundaries", "direct communication"],
            upright: "Clear thinking and honest words cut through confusion.",
            reversed: "Coldness, bitterness, or cruel words.",
            description: "A queen sits on a high throne, sword upright, hand extended.",
            element: Some(Element::Air),
            astrology: None,
            numerology: None,
            yes_or_no: YesOrNo::Maybe,
        },
        41 => Card {
            name: "King of Swords",
            arcana: ArcanaType::Minor,
            suit: Some(Suit::Swords),
            number: 14,
            keywords: &["mental clarity", "intellectual power", "authority", "truth"],
            upright: "Reason and ethical authority guide sound decisions.",
            reversed: "Manipulation, tyranny, or abuse of power.",
            description: "A king sits on a throne holding a sword of judgement.",
            element: Some(Element::Air),
            astrology: None,
            numerology: None,
            yes_or_no: YesOrNo::Maybe,
        },
        42 => Card {
            name: "Ace of Pentacles",
            arcana: ArcanaType::Minor,
            suit: Some(Suit::Pentacles),
            number: 1,
            keywords: &["opportunity", "manifestation", "abundance", "prosperity"],
            upright: "A new opportunity for prosperity and stability takes root.",
            reversed: "Lost opportunity, poor planning, or lack of foresight.",
            description: "A hand offers a golden pentacle above a flowering garden.",
            element: Some(Element::Earth),
            astrology: None,
            numerology: Some("1 — new beginnings and potential"),
            yes_or_no: YesOrNo::Yes,
        },
        43 => Card {
            name: "Two of Pentacles",
            arcana: ArcanaType::Minor,
            suit: Some(Suit::Pentacles),
            number: 2,
            keywords: &["multiple priorities", "time management", "prioritisation", "adaptability"],
            upright: "You juggle priorities with flexibility and good humour.",
            reversed: "Overcommitment and disorganisation throw you off balance.",
            description: "A figure juggles two pentacles within an infinity loop.",
            element: Some(Element::Earth),
            astrology: Some("Jupiter in Capricorn"),
            numerology: Some("2 — balance and partnership"),
            yes_or_no: YesOrNo::Maybe,
        },
        44 => Card {
            name: "Three of Pentacles",
            arcana: ArcanaType::Minor,
            suit: Some(Suit::Pentacles),
            number: 3,
            keywords: &["teamwork", "collaboration", "learning", "implementation"],
            upright: "Skilled collaboration builds something lasting.",
            reversed: "Disharmony, misalignment, or working alone.",
            description: "A craftsman works on a cathedral while two others review plans.",
            element: Some(Element::Earth),
            astrology: Some("Mars in Capricorn"),
            numerology: Some("3 — growth and expression"),
            yes_or_no: YesOrNo::Yes,
        },
        45 => Card {
            name: "Four of Pentacles",
            arcana: ArcanaType::Minor,
            suit: Some(Suit::Pentacles),
            number: 4,
            keywords: &["saving money", "security", "conservatism", "scarcity"],
            upright: "Holding tightly to security can become control.",
            reversed: "Over-spending, greed, or letting go of possessions.",
            description: "A figure clutches one pentacle with others beneath feet and crown.",
            element: Some(Element::Earth),
            astrology: Some("Sun in Capricorn"),
            numerology: Some("4 — stability and foundation"),
            yes_or_no: YesOrNo::Maybe,
        },
        46 => Card {
            name: "Five of Pentacles",
            arcana: ArcanaType::Minor,
            suit: Some(Suit::Pentacles),
            number: 5,
            keywords: &["financial loss", "poverty", "lack mindset", "isolation"],
            upright: "Hardship and isolation make it hard to see help nearby.",
            reversed: "Recovery from loss and spiritual renewal.",
            description: "Two figures trudge through snow past a lit church window.",
            element: Some(Element::Earth),
            astrology: Some("Mercury in Taurus"),
            numerology: Some("5 — conflict and change"),
            yes_or_no: YesOrNo::No,
        },
        47 => Card {
            name: "Six of Pentacles",
            arcana: ArcanaType::Minor,
            suit: Some(Suit::Pentacles),
            number: 6,
            keywords: &["giving", "receiving", "sharing wealth", "generosity"],
            upright: "Generosity flows as resources are shared fairly.",
            reversed: "Strings attached, debt, or one-sided charity.",
            description: "A merchant weighs coins on scales while giving to those in need.",
            element: Some(Element::Earth),
            astrology: Some("Moon in Taurus"),
            numerology: Some("6 — harmony and reciprocity"),
            yes_or_no: YesOrNo::Yes,
        },
        48 => Card {
            name: "Seven of Pentacles",
            arcana: ArcanaType::Minor,
            suit: Some(Suit::Pentacles),
            number: 7,
            keywords: &["long-term view", "sustainable results", "perseverance", "investment"],
            upright: "Patience and steady investment will yield a harvest.",
            reversed: "Impatience or effort without reward.",
            description: "A farmer leans on a hoe, surveying pentacles growing on a vine.",
            element: Some(Element::Earth),
            astrology: Some("Saturn in Taurus"),
            numerology: Some("7 — reflection and assessment"),
            yes_or_no: YesOrNo::Maybe,
        },
        49 => Card {
            name: "Eight of Pentacles",
            arcana: ArcanaType::Minor,
            suit: Some(Suit::Pentacles),
            number: 8,
            keywords: &["apprenticeship", "repetitive tasks", "mastery", "skill development"],
            upright: "Diligent practice develops true mastery.",
            reversed: "Perfectionism or misdirected, careless effort.",
            description: "An artisan carves pentacles, displaying finished work.",
            element: Some(Element::Earth),
            astrology: Some("Sun in Virgo"),
            numerology: Some("8 — movement and mastery"),
            yes_or_no: YesOrNo::Yes,
        },
        50 => Card {
            name: "Nine of Pentacles",
            arcana: ArcanaType::Minor,
            suit: Some(Suit::Pentacles),
            number: 9,
            keywords: &["abundance", "luxury", "self-sufficiency", "financial independence"],
            upright: "Self-reliance brings comfort and refined rewards.",
            reversed: "Self-worth issues or overworking for material gain.",
            description: "An elegant figure stands in a vineyard with a falcon on her hand.",
            element: Some(Element::Earth),
            astrology: Some("Venus in Virgo"),
            numerology: Some("9 — fruition and attainment"),
            yes_or_no: YesOrNo::Yes,
        },
        51 => Card {
            name: "Ten of Pentacles",
            arcana: ArcanaType::Minor,
            suit: Some(Suit::Pentacles),
            number: 10,
            keywords: &["wealth", "financial security", "family", "long-term success"],
            upright: "Lasting wealth and family legacy bring security.",
            reversed: "Financial failure or family disputes over inheritance.",
            description: "Three generations gather beneath an archway adorned with pentacles.",
            element: Some(Element::Earth),
            astrology: Some("Mercury in Virgo"),
            numerology: Some("10 — completion and renewal"),
            yes_or_no: YesOrNo::Yes,
        },
        52 => Card {
            name: "Page of Pentacles",
            arcana: ArcanaType::Minor,
            suit: Some(Suit::Pentacles),
            number: 11,
            keywords: &["manifestation", "financial opportunity", "skill development", "diligence"],
            upright: "A studious new beginning promises tangible results.",
            reversed: "Lack of progress, procrastination, or learning from failure.",
            description: "A young figure studies a pentacle held carefully aloft.",
            element: Some(Element::Earth),
            astrology: None,
            numerology: None,
            yes_or_no: YesOrNo::Yes,
        },
        53 => Card {
            name: "Knight of Pentacles",
            arcana: ArcanaType::Minor,
            suit: Some(Suit::Pentacles),
            number: 12,
            keywords: &["hard work", "productivity", "routine", "conservatism"],
            upright: "Steady, methodical effort moves you reliably forward.",
            reversed: "Boredom, stagnation, or laziness.",
            description: "A knight sits still on a heavy horse, contemplating a pentacle.",
            element: Some(Element::Earth),
            astrology: None,
            numerology: None,
            yes_or_no: YesOrNo::Maybe,
        },
        54 => Card {
            name: "Queen of Pentacles",
            arcana: ArcanaType::Minor,
            suit: Some(Suit::Pentacles),
            number: 13,
            keywords: &["nurturing", "practicality", "providing", "resourcefulness"],
            upright: "Practical care and resourcefulness nurture those around you.",
            reversed: "Financial dependence or smothering care.",
            description: "A queen sits in a lush garden cradling a pentacle.",
            element: Some(Element::Earth),
            astrology: None,
            numerology: None,
            yes_or_no: YesOrNo::Yes,
        },
        _ => Card {
            name: "King of Pentacles",
            arcana: ArcanaType::Minor,
            suit: Some(Suit::Pentacles),
            number: 14,
            keywords: &["wealth", "business", "leadership", "security"],
            upright: "Disciplined leadership creates abundance and security.",
            reversed: "Greed, indulgence, or obsession with wealth.",
            description: "A king sits on a throne decorated with bulls, surrounded by vines.",
            element: Some(Element::Earth),
            astrology: None,
            numerology: None,
            yes_or_no: YesOrNo::Yes,
        },
    }
}

/// The Minor Arcana card at position `i`.
pub fn minor_card(i: u8) -> (c: Card)
    requires
        i < 56,
    ensures
        c.name == minor_name(i),
        c.arcana == ArcanaType::Minor,
        c.suit == Some(minor_suit(i as int)),
        c.number == minor_number(i as int),
        c == minor_card_of(i),
{
    match i {
        0 => Card {
            name: "Ace of Wands",
            arcana: ArcanaType::Minor,
            suit: Some(Suit::Wands),
            number: 1,
            keywords: &["inspiration", "new opportunities", "growth", "potential"],
            upright: "A spark of inspiration arrives; seize a new creative venture with enthusiasm.",
            reversed: "Delays, lack of motivation, or a creative block hold the fire back.",
            description: "A hand emerges from a cloud holding a sprouting wand, offering the seed of new energy.",
            element: Some(Element::Fire),
            astrology: None,
            numerology: Some("1 — new beginnings and potential"),
            yes_or_no: YesOrNo::Yes,
        },
        1 => Card {
            name: "Two of Wands",
            arcana: ArcanaType::Minor,
            suit: Some(Suit::Wands),
            number: 2,
            keywords: &["future planning", "progress", "decisions", "discovery"],
            upright: "You are planning the next step and weighing where your ambitions should take you.",
            reversed: "Fear of the unknown or poor planning keeps you from moving forward.",
            description: "A figure holds a globe and looks out from a castle wall, considering distant horizons.",
            element: Some(Element::Fire),
            astrology: Some("Mars in Aries"),
            numerology: Some("2 — balance and partnership"),
            yes_or_no: YesOrNo::Maybe,
        },
        2 => Card {
            name: "Three of Wands",
            arcana: ArcanaType::Minor,
            suit: Some(Suit::Wands),
            number: 3,
            keywords: &["expansion", "foresight", "overseas opportunities", "progress"],
            upright: "Your efforts are paying off and the horizon is opening up for growth.",
            reversed: "Obstacles and delays frustrate plans that seemed ready to expand.",
            description: "A figure watches ships sail out across the sea, waiting for ventures to return.",
            element: Some(Element::Fire),
            astrology: Some("Sun in Aries"),
            numerology: Some("3 — growth and expression"),
            yes_or_no: YesOrNo::Yes,
        },
        3 => Card {
            name: "Four of Wands",
            arcana: ArcanaType::Minor,
            suit: Some(Suit::Wands),
            number: 4,
            keywords: &["celebration", "harmony", "homecoming", "community"],
            upright: "A joyful milestone calls for celebration with the people who matter.",
            reversed: "Tension at home or a lack of support dampens a celebration.",
            description: "Four wands crowned with garlands frame a festive gathering before a castle.",
            element: Some(Element::Fire),
            astrology: Some("Venus in Aries"),
            numerology: Some("4 — stability and foundation"),
            yes_or_no: YesOrNo::Yes,
        },
        4 => Card {
            name: "Five of Wands",
            arcana: ArcanaType::Minor,
            suit: Some(Suit::Wands),
            number: 5,
            keywords: &["conflict", "competition", "tension", "disagreements"],
            upright: "Clashing egos and competition demand that you find a constructive way through.",
            reversed: "Conflict is avoided or resolved, bringing relief after struggle.",
            description: "Five figures brandish wands in a chaotic contest of wills.",
            element: Some(Element::Fire),
            astrology: Some("Saturn in Leo"),
            numerology: Some("5 — conflict and change"),
            yes_or_no: YesOrNo::No,
        },
        5 => Card {
            name: "Six of Wands",
            arcana: ArcanaType::Minor,
            suit: Some(Suit::Wands),
            number: 6,
            keywords: &["victory", "public recognition", "success", "self-confidence"],
            upright: "Success and recognition arrive as your achievements are celebrated.",
            reversed: "Self-doubt, a fall from grace, or a lack of recognition.",
            description: "A rider crowned with laurels parades through a cheering crowd.",
            element: Some(Element::Fire),
            astrology: Some("Jupiter in Leo"),
            numerology: Some("6 — harmony and reciprocity"),
            yes_or_no: YesOrNo::Yes,
        },
        6 => Card {
            name: "Seven of Wands",
            arcana: ArcanaType::Minor,
            suit: Some(Suit::Wands),
            number: 7,
            keywords: &["challenge", "perseverance", "defense", "standing your ground"],
            upright: "Hold your position with courage as others challenge what you have built.",
            reversed: "You feel overwhelmed and tempted to give up the fight.",
            description: "A figure on high ground fends off six wands rising from below.",
            element: Some(Element::Fire),
            astrology: Some("Mars in Leo"),
            numerology: Some("7 — reflection and assessment"),
            yes_or_no: YesOrNo::Maybe,
        },
        7 => Card {
            name: "Eight of Wands",
            arcana: ArcanaType::Minor,
            suit: Some(Suit::Wands),
            number: 8,
            keywords: &["speed", "movement", "swift action", "news"],
            upright: "Events move quickly; messages and momentum carry you forward.",
            reversed: "Delays, frustration, and scattered energy slow everything down.",
            description: "Eight wands fly through open sky, nearing their destination.",
            element: Some(Element::Fire),
            astrology: Some("Mercury in Sagittarius"),
            numerology: Some("8 — movement and mastery"),
            yes_or_no: YesOrNo::Yes,
        },
        8 => Card {
            name: "Nine of Wands",
            arcana: ArcanaType::Minor,
            suit: Some(Suit::Wands),
            number: 9,
            keywords: &["resilience", "persistence", "boundaries", "last stand"],
            upright: "Though weary, you are close to the finish; keep your guard and persist.",
            reversed: "Exhaustion and paranoia make you want to give up.",
            description: "A bandaged figure leans on a wand, watchful before a row of others.",
            element: Some(Element::Fire),
            astrology: Some("Moon in Sagittarius"),
            numerology: Some("9 — fruition and attainment"),
            yes_or_no: YesOrNo::Maybe,
        },
        9 => Card {
            name: "Ten of Wands",
            arcana: ArcanaType::Minor,
            suit: Some(Suit::Wands),
            number: 10,
            keywords: &["burden", "responsibility", "hard work", "overload"],
            upright: "You are carrying too much; success has become a heavy load.",
            reversed: "Learning to delegate and release burdens that are not yours.",
            description: "A figure struggles toward a town beneath a bundle of ten wands.",
            element: Some(Element::Fire),
            astrology: Some("Saturn in Sagittarius"),
            numerology: Some("10 — completion and renewal"),
            yes_or_no: YesOrNo::No,
        },
        10 => Card {
            name: "Page of Wands",
            arcana: ArcanaType::Minor,
            suit: Some(Suit::Wands),
            number: 11,
            keywords: &["enthusiasm", "exploration", "discovery", "free spirit"],
            upright: "Curious energy and new ideas invite you to explore without fear.",
            reversed: "Hasty starts, lack of direction, or creative frustration.",
            description: "A young figure gazes at a sprouting wand in a desert landscape.",
            element: Some(Element::Fire),
            astrology: None,
            numerology: None,
            yes_or_no: YesOrNo::Yes,
        },
        11 => Card {
            name: "Knight of Wands",
            arcana: ArcanaType::Minor,
            suit: Some(Suit::Wands),
            number: 12,
            keywords: &["energy", "passion", "adventure", "impulsiveness"],
            upright: "Bold action and adventure propel you toward your goals.",
            reversed: "Recklessness, haste, and scattered energy cause trouble.",
            description: "A knight charges forward on a rearing horse, wand held high.",
            element: Some(Element::Fire),
            astrology: None,
            numerology: None,
            yes_or_no: YesOrNo::Yes,
        },
        12 => Card {
            name: "Queen of Wands",
            arcana: ArcanaType::Minor,
            suit: Some(Suit::Wands),
            number: 13,
            keywords: &["courage", "confidence", "determination", "warmth"],
            upright: "Radiant confidence and warmth help you lead and inspire.",
            reversed: "Insecurity, jealousy, or demanding behaviour dims your light.",
            description: "A queen sits on a lion throne holding a sunflower and a wand.",
            element: Some(Element::Fire),
            astrology: None,
            numerology: None,
            yes_or_no: YesOrNo::Yes,
        },
        13 => Card {
            name: "King of Wands",
            arcana: ArcanaType::Minor,
            suit: Some(Suit::Wands),
            number: 14,
            keywords: &["leadership", "vision", "entrepreneur", "honour"],
            upright: "Visionary leadership turns big ideas into reality.",
            reversed: "Impulsiveness, arrogance, or high expectations undermine your lead.",
            description: "A king on a throne adorned with lions and salamanders holds a blossoming wand.",
            element: Some(Element::Fire),
            astrology: None,
            numerology: None,
            yes_or_no: YesOrNo::Yes,
        },
        14 => Card {
            name: "Ace of Cups",
            arcana: ArcanaType::Minor,
            suit: Some(Suit::Cups),
            number: 1,
            keywords: &["love", "new relationships", "compassion", "creativity"],
            upright: "Emotional renewal and new love overflow into your life.",
            reversed: "Emotional loss, blocked creativity, or emptiness.",
            description: "A hand offers a cup overflowing with five streams of water.",
            element: Some(Element::Water),
            astrology: None,
            numerology: Some("1 — new beginnings and potential"),
            yes_or_no: YesOrNo::Yes,
        },
        15 => Card {
            name: "Two of Cups",
            arcana: ArcanaType::Minor,
            suit: Some(Suit::Cups),
            number: 2,
            keywords: &["unified love", "partnership", "mutual attraction", "connection"],
            upright: "A balanced partnership forms through mutual respect and affection.",
            reversed: "Imbalance, broken communication, or tension in a relationship.",
            description: "Two figures exchange cups beneath a winged lion's head.",
            element: Some(Element::Water),
            astrology: Some("Venus in Cancer"),
            numerology: Some("2 — balance and partnership"),
            yes_or_no: YesOrNo::Yes,
        },
        16 => Card {
            name: "Three of Cups",
            arcana: ArcanaType::Minor,
            suit: Some(Suit::Cups),
            number: 3,
            keywords: &["celebration", "friendship", "creativity", "collaboration"],
            upright: "Friendship and community bring joy worth celebrating together.",
            reversed: "Overindulgence, gossip, or isolation from friends.",
            description: "Three women raise their cups in a joyful dance.",
            element: Some(Element::Water),
            astrology: Some("Mercury in Cancer"),
            numerology: Some("3 — growth and expression"),
            yes_or_no: YesOrNo::Yes,
        },
        17 => Card {
            name: "Four of Cups",
            arcana: ArcanaType::Minor,
            suit: Some(Suit::Cups),
            number: 4,
            keywords: &["meditation", "contemplation", "apathy", "reevaluation"],
            upright: "Withdrawal and contemplation can blind you to what is being offered.",
            reversed: "Retreat ends as you become open to new possibilities.",
            description: "A figure sits under a tree, ignoring a cup offered from a cloud.",
            element: Some(Element::Water),
            astrology: Some("Moon in Cancer"),
            numerology: Some("4 — stability and foundation"),
            yes_or_no: YesOrNo::Maybe,
        },
        18 => Card {
            name: "Five of Cups",
            arcana: ArcanaType::Minor,
            suit: Some(Suit::Cups),
            number: 5,
            keywords: &["regret", "failure", "disappointment", "pessimism"],
            upright: "Grief over what was lost overshadows what still remains.",
            reversed: "Acceptance, moving on, and finding peace after loss.",
            description: "A cloaked figure mourns three spilled cups while two stand behind.",
            element: Some(Element::Water),
            astrology: Some("Mars in Scorpio"),
            numerology: Some("5 — conflict and change"),
            yes_or_no: YesOrNo::No,
        },
        19 => Card {
            name: "Six of Cups",
            arcana: ArcanaType::Minor,
            suit: Some(Suit::Cups),
            number: 6,
            keywords: &["revisiting the past", "childhood memories", "innocence", "joy"],
            upright: "Nostalgia and simple kindness reconnect you with joy.",
            reversed: "Living in the past keeps you from moving forward.",
            description: "Children share cups filled with flowers in a peaceful courtyard.",
            element: Some(Element::Water),
            astrology: Some("Sun in Scorpio"),
            numerology: Some("6 — harmony and reciprocity"),
            yes_or_no: YesOrNo::Yes,
        },
        20 => Card {
            name: "Seven of Cups",
            arcana: ArcanaType::Minor,
            suit: Some(Suit::Cups),
            number: 7,
            keywords: &["opportunities", "choices", "wishful thinking", "illusion"],
            upright: "Many options appear, but not all of them are real.",
            reversed: "Clarity returns and you commit to a path.",
            description: "A figure faces seven cups floating in the clouds, each holding a vision.",
            element: Some(Element::Water),
            astrology: Some("Venus in Scorpio"),
            numerology: Some("7 — reflection and assessment"),
            yes_or_no: YesOrNo::Maybe,
        },
        21 => Card {
            name: "Eight of Cups",
            arcana: ArcanaType::Minor,
            suit: Some(Suit::Cups),
            number: 8,
            keywords: &["disappointment", "abandonment", "withdrawal", "escapism"],
            upright: "You walk away from what no longer fulfils you to seek deeper meaning.",
            reversed: "Fear of change keeps you in an unfulfilling situation.",
            description: "A figure leaves eight stacked cups behind, walking toward distant mountains.",
            element: Some(Element::Water),
            astrology: Some("Saturn in Pisces"),
            numerology: Some("8 — movement and mastery"),
            yes_or_no: YesOrNo::No,
        },
        22 => Card {
            name: "Nine of Cups",
            arcana: ArcanaType::Minor,
            suit: Some(Suit::Cups),
            number: 9,
            keywords: &["contentment", "satisfaction", "gratitude", "wish come true"],
            upright: "Wishes are fulfilled and you enjoy well-earned satisfaction.",
            reversed: "Inner happiness is missing despite outward success.",
            description: "A contented figure sits before a row of nine cups.",
            element: Some(Element::Water),
            astrology: Some("Jupiter in Pisces"),
            numerology: Some("9 — fruition and attainment"),
            yes_or_no: YesOrNo::Yes,
        },
        23 => Card {
            name: "Ten of Cups",
            arcana: ArcanaType::Minor,
            suit: Some(Suit::Cups),
            number: 10,
            keywords: &["divine love", "blissful relationships", "harmony", "alignment"],
            upright: "Harmony and lasting happiness fill your home and relationships.",
            reversed: "Disconnection or broken family bonds disturb the peace.",
            description: "A family rejoices beneath a rainbow of ten cups.",
            element: Some(Element::Water),
            astrology: Some("Mars in Pisces"),
            numerology: Some("10 — completion and renewal"),
            yes_or_no: YesOrNo::Yes,
        },
        24 => Card {
            name: "Page of Cups",
            arcana: ArcanaType::Minor,
            suit: Some(Suit::Cups),
            number: 11,
            keywords: &["creative opportunities", "intuitive messages", "curiosity", "possibility"],
            upright: "A gentle message or creative spark invites emotional openness.",
            reversed: "Emotional immaturity or creative blocks.",
            description: "A young figure gazes at a fish peeking out of a cup.",
            element: Some(Element::Water),
            astrology: None,
            numerology: None,
            yes_or_no: YesOrNo::Yes,
        },
        25 => Card {
            name: "Knight of Cups",
            arcana: ArcanaType::Minor,
            suit: Some(Suit::Cups),
            number: 12,
            keywords: &["creativity", "romance", "charm", "imagination"],
            upright: "A romantic offer or creative invitation follows your heart.",
            reversed: "Moodiness, unrealistic expectations, or jealousy.",
            description: "A knight rides slowly forward, offering a cup.",
            element: Some(Element::Water),
            astrology: None,
            numerology: None,
            yes_or_no: YesOrNo::Yes,
        },
        26 => Card {
            name: "Queen of Cups",
            arcana: ArcanaType::Minor,
            suit: Some(Suit::Cups),
            number: 13,
            keywords: &["compassion", "caring", "emotional stability", "intuition"],
            upright: "Compassion and intuition guide you to care for yourself and others.",
            reversed: "Emotional insecurity or co-dependence clouds your judgement.",
            description: "A queen sits by the sea, gazing at an ornate closed cup.",
            element: Some(Element::Water),
            astrology: None,
            numerology: None,
            yes_or_no: YesOrNo::Yes,
        },
        27 => Card {
            name: "King of Cups",
            arcana: ArcanaType::Minor,
            suit: Some(Suit::Cups),
            number: 14,
            keywords: &["emotional balance", "compassion", "diplomacy", "calm"],
            upright: "Emotional mastery lets you lead with calm and kindness.",
            reversed: "Emotional manipulation, moodiness, or volatility.",
            description: "A king sits on a throne floating on a restless sea.",
            element: Some(Element::Water),
            astrology: None,
            numerology: None,
            yes_or_no: YesOrNo::Yes,
        },
        28 => Card {
            name: "Ace of Swords",
            arcana: ArcanaType::Minor,
            suit: Some(Suit::Swords),
            number: 1,
            keywords: &["breakthroughs", "new ideas", "mental clarity", "success"],
            upright: "A breakthrough brings clarity and the power of truth.",
            reversed: "Confusion, miscommunication, or clouded judgement.",
            description: "A hand grasps an upright sword crowned with a wreath.",
            element: Some(Element::Air),
            astrology: None,
            numerology: Some("1 — new beginnings and potential"),
            yes_or_no: YesOrNo::Yes,
        },
        29 => Card {
            name: "Two of Swords",
            arcana: ArcanaType::Minor,
            suit: Some(Suit::Swords),
            number: 2,
            keywords: &["difficult decisions", "weighing up options", "an impasse", "avoidance"],
            upright: "You face a stalemate and must choose despite uncertainty.",
            reversed: "Indecision gives way to overload and information overwhelm.",
            description: "A blindfolded figure holds two crossed swords before the sea.",
            element: Some(Element::Air),
            astrology: Some("Moon in Libra"),
            numerology: Some("2 — balance and partnership"),
            yes_or_no: YesOrNo::Maybe,
        },
        30 => Card {
            name: "Three of Swords",
            arcana: ArcanaType::Minor,
            suit: Some(Suit::Swords),
            number: 3,
            keywords: &["heartbreak", "emotional pain", "sorrow", "grief"],
            upright: "Painful truths and sorrow must be felt before healing begins.",
            reversed: "Recovery, forgiveness, and release of pain.",
            description: "Three swords pierce a heart beneath a stormy sky.",
            element: Some(Element::Air),
            astrology: Some("Saturn in Libra"),
            numerology: Some("3 — growth and expression"),
            yes_or_no: YesOrNo::No,
        },
        31 => Card {
            name: "Four of Swords",
            arcana: ArcanaType::Minor,
            suit: Some(Suit::Swords),
            number: 4,
            keywords: &["rest", "relaxation", "meditation", "recuperation"],
            upright: "Rest and retreat restore your strength for what lies ahead.",
            reversed: "Restlessness, burnout, or stagnation.",
            description: "A knight lies in repose on a tomb beneath a stained-glass window.",
            element: Some(Element::Air),
            astrology: Some("Jupiter in Libra"),
            numerology: Some("4 — stability and foundation"),
            yes_or_no: YesOrNo::Maybe,
        },
        32 => Card {
            name: "Five of Swords",
            arcana: ArcanaType::Minor,
            suit: Some(Suit::Swords),
            number: 5,
            keywords: &["conflict", "disagreements", "competition", "defeat"],
            upright: "Winning at any cost leaves everyone feeling diminished.",
            reversed: "Reconciliation and making amends after conflict.",
            description: "A smirking figure collects swords as defeated rivals walk away.",
            element: Some(Element::Air),
            astrology: Some("Venus in Aquarius"),
            numerology: Some("5 — conflict and change"),
            yes_or_no: YesOrNo::No,
        },
        33 => Card {
            name: "Six of Swords",
            arcana: ArcanaType::Minor,
            suit: Some(Suit::Swords),
            number: 6,
            keywords: &["transition", "change", "rite of passage", "releasing baggage"],
            upright: "You move away from turmoil toward calmer waters.",
            reversed: "Resistance to change or unfinished business.",
            description: "A ferryman carries passengers across water toward a distant shore.",
            element: Some(Element::Air),
            astrology: Some("Mercury in Aquarius"),
            numerology: Some("6 — harmony and reciprocity"),
            yes_or_no: YesOrNo::Maybe,
        },
        34 => Card {
            name: "Seven of Swords",
            arcana: ArcanaType::Minor,
            suit: Some(Suit::Swords),
            number: 7,
            keywords: &["betrayal", "deception", "getting away with something", "strategy"],
            upright: "Strategy or deception is at play; watch for hidden motives.",
            reversed: "Coming clean, confession, or rethinking your approach.",
            description: "A figure sneaks away from a camp carrying five swords.",
            element: Some(Element::Air),
            astrology: Some("Moon in Aquarius"),
            numerology: Some("7 — reflection and assessment"),
            yes_or_no: YesOrNo::No,
        },
        35 => Card {
            name: "Eight of Swords",
            arcana: ArcanaType::Minor,
            suit: Some(Suit::Swords),
            number: 8,
            keywords: &["negative thoughts", "self-imposed restriction", "imprisonment", "victim mentality"],
            upright: "You feel trapped, yet the bonds are looser than they seem.",
            reversed: "Self-acceptance and new perspective set you free.",
            description: "A bound and blindfolded figure stands among eight swords.",
            element: Some(Element::Air),
            astrology: Some("Jupiter in Gemini"),
            numerology: Some("8 — movement and mastery"),
            yes_or_no: YesOrNo::No,
        },
        36 => Card {
            name: "Nine of Swords",
            arcana: ArcanaType::Minor,
            suit: Some(Suit::Swords),
            number: 9,
            keywords: &["anxiety", "worry", "fear", "depression"],
            upright: "Worry and sleepless fear magnify troubles in the night.",
            reversed: "Hope returns as you reach out and release anxiety.",
            description: "A figure sits up in bed, head in hands, beneath nine swords.",
            element: Some(Element::Air),
            astrology: Some("Mars in Gemini"),
            numerology: Some("9 — fruition and attainment"),
            yes_or_no: YesOrNo::No,
        },
        37 => Card {
            name: "Ten of Swords",
            arcana: ArcanaType::Minor,
            suit: Some(Suit::Swords),
            number: 10,
            keywords: &["painful endings", "deep wounds", "betrayal", "loss"],
            upright: "A painful ending has arrived, and the only way now is up.",
            reversed: "Recovery and regeneration after hitting rock bottom.",
            description: "A figure lies face down, pierced by ten swords, as dawn breaks.",
            element: Some(Element::Air),
            astrology: Some("Sun in Gemini"),
            numerology: Some("10 — completion and renewal"),
            yes_or_no: YesOrNo::No,
        },
        38 => Card {
            name: "Page of Swords",
            arcana: ArcanaType::Minor,
            suit: Some(Suit::Swords),
            number: 11,
            keywords: &["new ideas", "curiosity", "thirst for knowledge", "communication"],
            upright: "Curiosity and fresh ideas drive you to learn and speak up.",
            reversed: "Hasty words, gossip, or all talk and no action.",
            description: "A young figure holds a sword aloft against a windswept sky.",
            element: Some(Element::Air),
            astrology: None,
            numerology: None,
            yes_or_no: YesOrNo::Maybe,
        },
        39 => Card {
            name: "Knight of Swords",
            arcana: ArcanaType::Minor,
            suit: Some(Suit::Swords),
            number: 12,
            keywords: &["ambition", "action", "drive", "fast thinking"],
            upright: "Driven ambition charges ahead to achieve your goals.",
            reversed: "Restlessness, impulsiveness, and burnout.",
            description: "A knight charges into battle with sword raised against the wind.",
            element: Some(Element::Air),
            astrology: None,
            numerology: None,
            yes_or_no: YesOrNo::Yes,
        },
        40 => Card {
            name: "Queen of Swords",
            arcana: ArcanaType::Minor,
            suit: Some(Suit::Swords),
            number: 13,
            keywords: &["independence", "unbiased judgement", "clear boundaries", "direct communication"],
            upright: "Clear thinking and honest words cut through confusion.",
            reversed: "Coldness, bitterness, or cruel words.",
            description: "A queen sits on a high throne, sword upright, hand extended.",
            element: Some(Element::Air),
            astrology: None,
            numerology: None,
            yes_or_no: YesOrNo::Maybe,
        },
        41 => Card {
            name: "King of Swords",
            arcana: ArcanaType::Minor,
            suit: Some(Suit::Swords),
            number: 14,
            keywords: &["mental clarity", "intellectual power", "authority", "truth"],
            upright: "Reason and ethical authority guide sound decisions.",
            reversed: "Manipulation, tyranny, or abuse of power.",
            description: "A king sits on a throne holding a sword of judgement.",
            element: Some(Element::Air),
            astrology: None,
            numerology: None,
            yes_or_no: YesOrNo::Maybe,
        },
        42 => Card {
            name: "Ace of Pentacles",
            arcana: ArcanaType::Minor,
            suit: Some(Suit::Pentacles),
            number: 1,
            keywords: &["opportunity", "manifestation", "abundance", "prosperity"],
            upright: "A new opportunity for prosperity and stability takes root.",
            reversed: "Lost opportunity, poor planning, or lack of foresight.",
            description: "A hand offers a golden pentacle above a flowering garden.",
            element: Some(Element::Earth),
            astrology: None,
            numerology: Some("1 — new beginnings and potential"),
            yes_or_no: YesOrNo::Yes,
        },
        43 => Card {
            name: "Two of Pentacles",
            arcana: ArcanaType::Minor,
            suit: Some(Suit::Pentacles),
            number: 2,
            keywords: &["multiple priorities", "time management", "prioritisation", "adaptability"],
            upright: "You juggle priorities with flexibility and good humour.",
            reversed: "Overcommitment and disorganisation throw you off balance.",
            description: "A figure juggles two pentacles within an infinity loop.",
            element: Some(Element::Earth),
            astrology: Some("Jupiter in Capricorn"),
            numerology: Some("2 — balance and partnership"),
            yes_or_no: YesOrNo::Maybe,
        },
        44 => Card {
            name: "Three of Pentacles",
            arcana: ArcanaType::Minor,
            suit: Some(Suit::Pentacles),
            number: 3,
            keywords: &["teamwork", "collaboration", "learning", "implementation"],
            upright: "Skilled collaboration builds something lasting.",
            reversed: "Disharmony, misalignment, or working alone.",
            description: "A craftsman works on a cathedral while two others review plans.",
            element: Some(Element::Earth),
            astrology: Some("Mars in Capricorn"),
            numerology: Some("3 — growth and expression"),
            yes_or_no: YesOrNo::Yes,
        },
        45 => Card {
            name: "Four of Pentacles",
            arcana: ArcanaType::Minor,
            suit: Some(Suit::Pentacles),
            number: 4,
            keywords: &["saving money", "security", "conservatism", "scarcity"],
            upright: "Holding tightly to security can become control.",
            reversed: "Over-spending, greed, or letting go of possessions.",
            description: "A figure clutches one pentacle with others beneath feet and crown.",
            element: Some(Element::Earth),
            astrology: Some("Sun in Capricorn"),
            numerology: Some("4 — stability and foundation"),
            yes_or_no: YesOrNo::Maybe,
        },
        46 => Card {
            name: "Five of Pentacles",
            arcana: ArcanaType::Minor,
            suit: Some(Suit::Pentacles),
            number: 5,
            keywords: &["financial loss", "poverty", "lack mindset", "isolation"],
            upright: "Hardship and isolation make it hard to see help nearby.",
            reversed: "Recovery from loss and spiritual renewal.",
            description: "Two figures trudge through snow past a lit church window.",
            element: Some(Element::Earth),
            astrology: Some("Mercury in Taurus"),
            numerology: Some("5 — conflict and change"),
            yes_or_no: YesOrNo::No,
        },
        47 => Card {
            name: "Six of Pentacles",
            arcana: ArcanaType::Minor,
            suit: Some(Suit::Pentacles),
            number: 6,
            keywords: &["giving", "receiving", "sharing wealth", "generosity"],
            upright: "Generosity flows as resources are shared fairly.",
            reversed: "Strings attached, debt, or one-sided charity.",
            description: "A merchant weighs coins on scales while giving to those in need.",
            element: Some(Element::Earth),
            astrology: Some("Moon in Taurus"),
            numerology: Some("6 — harmony and reciprocity"),
            yes_or_no: YesOrNo::Yes,
        },
        48 => Card {
            name: "Seven of Pentacles",
            arcana: ArcanaType::Minor,
            suit: Some(Suit::Pentacles),
            number: 7,
            keywords: &["long-term view", "sustainable results", "perseverance", "investment"],
            upright: "Patience and steady investment will yield a harvest.",
            reversed: "Impatience or effort without reward.",
            description: "A farmer leans on a hoe, surveying pentacles growing on a vine.",
            element: Some(Element::Earth),
            astrology: Some("Saturn in Taurus"),
            numerology: Some("7 — reflection and assessment"),
            yes_or_no: YesOrNo::Maybe,
        },
        49 => Card {
            name: "Eight of Pentacles",
            arcana: ArcanaType::Minor,
            suit: Some(Suit::Pentacles),
            number: 8,
            keywords: &["apprenticeship", "repetitive tasks", "mastery", "skill development"],
            upright: "Diligent practice develops true mastery.",
            reversed: "Perfectionism or misdirected, careless effort.",
            description: "An artisan carves pentacles, displaying finished work.",
            element: Some(Element::Earth),
            astrology: Some("Sun in Virgo"),
            numerology: Some("8 — movement and mastery"),
            yes_or_no: YesOrNo::Yes,
        },
        50 => Card {
            name: "Nine of Pentacles",
            arcana: ArcanaType::Minor,
            suit: Some(Suit::Pentacles),
            number: 9,
            keywords: &["abundance", "luxury", "self-sufficiency", "financial independence"],
            upright: "Self-reliance brings comfort and refined rewards.",
            reversed: "Self-worth issues or overworking for material gain.",
            description: "An elegant figure stands in a vineyard with a falcon on her hand.",
            element: Some(Element::Earth),
            astrology: Some("Venus in Virgo"),
            numerology: Some("9 — fruition and attainment"),
            yes_or_no: YesOrNo::Yes,
        },
        51 => Card {
            name: "Ten of Pentacles",
            arcana: ArcanaType::Minor,
            suit: Some(Suit::Pentacles),
            number: 10,
            keywords: &["wealth", "financial security", "family", "long-term success"],
            upright: "Lasting wealth and family legacy bring security.",
            reversed: "Financial failure or family disputes over inheritance.",
            description: "Three generations gather beneath an archway adorned with pentacles.",
            element: Some(Element::Earth),
            astrology: Some("Mercury in Virgo"),
            numerology: Some("10 — completion and renewal"),
            yes_or_no: YesOrNo::Yes,
        },
        52 => Card {
            name: "Page of Pentacles",
            arcana: ArcanaType::Minor,
            suit: Some(Suit::Pentacles),
            number: 11,
            keywords: &["manifestation", "financial opportunity", "skill development", "diligence"],
            upright: "A studious new beginning promises tangible results.",
            reversed: "Lack of progress, procrastination, or learning from failure.",
            description: "A young figure studies a pentacle held carefully aloft.",
            element: Some(Element::Earth),
            astrology: None,
            numerology: None,
            yes_or_no: YesOrNo::Yes,
        },
        53 => Card {
            name: "Knight of Pentacles",
            arcana: ArcanaType::Minor,
            suit: Some(Suit::Pentacles),
            number: 12,
            keywords: &["hard work", "productivity", "routine", "conservatism"],
            upright: "Steady, methodical effort moves you reliably forward.",
            reversed: "Boredom, stagnation, or laziness.",
            description: "A knight sits still on a heavy horse, contemplating a pentacle.",
            element: Some(Element::Earth),
            astrology: None,
            numerology: None,
            yes_or_no: YesOrNo::Maybe,
        },
        54 => Card {
            name: "Queen of Pentacles",
            arcana: ArcanaType::Minor,
            suit: Some(Suit::Pentacles),
            number: 13,
            keywords: &["nurturing", "practicality", "providing", "resourcefulness"],
            upright: "Practical care and resourcefulness nurture those around you.",
            reversed: "Financial dependence or smothering care.",
            description: "A queen sits in a lush garden cradling a pentacle.",
            element: Some(Element::Earth),
            astrology: None,
            numerology: None,
            yes_or_no: YesOrNo::Yes,
        },
        _ => Card {
            name: "King of Pentacles",
            arcana: ArcanaType::Minor,
            suit: Some(Suit::Pentacles),
            number: 14,
            keywords: &["wealth", "business", "leadership", "security"],
            upright: "Disciplined leadership creates abundance and security.",
            reversed: "Greed, indulgence, or obsession with wealth.",
            description: "A king sits on a throne decorated with bulls, surrounded by vines.",
            element: Some(Element::Earth),
            astrology: None,
            numerology: None,
            yes_or_no: YesOrNo::Yes,
        },
    }
}

} // verus!
