use arcana::spreads::{all_spreads, celtic_cross, five_card_cross, get_by_name, single, three_card, SpreadLayout, SpreadType};

#[test]
fn test_spread_counts() {
    assert_eq!(single().card_count(), 1);
    assert_eq!(three_card().card_count(), 3);
    assert_eq!(five_card_cross().card_count(), 5);
    assert_eq!(celtic_cross().card_count(), 10);
}

#[test]
fn test_get_by_name() {
    assert_eq!(get_by_name("single").unwrap().name, "Single Card");
    assert_eq!(get_by_name("three").unwrap().name, "Three-Card Spread");
    assert_eq!(get_by_name("celtic").unwrap().name, "Celtic Cross");
    assert_eq!(get_by_name("5").unwrap().name, "Five-Card Cross");
    assert!(get_by_name("invalid").is_none());
}

#[test]
fn test_all_spreads() {
    assert_eq!(all_spreads().len(), 6);
}

#[test]
fn spread_names_ignore_case_and_accept_aliases() {
    assert_eq!(get_by_name("HOLISTIC").unwrap().name, "Mind-Body-Spirit");
    assert_eq!(get_by_name("Past-Present-Future").unwrap().name, "Three-Card Spread");
    assert_eq!(get_by_name("10").unwrap().layout, SpreadLayout::CelticCross);
}

#[test]
fn spread_types_give_their_spreads() {
    assert_eq!(SpreadType::Situation.as_spread().name, "Situation-Action-Outcome");
    assert_eq!(SpreadType::Celtic.as_spread().card_count(), 10);
    let five = SpreadType::Five.as_spread();
    assert_eq!(five.get_position(4).unwrap().index, 4);
    assert!(five.get_position(5).is_none());
}

#[test]
fn spread_positions_are_named() {
    let names: Vec<&str> = three_card().positions.iter().map(|p| p.name).collect();
    assert_eq!(names, vec!["Past", "Present", "Future"]);
    let celtic: Vec<&str> = celtic_cross().positions.iter().map(|p| p.name).collect();
    assert_eq!(celtic[0], "Present");
    assert_eq!(celtic[1], "Challenge");
    assert_eq!(celtic.len(), 10);
}
