use overworld::common::elements::Element;
use overworld::common::rps::RockPaperScissors;
use overworld::common::three_elements::Element as ThreeElement;
use overworld::{Affinity, ColorHint};

#[test]
fn test_weak_against() {
    assert!(RockPaperScissors::Rock.weak_against(&RockPaperScissors::Paper));
    assert!(RockPaperScissors::Paper.weak_against(&RockPaperScissors::Scissors));
    assert!(RockPaperScissors::Scissors.weak_against(&RockPaperScissors::Rock));
}

#[test]
fn rps_strength() {
    assert!(!RockPaperScissors::Rock.strong_against(&RockPaperScissors::Paper));
    assert!(!RockPaperScissors::Paper.strong_against(&RockPaperScissors::Paper));
    assert!(RockPaperScissors::Scissors.strong_against(&RockPaperScissors::Paper));
    assert!(!RockPaperScissors::Paper.weak_against(&RockPaperScissors::Paper));
}

#[test]
fn elements_matchups() {
    assert!(Element::Fire.weak_against(&Element::Water));
    assert!(Element::Water.weak_against(&Element::Ground));
    assert!(Element::Flying.weak_against(&Element::Ice));
    assert!(!Element::Fire.weak_against(&Element::Normal));
    assert!(!Element::Normal.weak_against(&Element::Fire));
    assert!(Element::Fire.strong_against(&Element::Grass));
    assert!(!Element::Fire.strong_against(&Element::Fire));
    assert!(!Element::Fire.strong_against(&Element::Water));
    assert!(!Element::Normal.strong_against(&Element::Ice));
}

#[test]
fn three_elements_matchups() {
    assert!(ThreeElement::Grass.weak_against(&ThreeElement::Fire));
    assert!(ThreeElement::Water.strong_against(&ThreeElement::Fire));
    assert!(!ThreeElement::Water.strong_against(&ThreeElement::Water));
    assert!(!ThreeElement::Water.strong_against(&ThreeElement::Grass));
}

#[test]
fn element_colors() {
    assert_eq!("Brown", Element::Ground.color());
    assert_eq!((139, 69, 19), Element::Ground.rgb());
    assert_eq!((128, 128, 128), Element::Normal.rgb());
    assert_eq!((0, 0, 0), Element::Electric.rgb());
    assert_eq!(0x00FFFF, Element::Ice.hex());
    assert_eq!("#FF0000", Element::Fire.hex_string());
    assert_eq!("#0000FF", ThreeElement::Water.hex_string());
}
