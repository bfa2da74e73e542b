use overworld::Race;

#[test]
fn strum_integration_works() {
    assert_eq!(Race::Dragonborn.to_string(), "Dragonborn");
}

#[test]
fn strum_iterate_races() {
    assert!(Race::all().iter().count() > 0);
}

#[test]
fn race_names_and_order() {
    assert_eq!("HalfElf", Race::HalfElf.to_string());
    let all = Race::all();
    assert_eq!(9, all.len());
    assert_eq!(Race::Dragonborn, all[0]);
    assert_eq!(Race::Tiefling, all[8]);
}
