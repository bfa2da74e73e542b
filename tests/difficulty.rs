use overworld::{Dice, DifficultyClass, RollStatus};

#[test]
fn test_dc_roll_success() {
    let always_sucess = DifficultyClass::new(1);
    let dice = Dice::group(1, 20);

    let result = always_sucess.roll(dice);

    assert!(result.success);
    assert_eq!(result.dc, 1);
    assert_eq!(result.roll_status, RollStatus::Normal);
    assert_eq!(result.rolls_made.len(), 1);
}

#[test]
fn test_dc_roll_fail() {
    let always_fail = DifficultyClass::new(21);
    let dice = Dice::group(1, 20);

    let result = always_fail.roll(dice);

    assert!(!result.success);
    assert_eq!(result.dc, 21);
    assert_eq!(result.roll_status, RollStatus::Normal);
    assert_eq!(result.rolls_made.len(), 1);
}

#[test]
fn test_advantage() {
    let dc = DifficultyClass::new(10);
    let dice = Dice::group(1, 20);

    let result = dc.roll_with_advantage(dice);

    assert_eq!(result.dc, 10);
    assert_eq!(result.roll_status, RollStatus::Advantage);
    assert_eq!(result.rolls_made.len(), 2);
}

#[test]
fn test_disadvantage() {
    let dc = DifficultyClass::new(10);
    let dice = Dice::group(1, 20);

    let result = dc.roll_with_disadvantage(dice);

    assert_eq!(result.dc, 10);
    assert_eq!(result.roll_status, RollStatus::Disadvantage);
    assert_eq!(result.rolls_made.len(), 2);
}

#[test]
fn check_multiple_picks_by_status() {
    let dc = DifficultyClass::new(10);
    let high = dc.check_multiple(vec![4, 17, 9], RollStatus::Advantage);
    assert_eq!(17, high.roll);
    assert!(high.success);
    assert_eq!(vec![4, 17, 9], high.rolls_made);
    let normal = dc.check_multiple(vec![4, 10], RollStatus::Normal);
    assert_eq!(10, normal.roll);
    assert!(normal.success);
    let low = dc.check_multiple(vec![4, 17, 9], RollStatus::Disadvantage);
    assert_eq!(4, low.roll);
    assert!(!low.success);
}

#[test]
fn check_single_roll() {
    let dc = DifficultyClass::new(12);
    let r = dc.check(11, RollStatus::Normal);
    assert_eq!(11, r.roll);
    assert!(!r.success);
    assert_eq!(vec![11], r.rolls_made);
    assert!(dc.is_success(12));
    assert!(!dc.is_success(11));
}

#[test]
fn roll_many_makes_each_roll() {
    let dc = DifficultyClass::new(3);
    let r = dc.roll_many(Dice::group(2, 6), 5, RollStatus::Disadvantage);
    assert_eq!(5, r.rolls_made.len());
    assert!(r.rolls_made.iter().all(|x| (2..=12).contains(x)));
    assert_eq!(*r.rolls_made.iter().min().unwrap(), r.roll);
    assert_eq!(r.roll >= 3, r.success);
}
