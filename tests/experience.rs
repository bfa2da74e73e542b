use overworld::{ExperienceLevelUpTable, ExperienceSystem, ExperienceTracker};

fn new_experience_level_up_table() -> ExperienceLevelUpTable {
    ExperienceLevelUpTable::named("Test".to_string(), vec![1, 10, 50, 100])
}

fn new_experience_level_up_system() -> ExperienceSystem {
    let tracker = ExperienceTracker::new();
    let levels = ExperienceLevelUpTable::named(String::from("Test"), vec![100, 250, 500]);
    ExperienceSystem::new(tracker, levels)
}

#[test]
fn test_basic_sanity() {
    let table = new_experience_level_up_table();

    assert_eq!("Test".to_string(), table.name());

    assert!(!table.is_maxed(0));
    assert!(table.is_maxed(100));
}

#[test]
fn test_index() {
    let table = new_experience_level_up_table();

    assert_eq!(1, table.to_level(0));
    assert_eq!(2, table.to_level(1));
    assert_eq!(3, table.to_level(10));
    assert_eq!(4, table.to_level(50));
    assert_eq!(5, table.to_level(100));
    assert_eq!(5, table.to_level(10_000));
}

#[test]
fn test_current_milestone() {
    let table = new_experience_level_up_table();

    assert_eq!(0, table.get_current_milestone(0));
    assert_eq!(1, table.get_current_milestone(1));
    assert_eq!(1, table.get_current_milestone(2));
}

#[test]
fn test_previous_milestone() {
    let table = new_experience_level_up_table();

    assert!(table.get_previous_milestone(0).is_none());
    assert_eq!(1, table.get_previous_milestone(10).unwrap());
    assert_eq!(10, table.get_previous_milestone(99).unwrap());
    assert_eq!(50, table.get_previous_milestone(100).unwrap());
}

#[test]
fn test_next_milestone() {
    let table = new_experience_level_up_table();

    assert!(table.get_next_milestone(100).is_none());

    assert_eq!(1, table.get_next_milestone(0).unwrap());
    assert_eq!(10, table.get_next_milestone(9).unwrap());
    assert_eq!(50, table.get_next_milestone(10).unwrap());
}

#[test]
fn table_sorts_unordered_milestones() {
    let table = ExperienceLevelUpTable::new(vec![100, 1, 50, 10]);
    assert_eq!("Default".to_string(), table.name());
    assert_eq!(1, table.to_level(0));
    assert_eq!(3, table.to_level(10));
    assert_eq!(5, table.to_level(100));
    assert_eq!(Some(50), table.get_next_milestone(10));
    assert_eq!(10, table.get_current_milestone(49));
}

#[test]
fn table_below_first_milestone() {
    let table = ExperienceLevelUpTable::new(vec![5, 20, 40]);
    for p in 0..5 {
        assert_eq!(1, table.to_level(p));
        assert_eq!(0, table.get_current_milestone(p));
        assert_eq!(None, table.get_previous_milestone(p));
        assert_eq!(Some(5), table.get_next_milestone(p));
    }
}

#[test]
fn table_at_or_past_last_milestone() {
    let table = ExperienceLevelUpTable::new(vec![5, 20, 40]);
    for p in [40u64, 41, 1000, u64::MAX] {
        assert!(table.is_maxed(p));
        assert_eq!(None, table.get_next_milestone(p));
    }
}

#[test]
fn table_previous_at_first_milestone_is_itself() {
    let table = ExperienceLevelUpTable::new(vec![5, 20, 40]);
    assert_eq!(Some(5), table.get_previous_milestone(5));
    assert_eq!(Some(5), table.get_previous_milestone(19));
    assert_eq!(Some(5), table.get_previous_milestone(20));
}

#[test]
fn table_with_equal_milestones() {
    let table = ExperienceLevelUpTable::new(vec![10, 10, 30]);
    assert_eq!(1, table.to_level(9));
    assert_eq!(3, table.to_level(10));
    assert_eq!(Some(30), table.get_next_milestone(10));
    assert_eq!(Some(10), table.get_previous_milestone(10));
}

#[test]
fn test_experience_tracker() {
    let mut experience_tracker = ExperienceTracker::new();

    assert_eq!(experience_tracker.get(), 0);

    experience_tracker.add(100);
    assert_eq!(experience_tracker.get(), 100);

    experience_tracker.remove(50);
    assert_eq!(experience_tracker.get(), 50);

    experience_tracker.set(0);
    assert_eq!(experience_tracker.get(), 0);
}

#[test]
fn test_experience_tracker_negative() {
    let mut experience_tracker = ExperienceTracker::new();

    assert_eq!(experience_tracker.get(), 0);
    experience_tracker.remove(50);
    assert_eq!(experience_tracker.get(), 0);
}

#[test]
fn test_untracked() {
    let mut experience_tracker = ExperienceTracker::untracked(0);

    experience_tracker.add(50);
    experience_tracker.remove(50);

    let (gains, losses) = experience_tracker.session_history();
    assert!(gains.is_empty());
    assert!(losses.is_empty());
}

#[test]
fn test_tracked() {
    let mut experience_tracker = ExperienceTracker::with_history(0, vec![], vec![]);

    experience_tracker.add(50);
    experience_tracker.remove(50);

    let (gains, losses) = experience_tracker.session_history();
    assert!(!gains.is_empty());
    assert!(!losses.is_empty());
}

#[test]
fn tracker_set_overrides_any_state() {
    let mut t = ExperienceTracker::from(70);
    t.add(5);
    t.set(12);
    assert_eq!(12, t.get());
    let (gains, losses) = t.session_history();
    assert_eq!(vec![5], gains);
    assert!(losses.is_empty());
}

#[test]
fn tracker_two_adds_equal_one_add() {
    let mut a = ExperienceTracker::from(3);
    a.add(10);
    a.add(32);
    let mut b = ExperienceTracker::from(3);
    b.add(42);
    assert_eq!(a.get(), b.get());
    assert_eq!(45, a.get());
}

#[test]
fn tracker_add_saturates() {
    let mut t = ExperienceTracker::untracked(u64::MAX - 1);
    t.add(5);
    assert_eq!(u64::MAX, t.get());
}

#[test]
fn tracker_remove_clamps_and_logs_actual_loss() {
    let mut t = ExperienceTracker::from(30);
    t.remove(100);
    assert_eq!(0, t.get());
    let (gains, losses) = t.session_history();
    assert!(gains.is_empty());
    assert_eq!(vec![30], losses);
}

#[test]
fn tracker_logs_one_entry_per_call() {
    let mut t = ExperienceTracker::default();
    t.add(5);
    t.add(7);
    t.remove(3);
    assert!(t.is_tracking());
    let (gains, losses) = t.session_history();
    assert_eq!(vec![5, 7], gains);
    assert_eq!(vec![3], losses);
}

#[test]
fn untracked_logs_stay_empty() {
    let mut t = ExperienceTracker::untracked(10);
    t.add(5);
    t.remove(100);
    t.add(1);
    assert!(!t.is_tracking());
    assert_eq!((vec![], vec![]), t.session_history());
}

#[test]
fn test_level_up() {
    let mut system = new_experience_level_up_system();

    assert_eq!(0, system.get_experience());
    assert_eq!(1, system.get_level());

    system.add_experience(100);
    assert_eq!(100, system.get_experience());
    assert_eq!(2, system.get_level());
}

#[test]
fn test_level_down() {
    let mut system = new_experience_level_up_system();

    system.add_experience(100);
    assert_eq!(100, system.get_experience());
    assert_eq!(2, system.get_level());

    system.remove_experience(100);
    assert_eq!(0, system.get_experience());
    assert_eq!(1, system.get_level());
}

#[test]
fn test_experience_remaining() {
    let mut system = new_experience_level_up_system();

    assert_eq!(100, system.get_experience_remaining().unwrap());
    system.add_experience(100);
    assert_eq!(150, system.get_experience_remaining().unwrap());

    system.add_experience(50);
    assert_eq!(100, system.get_experience_remaining().unwrap());
    assert_eq!(250, system.get_next_milestone().unwrap());

    system.add_experience(100);
    assert_eq!(250, system.get_experience_remaining().unwrap());

    system.add_experience(250);
    assert!(system.get_experience_remaining().is_none());
    assert!(system.get_next_milestone().is_none());
}

#[test]
fn system_scenario_from_zero() {
    let mut system = ExperienceSystem::simple(0, vec![500, 100, 250]);
    system.add_experience(100);
    assert_eq!(Some(150), system.get_experience_remaining());
    system.add_experience(50);
    assert_eq!(Some(100), system.get_experience_remaining());
    assert_eq!(Some(250), system.get_next_milestone());
    system.add_experience(100);
    assert_eq!(Some(250), system.get_experience_remaining());
    assert_eq!(Some(500), system.get_next_milestone());
    system.add_experience(250);
    assert_eq!(500, system.get_experience());
    assert_eq!(None, system.get_experience_remaining());
    assert_eq!(None, system.get_next_milestone());
    assert_eq!(4, system.get_level());
}
