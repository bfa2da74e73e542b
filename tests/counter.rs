use overworld::CountingObject;

fn new_counting_object() -> CountingObject {
    CountingObject::new(String::from("test"), 500, 100, 100, 100)
}

#[test]
fn test_counting_object_empty() {
    let co = new_counting_object();

    assert_eq!("test", co.get_name());
    assert_eq!(0, co.workers());
    assert_eq!(0, co.sum());
}

#[test]
fn test_counting_object_buy_success() {
    let mut co = new_counting_object();

    for expected_workers in 1..10 {
        let bc = co.buy_cost();
        if expected_workers == 1 {
            assert_eq!(100, bc);
        }
        assert_eq!(bc, co.perform_buy(1000).unwrap());

        assert_eq!(expected_workers, co.workers());
        assert_eq!(expected_workers * 500, co.sum());
    }

    assert!(!co.can_afford_buy(899));
    assert!(co.can_afford_buy(900));
}

#[test]
fn test_counting_object_buy_fail() {
    let mut co = new_counting_object();

    assert!(co.perform_buy(0).is_none());
    assert_eq!(0, co.workers());
}

#[test]
fn test_counting_object_refund() {
    let mut co = new_counting_object();

    for _ in 0..10 {
        co.perform_buy(1000).unwrap();
    }

    assert_eq!(10, co.workers());

    assert_eq!(900, co.refund_cost());
    let refund = co.perform_sell();
    assert_eq!(900, refund);
    assert_eq!(9, co.workers());

    assert_eq!(800, co.refund_cost());
}

#[test]
fn counting_object_sell_with_none_owned() {
    let mut co = new_counting_object();
    assert_eq!(0, co.refund_cost());
    assert_eq!(0, co.perform_sell());
    assert_eq!(0, co.workers());
}

#[test]
fn counting_object_refund_of_second_worker_is_initial_cost() {
    let mut co = CountingObject::from(String::from("mine"), 2, 7, 50, 40, 300, 10);
    assert_eq!(40, co.refund_cost());
    assert_eq!(40, co.perform_sell());
    assert_eq!(1, co.workers());
    assert_eq!(4, co.refund_cost());
}

#[test]
fn counting_object_costs_and_output() {
    let co = CountingObject::from(String::from("farm"), 3, 7, 50, 40, 300, 10);
    assert_eq!(360, co.buy_cost());
    assert_eq!(40, co.calc_buy_cost(0));
    assert_eq!(120, co.calc_buy_cost(1));
    assert_eq!(10, co.sum());
    assert_eq!(24, co.refund_cost());
}
