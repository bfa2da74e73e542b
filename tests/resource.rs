use overworld::{GameResource, Resource};

#[test]
fn test_resource() {
    let mut resource = GameResource::new("Test Resource".to_string(), 100);

    assert_eq!(resource.name(), "Test Resource");
    assert_eq!(resource.value(), 100);

    resource.add(100);
    assert_eq!(resource.value(), 200);

    resource
        .remove(100)
        .expect("test failure - cannot remove 100 from 200?");
    assert_eq!(resource.value(), 100);

    resource
        .remove(100)
        .expect("test failure - cannot remove 100 from 100?");
    assert_eq!(resource.value(), 0);
}

#[test]
#[should_panic]
fn test_resource_panic() {
    let mut resource = GameResource::new("Test Resource".to_string(), 0);
    resource.remove(100).unwrap();
}

#[test]
fn resource_returns_previous_value() {
    let mut resource = GameResource::new("Wood".to_string(), 7);
    assert_eq!(7, resource.add(3));
    assert_eq!(10, resource.remove(4).unwrap());
    assert_eq!(6, resource.value());
    assert!(resource.remove(7).is_err());
    assert_eq!(6, resource.value());
    assert_eq!("Wood (6)", resource.to_string());
}
