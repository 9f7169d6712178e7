use switch_bt_ws::registry::ControllerRegistry;

#[test]
fn ids_are_handed_out_in_order() {
    let mut r: ControllerRegistry<&str> = ControllerRegistry::new();
    assert_eq!(r.next_id(), 0);
    assert_eq!(r.register("a"), 0);
    assert_eq!(r.register("b"), 1);
    assert_eq!(r.register("c"), 2);
    assert_eq!(r.next_id(), 3);
    assert!(!r.ids_exhausted());
}

#[test]
fn register_get_remove() {
    let mut r: ControllerRegistry<String> = ControllerRegistry::new();
    let a = r.register("a".to_string());
    let b = r.register("b".to_string());
    let c = r.register("c".to_string());
    assert_eq!(r.ids(), vec![a, b, c]);
    assert_eq!(r.len(), 3);
    assert_eq!(r.get(b).map(|s| s.as_str()), Some("b"));
    assert!(r.contains(a));
    assert_eq!(r.remove(b), Some("b".to_string()));
    assert_eq!(r.get(b), None);
    assert_eq!(r.remove(b), None);
    assert_eq!(r.ids(), vec![a, c]);
    assert_eq!(r.len(), 2);
    // Removed ids are not handed out again.
    assert_eq!(r.register("d".to_string()), 3);
    assert_eq!(r.ids(), vec![0, 2, 3]);
}

#[test]
fn peeking_does_not_take_an_id() {
    let mut r: ControllerRegistry<u8> = ControllerRegistry::new();
    assert_eq!(r.next_id(), 0);
    assert_eq!(r.next_id(), 0);
    assert_eq!(r.register(7), 0);
    assert_eq!(r.get(0), Some(&7));
}

#[test]
fn missing_controller() {
    let r: ControllerRegistry<u8> = ControllerRegistry::new();
    assert_eq!(r.get(0), None);
    assert!(!r.contains(0));
    assert_eq!(r.ids(), Vec::<u32>::new());
    assert_eq!(r.len(), 0);
}
