use space_invaders::keys::{Key, PressedKeys, STEP};

#[test]
fn no_key_is_held_at_first() {
    let keys = PressedKeys::new();
    assert!(!keys.contains(Key::ArrowLeft));
    assert!(!keys.contains(Key::ArrowRight));
    assert!(!keys.contains(Key::KeyA));
    assert!(!keys.contains(Key::KeyD));
    assert!(!keys.contains(Key::Other));
    assert_eq!(keys.steering(), 0);
}

#[test]
fn insert_and_remove_change_one_key() {
    let mut keys = PressedKeys::new();
    keys.insert(Key::KeyA);
    assert!(keys.contains(Key::KeyA));
    assert!(!keys.contains(Key::ArrowLeft));
    keys.insert(Key::ArrowRight);
    assert!(keys.contains(Key::KeyA));
    assert!(keys.contains(Key::ArrowRight));
    keys.remove(Key::KeyA);
    assert!(!keys.contains(Key::KeyA));
    assert!(keys.contains(Key::ArrowRight));
    keys.remove(Key::KeyA);
    assert!(!keys.contains(Key::KeyA));
}

#[test]
fn other_key_is_held_but_does_not_steer() {
    let mut keys = PressedKeys::new();
    keys.insert(Key::Other);
    assert!(keys.contains(Key::Other));
    assert!(!keys.contains(Key::KeyD));
    assert_eq!(keys.steering(), 0);
    keys.insert(Key::KeyD);
    assert_eq!(keys.steering(), 5);
    keys.remove(Key::Other);
    assert!(!keys.contains(Key::Other));
    assert!(keys.contains(Key::KeyD));
    assert_eq!(keys.steering(), 5);
}

#[test]
fn a_key_inserted_twice_is_removed_at_once() {
    let mut keys = PressedKeys::new();
    keys.insert(Key::ArrowRight);
    keys.insert(Key::ArrowRight);
    assert_eq!(keys.steering(), 5);
    keys.remove(Key::ArrowRight);
    assert!(!keys.contains(Key::ArrowRight));
    assert_eq!(keys.steering(), 0);
}

#[test]
fn steering_counts_each_held_key() {
    assert_eq!(STEP, 5);
    let mut keys = PressedKeys::new();
    keys.insert(Key::ArrowLeft);
    assert_eq!(keys.steering(), -5);
    keys.insert(Key::KeyA);
    assert_eq!(keys.steering(), -10);
    keys.insert(Key::ArrowRight);
    assert_eq!(keys.steering(), -5);
    keys.insert(Key::KeyD);
    assert_eq!(keys.steering(), 0);
    keys.remove(Key::ArrowLeft);
    assert_eq!(keys.steering(), 5);
    keys.remove(Key::KeyA);
    assert_eq!(keys.steering(), 10);
}
