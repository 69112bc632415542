use space_invaders::spawn::{should_spawn, spawn_roll, ROLL_HIGH, ROLL_LOW, SPAWN_ABOVE};

#[test]
fn spawn_constants() {
    assert_eq!(ROLL_LOW, 0);
    assert_eq!(ROLL_HIGH, 99);
    assert_eq!(SPAWN_ABOVE, 95);
}

#[test]
fn spawns_above_the_threshold_only() {
    assert!(!should_spawn(0));
    assert!(!should_spawn(50));
    assert!(!should_spawn(94));
    assert!(!should_spawn(95));
    assert!(should_spawn(96));
    assert!(should_spawn(97));
    assert!(should_spawn(98));
    assert!(should_spawn(99));
    assert!(!should_spawn(-1));
    assert!(!should_spawn(i32::MIN));
    assert!(should_spawn(i32::MAX));
}

#[test]
fn rolls_stay_in_their_range() {
    for _ in 0..10_000 {
        let roll = spawn_roll();
        assert!(ROLL_LOW <= roll && roll <= ROLL_HIGH);
    }
}

#[test]
fn rolls_differ() {
    let mut seen = [false; 100];
    for _ in 0..10_000 {
        seen[spawn_roll() as usize] = true;
    }
    let distinct = seen.iter().filter(|&&hit| hit).count();
    assert!(distinct > 50);
    assert!(seen[1..99].iter().any(|&hit| hit));
}

#[test]
fn some_rolls_spawn_and_most_do_not() {
    let mut spawned = 0;
    for _ in 0..10_000 {
        if should_spawn(spawn_roll()) {
            spawned += 1;
        }
    }
    assert!(spawned > 0);
    assert!(spawned < 5_000);
}
