use space_invaders::ship::{heading, ship_animation, ArrowKeys, Heading, IDLE, LEFT, RIGHT};

fn keys(left: bool, right: bool, up: bool, down: bool) -> ArrowKeys {
    ArrowKeys { left, right, up, down }
}

#[test]
fn no_key_means_rest() {
    assert_eq!(heading(keys(false, false, false, false)), Heading { horizontal: 0, vertical: 0 });
}

#[test]
fn single_keys_give_their_direction() {
    assert_eq!(heading(keys(true, false, false, false)), Heading { horizontal: -1, vertical: 0 });
    assert_eq!(heading(keys(false, true, false, false)), Heading { horizontal: 1, vertical: 0 });
    assert_eq!(heading(keys(false, false, true, false)), Heading { horizontal: 0, vertical: -1 });
    assert_eq!(heading(keys(false, false, false, true)), Heading { horizontal: 0, vertical: 1 });
}

#[test]
fn left_wins_over_right_and_up_over_down() {
    assert_eq!(heading(keys(true, true, false, false)), Heading { horizontal: -1, vertical: 0 });
    assert_eq!(heading(keys(false, false, true, true)), Heading { horizontal: 0, vertical: -1 });
    assert_eq!(heading(keys(true, true, true, true)), Heading { horizontal: -1, vertical: -1 });
}

#[test]
fn both_axes_are_independent() {
    assert_eq!(heading(keys(false, true, false, true)), Heading { horizontal: 1, vertical: 1 });
    assert_eq!(heading(keys(true, false, false, true)), Heading { horizontal: -1, vertical: 1 });
    assert_eq!(heading(keys(false, true, true, false)), Heading { horizontal: 1, vertical: -1 });
}

#[test]
fn animation_follows_the_horizontal_direction() {
    assert_eq!(IDLE, 0);
    assert_eq!(LEFT, 1);
    assert_eq!(RIGHT, 2);
    assert_eq!(ship_animation(0), 0);
    assert_eq!(ship_animation(-1), 1);
    assert_eq!(ship_animation(1), 2);
    assert_eq!(ship_animation(i32::MIN), 1);
    assert_eq!(ship_animation(i32::MAX), 2);
    assert_eq!(ship_animation(heading(keys(true, true, false, false)).horizontal), 1);
    assert_eq!(ship_animation(heading(keys(false, true, true, false)).horizontal), 2);
    assert_eq!(ship_animation(heading(keys(false, false, true, false)).horizontal), 0);
}
