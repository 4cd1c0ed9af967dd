use arcade::room::takes_off;

#[test]
fn jumping_from_the_ground_makes_the_vertical_velocity_positive_and_clears_on_ground() {
    assert!(takes_off(true, true));
}

#[test]
fn jumping_in_the_air_does_not_change_the_vertical_velocity() {
    assert!(!takes_off(true, false));
}

#[test]
fn holding_jump_does_not_grant_a_second_jump_before_landing() {
    let mut on_ground = true;
    let mut jumps = 0;
    for _ in 0..2 {
        if takes_off(true, on_ground) {
            jumps += 1;
            on_ground = false;
        }
    }
    assert_eq!(jumps, 1);
}

#[test]
fn no_press_no_jump() {
    assert!(!takes_off(false, true));
    assert!(!takes_off(false, false));
}
