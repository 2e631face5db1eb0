use conveyor_city::movement::{camera_direction, player_movement_system, PLAYER_STEP};

#[test]
fn player_moves_by_a_fixed_step() {
    assert_eq!(player_movement_system(false, false, false, true), (PLAYER_STEP, 0));
    assert_eq!(player_movement_system(false, false, true, false), (-PLAYER_STEP, 0));
    assert_eq!(player_movement_system(true, false, false, false), (0, PLAYER_STEP));
    assert_eq!(player_movement_system(false, true, false, false), (0, -PLAYER_STEP));
}

#[test]
fn opposite_player_keys_cancel() {
    assert_eq!(player_movement_system(true, true, true, true), (0, 0));
    assert_eq!(player_movement_system(true, false, true, false), (-PLAYER_STEP, PLAYER_STEP));
}

#[test]
fn camera_direction_follows_the_held_keys() {
    assert_eq!(camera_direction(true, false, false, false), (0, 1));
    assert_eq!(camera_direction(false, true, false, false), (-1, 0));
    assert_eq!(camera_direction(false, false, true, false), (0, -1));
    assert_eq!(camera_direction(false, false, false, true), (1, 0));
    assert_eq!(camera_direction(true, true, true, true), (0, 0));
}
