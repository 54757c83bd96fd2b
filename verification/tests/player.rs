use lane_runner::player::{
    check_player_on_ground, move_tiles, player_jump, Controls, Keys, Player, Score, Shift,
};
use lane_runner::units::{GROUND_EPSILON, JUMP_NUDGE, LANE_STEP, UNIT};

fn just_pressed(up: bool, down: bool, left: bool, right: bool) -> Controls {
    let keys = Keys { up, down, left, right };
    Controls { pressed: keys, just_pressed: keys }
}

fn held(up: bool, down: bool, left: bool, right: bool) -> Controls {
    Controls { pressed: Keys { up, down, left, right }, just_pressed: Keys::none() }
}

fn steps_per_second(units_per_second: f64) -> i64 {
    (units_per_second * UNIT as f64).round() as i64
}

#[test]
fn up_up_down_ends_in_lane_one() {
    let mut score = Score::new();
    assert_eq!(score.current_road, 0);
    move_tiles(&just_pressed(true, false, false, false), &mut score);
    move_tiles(&just_pressed(true, false, false, false), &mut score);
    move_tiles(&just_pressed(false, true, false, false), &mut score);
    assert_eq!(score.current_road, 1);
}

#[test]
fn slow_vertical_speed_is_ground_contact() {
    let mut player = Player { is_on_ground: true };
    check_player_on_ground(steps_per_second(0.05), &mut player);
    assert!(player.is_on_ground);
    check_player_on_ground(steps_per_second(0.5), &mut player);
    assert!(!player.is_on_ground);
}

#[test]
fn ground_contact_follows_the_speed_of_each_tick_alone() {
    let speeds = [0, GROUND_EPSILON, GROUND_EPSILON + 1, -5 * UNIT, 7 * UNIT, GROUND_EPSILON - 1];
    let expected = [true, true, false, true, false, true];
    for start in [false, true] {
        let mut player = Player { is_on_ground: start };
        for (speed, on_ground) in speeds.iter().zip(expected) {
            check_player_on_ground(*speed, &mut player);
            assert_eq!(player.is_on_ground, on_ground);
        }
    }
    let mut player = Player::new();
    assert!(!player.is_on_ground);
    check_player_on_ground(i64::MIN, &mut player);
    assert!(player.is_on_ground);
    check_player_on_ground(i64::MAX, &mut player);
    assert!(!player.is_on_ground);
}

#[test]
fn up_and_down_move_one_lane_and_count() {
    let mut score = Score { current_road: 5 };
    let shift = move_tiles(&just_pressed(true, false, false, false), &mut score);
    assert_eq!(score.current_road, 6);
    assert_eq!(shift, Shift { dx: 0, dy: 0, dz: 3_000_000_000 });
    let shift = move_tiles(&just_pressed(false, true, false, false), &mut score);
    assert_eq!(score.current_road, 5);
    assert_eq!(shift, Shift { dx: 0, dy: 0, dz: -3_000_000_000 });
}

#[test]
fn left_and_right_move_sideways_and_do_not_count() {
    let mut score = Score { current_road: -3 };
    let shift = move_tiles(&just_pressed(false, false, true, false), &mut score);
    assert_eq!(score.current_road, -3);
    assert_eq!(shift, Shift { dx: LANE_STEP, dy: 0, dz: 0 });
    let shift = move_tiles(&just_pressed(false, false, false, true), &mut score);
    assert_eq!(score.current_road, -3);
    assert_eq!(shift, Shift { dx: -LANE_STEP, dy: 0, dz: 0 });
}

#[test]
fn held_keys_do_not_step() {
    let mut score = Score::new();
    for _ in 0..10 {
        let shift = move_tiles(&held(true, true, true, true), &mut score);
        assert_eq!(shift, Shift { dx: 0, dy: 0, dz: 0 });
    }
    assert_eq!(score.current_road, 0);
}

#[test]
fn up_and_down_in_one_tick_cancel() {
    let mut score = Score { current_road: 4 };
    let shift = move_tiles(&just_pressed(true, true, false, false), &mut score);
    assert_eq!(score.current_road, 4);
    assert_eq!(shift, Shift { dx: 0, dy: 0, dz: 0 });
}

#[test]
fn left_and_right_in_one_tick_cancel() {
    let mut score = Score { current_road: 4 };
    let shift = move_tiles(&just_pressed(false, false, true, true), &mut score);
    assert_eq!(score.current_road, 4);
    assert_eq!(shift, Shift { dx: 0, dy: 0, dz: 0 });
}

#[test]
fn every_key_that_went_down_counts_in_a_tick() {
    let mut score = Score::new();
    let shift = move_tiles(&just_pressed(true, false, true, false), &mut score);
    assert_eq!(score.current_road, 1);
    assert_eq!(shift, Shift { dx: 3_000_000_000, dy: 0, dz: 3_000_000_000 });
    let shift = move_tiles(&just_pressed(false, true, false, true), &mut score);
    assert_eq!(score.current_road, 0);
    assert_eq!(shift, Shift { dx: -3_000_000_000, dy: 0, dz: -3_000_000_000 });
    let shift = move_tiles(&just_pressed(true, false, false, true), &mut score);
    assert_eq!(score.current_road, 1);
    assert_eq!(shift, Shift { dx: -LANE_STEP, dy: 0, dz: LANE_STEP });
    let shift = move_tiles(&just_pressed(false, true, true, true), &mut score);
    assert_eq!(score.current_road, 0);
    assert_eq!(shift, Shift { dx: 0, dy: 0, dz: -LANE_STEP });
    let shift = move_tiles(&just_pressed(true, true, true, false), &mut score);
    assert_eq!(score.current_road, 0);
    assert_eq!(shift, Shift { dx: LANE_STEP, dy: 0, dz: 0 });
    let shift = move_tiles(&just_pressed(true, true, true, true), &mut score);
    assert_eq!(score.current_road, 0);
    assert_eq!(shift, Shift { dx: 0, dy: 0, dz: 0 });
}

#[test]
fn up_and_down_together_step_at_the_ends_of_the_range() {
    let mut score = Score { current_road: i32::MAX };
    move_tiles(&just_pressed(true, true, false, false), &mut score);
    assert_eq!(score.current_road, i32::MAX);
    let mut score = Score { current_road: i32::MIN };
    move_tiles(&just_pressed(true, true, true, false), &mut score);
    assert_eq!(score.current_road, i32::MIN);
}

#[test]
fn score_reaches_both_ends_of_its_range() {
    let mut score = Score { current_road: i32::MAX - 1 };
    move_tiles(&just_pressed(true, false, false, false), &mut score);
    assert_eq!(score.current_road, i32::MAX);
    let mut score = Score { current_road: i32::MIN + 1 };
    move_tiles(&just_pressed(false, true, false, false), &mut score);
    assert_eq!(score.current_road, i32::MIN);
}

#[test]
fn player_hops_only_on_the_ground_with_a_key_down() {
    let grounded = Player { is_on_ground: true };
    let airborne = Player { is_on_ground: false };
    assert_eq!(player_jump(&held(false, false, true, false), &grounded), 100_000_000);
    assert_eq!(player_jump(&held(true, false, false, false), &airborne), 0);
    assert_eq!(player_jump(&held(false, false, false, false), &grounded), 0);
    assert_eq!(player_jump(&held(false, false, false, false), &airborne), 0);
}

#[test]
fn several_keys_hop_once() {
    let grounded = Player { is_on_ground: true };
    assert_eq!(player_jump(&held(true, true, true, true), &grounded), JUMP_NUDGE);
}

// The hop goes by the keys that are down, not by the keys that went down: a
// key that is held on the ground lifts the player in every tick. A single
// hop for each press may have been meant; this test pins what is done.
#[test]
fn held_key_hops_in_every_tick_on_the_ground() {
    let grounded = Player { is_on_ground: true };
    let controls = held(false, true, false, false);
    let mut height = 0i64;
    for _ in 0..5 {
        height += player_jump(&controls, &grounded);
    }
    assert_eq!(height, 5 * JUMP_NUDGE);
}

#[test]
fn keys_any_tells_whether_a_key_is_set() {
    assert!(!Keys::none().any());
    assert!(Keys { up: false, down: false, left: false, right: true }.any());
    assert!(Keys { up: true, down: false, left: false, right: false }.any());
}
