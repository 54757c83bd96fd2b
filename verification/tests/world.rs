use lane_runner::player::{Controls, Keys, Shift};
use lane_runner::setup::{setup_physics, setup_world, Layout};
use lane_runner::tile::{SetupError, Tile};
use lane_runner::units::{
    JUMP_NUDGE, LANE_STEP, MAX_SPAWN_PERIOD, MIN_SPAWN_PERIOD, NUM_TILES, ROAD_LENGTH, ROAD_TYPES,
    SECOND,
};
use lane_runner::world::World;
use rand::rngs::StdRng;
use rand::SeedableRng;

fn idle() -> Controls {
    Controls { pressed: Keys::none(), just_pressed: Keys::none() }
}

fn press(up: bool, down: bool, left: bool, right: bool) -> Controls {
    let keys = Keys { up, down, left, right };
    Controls { pressed: keys, just_pressed: keys }
}

fn road(periods: &[u64]) -> World {
    let mut tiles = Vec::new();
    for (slot, period) in periods.iter().enumerate() {
        tiles.push(Tile::new(0, *period, slot % 2 == 0, slot as i32).expect("period above zero"));
    }
    World::new(tiles)
}

#[test]
fn new_world_has_no_cars_and_the_player_at_the_start() {
    let world = road(&[SECOND, 2 * SECOND]);
    assert_eq!(world.tiles().len(), 2);
    assert_eq!(world.cars().len(), 0);
    assert_eq!(world.score(), 0);
    assert!(!world.player().is_on_ground);
}

#[test]
fn standard_world_is_laid_out_lane_by_lane() {
    let mut rng = StdRng::seed_from_u64(7);
    let world = setup_physics(&mut rng);
    assert_eq!(NUM_TILES, 50);
    assert_eq!(world.tiles().len(), 50);
    assert_eq!(world.cars().len(), 0);
    assert_eq!(world.score(), 0);
    assert!(!world.player().is_on_ground);
    for (i, tile) in world.tiles().iter().enumerate() {
        assert_eq!(tile.slot(), i as i32);
        assert_eq!(tile.z(), 3_000_000_000 * i as i64);
        assert!(0 <= tile.road_type() && tile.road_type() < ROAD_TYPES);
        assert!(MIN_SPAWN_PERIOD <= tile.spawn_period() && tile.spawn_period() < MAX_SPAWN_PERIOD);
    }
}

#[test]
fn standard_world_draws_its_tiles() {
    let mut rng = StdRng::seed_from_u64(2024);
    let world = setup_physics(&mut rng);
    let tiles = world.tiles();
    for road_type in 0..ROAD_TYPES {
        assert!(tiles.iter().any(|tile| tile.road_type() == road_type));
    }
    assert!(tiles.iter().any(|tile| tile.left_oriented()));
    assert!(tiles.iter().any(|tile| !tile.left_oriented()));
    assert!(tiles.iter().any(|tile| tile.spawn_period() != tiles[0].spawn_period()));
    assert!(tiles.iter().any(|tile| tile.spawn_period() > MIN_SPAWN_PERIOD));
}

#[test]
fn same_seed_lays_out_the_same_world() {
    let first = setup_physics(&mut StdRng::seed_from_u64(99));
    let second = setup_physics(&mut StdRng::seed_from_u64(99));
    for (a, b) in first.tiles().iter().zip(second.tiles().iter()) {
        assert_eq!(a.road_type(), b.road_type());
        assert_eq!(a.spawn_period(), b.spawn_period());
        assert_eq!(a.left_oriented(), b.left_oriented());
        assert_eq!(a.slot(), b.slot());
    }
}

#[test]
fn layout_ranges_bound_what_is_drawn() {
    let layout = Layout { tiles: 200, road_types: 1, min_period: 10, max_period: 12 };
    let mut rng = StdRng::seed_from_u64(1);
    let world = setup_world(&mut rng, &layout).ok().expect("the layout is in order");
    assert_eq!(world.tiles().len(), 200);
    for tile in world.tiles().iter() {
        assert_eq!(tile.road_type(), 0);
        assert!(tile.spawn_period() == 10 || tile.spawn_period() == 11);
    }
    assert!(world.tiles().iter().any(|tile| tile.spawn_period() == 10));
    assert!(world.tiles().iter().any(|tile| tile.spawn_period() == 11));
}

#[test]
fn layout_without_tiles_gives_an_empty_road() {
    let mut rng = StdRng::seed_from_u64(1);
    for tiles in [0, -1, i32::MIN] {
        let layout = Layout { tiles, ..Layout::standard() };
        let world = setup_world(&mut rng, &layout).ok().expect("the layout is in order");
        assert_eq!(world.tiles().len(), 0);
    }
}

#[test]
fn faulty_layouts_are_refused() {
    let mut rng = StdRng::seed_from_u64(1);
    let standard = Layout::standard();
    let no_types = Layout { road_types: 0, ..standard };
    assert_eq!(setup_world(&mut rng, &no_types).err(), Some(SetupError::NoRoadTypes));
    let negative_types = Layout { road_types: -4, min_period: 0, ..standard };
    assert_eq!(setup_world(&mut rng, &negative_types).err(), Some(SetupError::NoRoadTypes));
    let zero = Layout { min_period: 0, ..standard };
    assert_eq!(setup_world(&mut rng, &zero).err(), Some(SetupError::ZeroDuration));
    let zero_and_empty = Layout { min_period: 0, max_period: 0, ..standard };
    assert_eq!(setup_world(&mut rng, &zero_and_empty).err(), Some(SetupError::ZeroDuration));
    let one_point = Layout { min_period: SECOND, max_period: SECOND, ..standard };
    assert_eq!(setup_world(&mut rng, &one_point).err(), Some(SetupError::EmptyPeriodRange));
    let backwards = Layout { min_period: 5 * SECOND, max_period: 2 * SECOND, ..standard };
    assert_eq!(setup_world(&mut rng, &backwards).err(), Some(SetupError::EmptyPeriodRange));
}

#[test]
fn standard_layout_holds_the_constants() {
    let layout = Layout::standard();
    assert_eq!(layout.tiles, 50);
    assert_eq!(layout.road_types, 3);
    assert_eq!(layout.min_period, 2_000_000_000);
    assert_eq!(layout.max_period, 5_000_000_000);
}

#[test]
fn tick_spawns_moves_and_removes() {
    let mut world = road(&[2 * SECOND, 3 * SECOND]);
    let mut counts = Vec::new();
    for _ in 0..13 {
        world.tick(&idle(), 0, SECOND);
        counts.push(world.cars().len());
    }
    // Tile 0 spawns at 2, 4, 6, ... seconds and tile 1 at 3, 6, 9, ...; a
    // car spawned at second s is removed in the tick that ends at s + 10.
    assert_eq!(counts, vec![0, 1, 2, 3, 3, 5, 5, 6, 7, 8, 8, 9, 8]);
}

#[test]
fn tick_tells_which_cars_went_and_how_many_came() {
    let mut world = road(&[2 * SECOND, 3 * SECOND]);
    let mut removed = Vec::new();
    let mut spawned = Vec::new();
    for _ in 0..13 {
        let outcome = world.tick(&idle(), 0, SECOND);
        removed.push(outcome.removed);
        spawned.push(outcome.spawned);
    }
    assert_eq!(spawned, vec![0, 1, 1, 1, 0, 2, 0, 1, 1, 1, 0, 2, 0]);
    let none: Vec<usize> = Vec::new();
    for tick in 0..11 {
        assert_eq!(removed[tick], none);
    }
    // At 12 seconds the car from second 2 goes, at 13 seconds that from
    // second 3: each is the oldest car then.
    assert_eq!(removed[11], vec![0]);
    assert_eq!(removed[12], vec![0]);
}

#[test]
fn car_does_not_move_in_the_tick_that_spawns_it() {
    let mut world = road(&[SECOND]);
    world.tick(&idle(), 0, SECOND);
    assert_eq!(world.cars().len(), 1);
    assert_eq!(world.cars()[0].age(), 0);
    assert_eq!(world.cars()[0].x(), ROAD_LENGTH / 2);
    world.tick(&idle(), 0, SECOND);
    assert_eq!(world.cars().len(), 2);
    assert_eq!(world.cars()[0].age(), SECOND);
    assert_eq!(world.cars()[0].x(), ROAD_LENGTH / 2 - 10_000_000_000);
    assert_eq!(world.cars()[1].age(), 0);
}

#[test]
fn tick_steps_player_and_camera_alike() {
    let mut world = road(&[SECOND]);
    let action = world.tick(&press(true, false, false, false), 0, 0);
    assert_eq!(action.player, Shift { dx: 0, dy: 0, dz: LANE_STEP });
    assert_eq!(action.camera, Shift { dx: 0, dy: 0, dz: LANE_STEP });
    assert_eq!(world.score(), 1);
    assert!(world.player().is_on_ground);
    // The player stands now, so the key that is down lifts the player, and
    // only the player.
    let action = world.tick(&press(false, false, false, true), 0, 0);
    assert_eq!(action.player, Shift { dx: -LANE_STEP, dy: JUMP_NUDGE, dz: 0 });
    assert_eq!(action.camera, Shift { dx: -LANE_STEP, dy: 0, dz: 0 });
    assert_eq!(world.score(), 1);
    let action = world.tick(&idle(), 0, 0);
    assert_eq!(action.player, Shift { dx: 0, dy: 0, dz: 0 });
    assert_eq!(action.camera, Shift { dx: 0, dy: 0, dz: 0 });
}

#[test]
fn tick_counts_every_key_that_went_down() {
    let mut world = road(&[SECOND]);
    let outcome = world.tick(&press(true, false, true, false), 0, 0);
    assert_eq!(outcome.camera, Shift { dx: LANE_STEP, dy: 0, dz: LANE_STEP });
    assert_eq!(outcome.player, Shift { dx: LANE_STEP, dy: 0, dz: LANE_STEP });
    assert_eq!(world.score(), 1);
    let outcome = world.tick(&press(true, true, false, true), 900_000_000, 0);
    assert_eq!(outcome.camera, Shift { dx: -LANE_STEP, dy: 0, dz: 0 });
    assert_eq!(outcome.player, Shift { dx: -LANE_STEP, dy: JUMP_NUDGE, dz: 0 });
    assert_eq!(world.score(), 1);
}

#[test]
fn can_step_goes_by_the_lanes_that_the_keys_add_up_to() {
    let mut world = road(&[]);
    assert!(world.can_step(&press(true, false, false, false)));
    assert!(world.can_step(&press(false, true, false, false)));
    assert!(world.can_step(&press(true, true, true, true)));
    assert!(world.can_step(&idle()));
    world.tick(&press(false, true, false, false), 0, 0);
    assert_eq!(world.score(), -1);
    assert!(world.can_step(&press(false, false, true, false)));
}

#[test]
fn tick_takes_ground_contact_from_the_reported_speed() {
    let mut world = road(&[]);
    world.tick(&idle(), 50_000_000, SECOND);
    assert!(world.player().is_on_ground);
    world.tick(&idle(), 500_000_000, SECOND);
    assert!(!world.player().is_on_ground);
    // The hop goes by the contact that the tick before found.
    let action = world.tick(&press(false, false, true, false), 0, SECOND);
    assert_eq!(action.player.dy, 0);
    assert!(world.player().is_on_ground);
    let action = world.tick(&press(false, false, true, false), 900_000_000, SECOND);
    assert_eq!(action.player.dy, JUMP_NUDGE);
    assert!(!world.player().is_on_ground);
}

#[test]
fn score_follows_the_lane_through_ticks() {
    let mut world = road(&[SECOND]);
    let presses = [
        press(true, false, false, false),
        press(true, false, false, false),
        press(false, false, true, false),
        idle(),
        press(false, true, false, false),
        press(false, false, false, true),
    ];
    let expected = [1, 2, 2, 2, 1, 1];
    for (controls, score) in presses.iter().zip(expected) {
        world.tick(controls, 0, SECOND / 60);
        assert_eq!(world.score(), score);
    }
}
