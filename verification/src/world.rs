//! The world: the road, the traffic on it, and the one player.

use crate::car::{Car, CarView};
use crate::player::{
    check_player_on_ground, grounded, hop, lane_change, move_tiles, player_jump, step_dx, step_dz,
    Controls, Player, Score, Shift,
};
use crate::tile::{Tile, TileView};
use crate::traffic::{
    advanced_tiles, car_views, cars_wf, lists_expired, move_car, spawn_cars, spawned_cars,
    surviving_cars, tile_views, tiles_wf,
};
use vstd::prelude::*;

verus! {

/// The whole state of a run. The player is a slot of the world, so there is
/// always exactly one.
#[derive(Debug)]
pub struct World {
    tiles: Vec<Tile>,
    cars: Vec<Car>,
    player: Player,
    score: Score,
}

/// What a world is, as plain values.
pub struct WorldView {
    pub tiles: Seq<TileView>,
    pub cars: Seq<CarView>,
    pub player: Player,
    pub score: Score,
}

/// What a tick leaves for the caller to do, who keeps the bodies that the
/// physics engine moves and the shapes that are drawn.
#[derive(Debug)]
pub struct Outcome {
    /// Shift of the player's body.
    pub player: Shift,
    /// Shift of the camera that follows the player.
    pub camera: Shift,
    /// Places, in the list of cars before the tick and in rising order, of
    /// the cars that the tick took off the road.
    pub removed: Vec<usize>,
    /// Number of cars that the tick put on the road, at the end of the list.
    pub spawned: usize,
}

impl WorldView {
    /// Every tile and every car is in order.
    pub open spec fn wf(self) -> bool {
        tiles_wf(self.tiles) && cars_wf(self.cars)
    }

    /// The world at the start of a run on the given tiles: no car yet, the
    /// player in lane 0 and not yet known to stand.
    pub open spec fn initial(tiles: Seq<TileView>) -> WorldView {
        WorldView {
            tiles,
            cars: Seq::empty(),
            player: Player { is_on_ground: false },
            score: Score { current_road: 0 },
        }
    }

    /// Whether the score can take the step that the keys ask for.
    pub open spec fn can_step(self, controls: Controls) -> bool {
        i32::MIN <= self.score.current_road + lane_change(controls.just_pressed) <= i32::MAX
    }

    /// The world after one tick of `delta` nanoseconds.
    ///
    /// The player's ground contact is taken from the reported vertical speed
    /// and the score follows the lane step. Every tile of type 0 counts the
    /// tick. The cars that were on the road move on or expire; the cars that
    /// the tiles spawn in this tick come behind them and do not move yet.
    pub open spec fn ticked(self, controls: Controls, vertical_velocity: int, delta: nat) -> WorldView {
        WorldView {
            tiles: advanced_tiles(self.tiles, delta),
            cars: surviving_cars(self.cars, delta) + spawned_cars(self.tiles, delta),
            player: Player { is_on_ground: grounded(vertical_velocity) },
            score: Score {
                current_road: (self.score.current_road + lane_change(controls.just_pressed)) as i32,
            },
        }
    }

    /// Whether `outcome` is what a tick leaves to do: the lane step for
    /// player and camera alike; on top of it, for the player alone, the hop
    /// that the ground contact before the tick allows; and the cars that
    /// went and came.
    pub open spec fn leaves(self, controls: Controls, delta: nat, outcome: Outcome) -> bool {
        &&& outcome.player.dx == step_dx(controls.just_pressed)
        &&& outcome.player.dy == hop(controls.pressed, self.player.is_on_ground)
        &&& outcome.player.dz == step_dz(controls.just_pressed)
        &&& outcome.camera.dx == step_dx(controls.just_pressed)
        &&& outcome.camera.dy == 0
        &&& outcome.camera.dz == step_dz(controls.just_pressed)
        &&& lists_expired(outcome.removed@, self.cars, delta)
        &&& outcome.spawned == spawned_cars(self.tiles, delta).len()
    }
}

impl View for World {
    type V = WorldView;

    closed spec fn view(&self) -> WorldView {
        WorldView {
            tiles: tile_views(self.tiles@),
            cars: car_views(self.cars@),
            player: self.player,
            score: self.score,
        }
    }
}

impl World {
    /// A world at the start of a run, on the given tiles.
    pub fn new(tiles: Vec<Tile>) -> (world: World)
        requires
            tiles_wf(tile_views(tiles@)),
        ensures
            world@ == WorldView::initial(tile_views(tiles@)),
            world@.wf(),
    {
        let world = World { tiles, cars: Vec::new(), player: Player::new(), score: Score::new() };
        assert(car_views(world.cars@) == Seq::<CarView>::empty());
        world
    }

    /// The tiles of the road, lane by lane.
    pub fn tiles(&self) -> (tiles: &Vec<Tile>)
        ensures
            tile_views(tiles@) == self@.tiles,
    {
        &self.tiles
    }

    /// The cars on the road, oldest first.
    pub fn cars(&self) -> (cars: &Vec<Car>)
        ensures
            car_views(cars@) == self@.cars,
    {
        &self.cars
    }

    /// The player's state.
    pub fn player(&self) -> (player: Player)
        ensures
            player == self@.player,
    {
        self.player
    }

    /// The score to show: the lane that the player is in.
    pub fn score(&self) -> (score: i32)
        ensures
            score == self@.score.current_road,
    {
        self.score.current_road
    }

    /// Whether the score can take the step that the keys ask for, so that
    /// `tick` may be called with them.
    pub fn can_step(&self, controls: &Controls) -> (can: bool)
        ensures
            can == self@.can_step(*controls),
    {
        let keys = controls.just_pressed;
        if keys.up && !keys.down {
            self.score.current_road < i32::MAX
        } else if keys.down && !keys.up {
            self.score.current_road > i32::MIN
        } else {
            true
        }
    }

    /// Runs one tick of `delta` nanoseconds: first the player, from the keys
    /// and the vertical speed that the physics engine reports, then the
    /// traffic. Returns what is left for the caller to do.
    pub fn tick(&mut self, controls: &Controls, vertical_velocity: i64, delta: u64) -> (outcome: Outcome)
        requires
            old(self)@.wf(),
            old(self)@.can_step(*controls),
        ensures
            final(self)@ == old(self)@.ticked(*controls, vertical_velocity as int, delta as nat),
            final(self)@.wf(),
            old(self)@.leaves(*controls, delta as nat, outcome),
    {
        let rise = player_jump(controls, &self.player);
        check_player_on_ground(vertical_velocity, &mut self.player);
        let step = move_tiles(controls, &mut self.score);
        let removed = move_car(&mut self.cars, delta);
        let spawned = spawn_cars(&mut self.tiles, &mut self.cars, delta);
        Outcome {
            player: Shift { dx: step.dx, dy: rise, dz: step.dz },
            camera: step,
            removed,
            spawned,
        }
    }
}

} // verus!
