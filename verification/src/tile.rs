//! Road tiles: the fixed segments of the road, each with its spawn timer.

use crate::car::{Car, CarView};
use crate::timer::{
    new_timer, state_of, tick_timer, timer_duration, timer_just_finished, Mode, TimerState,
};
use crate::units::LANE_STEP;
use bevy::time::Timer;
use vstd::prelude::*;

verus! {

/// Why a tile or a world could not be set up.
#[derive(Clone, Copy, Debug, PartialEq, Eq, Structural)]
pub enum SetupError {
    /// A timer was asked for with a duration of zero.
    ZeroDuration,
    /// The range to draw spawn periods from holds no value.
    EmptyPeriodRange,
    /// There is no road type to draw from.
    NoRoadTypes,
}

/// A segment of the road. Tiles are laid out once and never move.
#[derive(Debug)]
pub struct Tile {
    road_type: i32,
    spawn_timer: Timer,
    left_oriented: bool,
    slot: i32,
}

/// What a tile is, as plain values.
pub struct TileView {
    /// Category of the tile. Only type 0 spawns cars.
    pub road_type: int,
    /// State of the repeating timer that spawns the tile's cars.
    pub timer: TimerState,
    /// Whether the tile's cars enter on the left, the side of positive `x`.
    pub left_oriented: bool,
    /// Index of the tile's lane along the road.
    pub slot: int,
}

impl TileView {
    /// A tile as it is laid out, with its timer at zero.
    pub open spec fn fresh(road_type: int, spawn_period: nat, left_oriented: bool, slot: int) -> TileView {
        TileView {
            road_type,
            timer: TimerState::fresh(spawn_period, Mode::Repeating),
            left_oriented,
            slot,
        }
    }

    /// A tile of the road: its timer is a running repeating timer with a
    /// period above zero, part-way through a period.
    pub open spec fn wf(self) -> bool {
        &&& self.timer.repeating
        &&& !self.timer.paused
        &&& 0 < self.timer.duration <= u64::MAX
        &&& self.timer.elapsed < self.timer.duration
    }

    /// Whether the tile spawns a car in a tick of `delta` nanoseconds: it is
    /// of type 0 and the tick completes a period of its timer.
    pub open spec fn spawns(self, delta: nat) -> bool {
        self.road_type == 0 && self.timer.ticked(delta).just_finished()
    }

    /// The car that the tile spawns when it does.
    pub open spec fn car(self) -> CarView {
        CarView::spawned(self.left_oriented, self.slot)
    }

    /// The tile after a tick of `delta` nanoseconds. Only the timer of a tile
    /// of type 0 counts the tick; nothing else ever changes.
    pub open spec fn advanced(self, delta: nat) -> TileView {
        if self.road_type == 0 {
            TileView { timer: self.timer.ticked(delta), ..self }
        } else {
            self
        }
    }
}

impl View for Tile {
    type V = TileView;

    closed spec fn view(&self) -> TileView {
        TileView {
            road_type: self.road_type as int,
            timer: state_of(self.spawn_timer),
            left_oriented: self.left_oriented,
            slot: self.slot as int,
        }
    }
}

impl Tile {
    /// A tile for the lane `slot` that spawns a car every `spawn_period`
    /// nanoseconds. A period of zero is refused.
    pub fn new(road_type: i32, spawn_period: u64, left_oriented: bool, slot: i32) -> (made: Result<Tile, SetupError>)
        ensures
            spawn_period == 0 <==> made == Err::<Tile, SetupError>(SetupError::ZeroDuration),
            spawn_period != 0 <==> made is Ok,
            made is Ok ==> made->Ok_0@ == TileView::fresh(
                road_type as int,
                spawn_period as nat,
                left_oriented,
                slot as int,
            ) && made->Ok_0@.wf(),
    {
        if spawn_period == 0 {
            return Err(SetupError::ZeroDuration);
        }
        Ok(Tile {
            road_type,
            spawn_timer: new_timer(spawn_period, Mode::Repeating),
            left_oriented,
            slot,
        })
    }

    /// Category of the tile.
    pub fn road_type(&self) -> (road_type: i32)
        ensures
            road_type == self@.road_type,
    {
        self.road_type
    }

    /// Whether the tile's cars enter on the left.
    pub fn left_oriented(&self) -> (left_oriented: bool)
        ensures
            left_oriented == self@.left_oriented,
    {
        self.left_oriented
    }

    /// Index of the tile's lane along the road.
    pub fn slot(&self) -> (slot: i32)
        ensures
            slot == self@.slot,
    {
        self.slot
    }

    /// Position of the tile along the road, in steps: one lane step for each
    /// lane before it.
    pub fn z(&self) -> (z: i64)
        ensures
            z == LANE_STEP * self@.slot,
    {
        LANE_STEP * (self.slot as i64)
    }

    /// Time between two cars of the tile, in nanoseconds.
    pub fn spawn_period(&self) -> (period: u64)
        requires
            self@.wf(),
        ensures
            period == self@.timer.duration,
            period > 0,
    {
        timer_duration(&self.spawn_timer)
    }

    /// Advances the tile by one tick of `delta` nanoseconds and hands out the
    /// car that the tick spawns, if it spawns one.
    pub fn advance(&mut self, delta: u64) -> (spawned: Option<Car>)
        requires
            old(self)@.wf(),
        ensures
            final(self)@ == old(self)@.advanced(delta as nat),
            final(self)@.wf(),
            spawned is Some <==> old(self)@.spawns(delta as nat),
            spawned is Some ==> spawned->Some_0@ == old(self)@.car() && spawned->Some_0@.wf(),
    {
        if self.road_type != 0 {
            return None;
        }
        tick_timer(&mut self.spawn_timer, delta);
        if timer_just_finished(&self.spawn_timer) {
            Some(Car::spawn(self.left_oriented, self.slot))
        } else {
            None
        }
    }
}

} // verus!
