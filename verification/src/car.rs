//! Cars: the obstacles that cross the road and expire.

use crate::timer::{
    new_timer, state_of, tick_timer, timer_elapsed, timer_just_finished, Mode, TimerState,
};
use crate::units::{CAR_LIFETIME, CAR_VELOCITY, LANE_STEP, ROAD_LENGTH};
use bevy::time::Timer;
use vstd::prelude::*;

verus! {

/// A car on the road.
#[derive(Debug)]
pub struct Car {
    velocity: i64,
    despawn_timer: Timer,
    left_oriented: bool,
    x: i64,
    z: i64,
}

/// What a car is, as plain values.
pub struct CarView {
    /// Speed in units per second.
    pub velocity: int,
    /// State of the one-shot timer that ends the car's life.
    pub timer: TimerState,
    /// Whether the car came from the left, the side of positive `x`, and so
    /// drives towards negative `x`.
    pub left_oriented: bool,
    /// Position across the road.
    pub x: int,
    /// Position along the road: that of the lane the car drives in.
    pub z: int,
}

/// Where a car enters the road: half a road length to one side of the middle.
pub open spec fn entry_x(left_oriented: bool) -> int {
    if left_oriented {
        ROAD_LENGTH / 2
    } else {
        -(ROAD_LENGTH / 2)
    }
}

/// How far a car has moved across the road after driving for `nanos`
/// nanoseconds. A left-oriented car moves by its velocity, any other car
/// against it, so that both drive towards the far side.
pub open spec fn travel(left_oriented: bool, nanos: int) -> int {
    if left_oriented {
        CAR_VELOCITY * nanos
    } else {
        -(CAR_VELOCITY * nanos)
    }
}

impl CarView {
    /// The car that a tile in lane `slot` with the given orientation spawns.
    pub open spec fn spawned(left_oriented: bool, slot: int) -> CarView {
        CarView {
            velocity: CAR_VELOCITY as int,
            timer: TimerState::fresh(CAR_LIFETIME as nat, Mode::Once),
            left_oriented,
            x: entry_x(left_oriented),
            z: LANE_STEP * slot,
        }
    }

    /// A car on the road: its timer is a running one-shot timer of the fixed
    /// lifetime, and the car is where its age puts it.
    pub open spec fn wf(self) -> bool {
        &&& self.velocity == CAR_VELOCITY
        &&& self.timer.duration == CAR_LIFETIME
        &&& !self.timer.repeating
        &&& !self.timer.paused
        &&& !self.timer.finished
        &&& self.timer.elapsed < CAR_LIFETIME
        &&& self.x == entry_x(self.left_oriented) + travel(self.left_oriented, self.timer.elapsed as int)
    }

    /// Whether a tick of `delta` nanoseconds ends the car's life.
    pub open spec fn expires(self, delta: nat) -> bool {
        self.timer.ticked(delta).just_finished()
    }

    /// The car after a tick of `delta` nanoseconds: its timer has counted the
    /// tick, and unless the tick ended its life the car has moved on.
    pub open spec fn advanced(self, delta: nat) -> CarView {
        CarView {
            timer: self.timer.ticked(delta),
            x: if self.expires(delta) {
                self.x
            } else {
                self.x + travel(self.left_oriented, delta as int)
            },
            ..self
        }
    }
}

impl View for Car {
    type V = CarView;

    closed spec fn view(&self) -> CarView {
        CarView {
            velocity: self.velocity as int,
            timer: state_of(self.despawn_timer),
            left_oriented: self.left_oriented,
            x: self.x as int,
            z: self.z as int,
        }
    }
}

impl Car {
    /// A new car for the lane `slot`, entering from the side that
    /// `left_oriented` names.
    pub fn spawn(left_oriented: bool, slot: i32) -> (car: Car)
        ensures
            car@ == CarView::spawned(left_oriented, slot as int),
            car@.wf(),
    {
        let half: i64 = ROAD_LENGTH / 2;
        Car {
            velocity: CAR_VELOCITY,
            despawn_timer: new_timer(CAR_LIFETIME, Mode::Once),
            left_oriented,
            x: if left_oriented { half } else { -half },
            z: LANE_STEP * (slot as i64),
        }
    }

    /// Speed in units per second.
    pub fn velocity(&self) -> (velocity: i64)
        ensures
            velocity == self@.velocity,
    {
        self.velocity
    }

    /// Whether the car entered on the left, the side of positive `x`, and drives
    /// towards negative `x`.
    pub fn left_oriented(&self) -> (left_oriented: bool)
        ensures
            left_oriented == self@.left_oriented,
    {
        self.left_oriented
    }

    /// Position across the road, in steps.
    pub fn x(&self) -> (x: i64)
        ensures
            x == self@.x,
    {
        self.x
    }

    /// Position along the road, in steps.
    pub fn z(&self) -> (z: i64)
        ensures
            z == self@.z,
    {
        self.z
    }

    /// Time since the car was spawned, in nanoseconds.
    pub fn age(&self) -> (age: u64)
        requires
            self@.wf(),
        ensures
            age == self@.timer.elapsed,
            age < CAR_LIFETIME,
    {
        timer_elapsed(&self.despawn_timer)
    }

    /// Advances the car by one tick of `delta` nanoseconds and tells whether
    /// the tick ended its life. A car whose life ended does not move.
    pub fn advance(&mut self, delta: u64) -> (expired: bool)
        requires
            old(self)@.wf(),
        ensures
            final(self)@ == old(self)@.advanced(delta as nat),
            expired == old(self)@.expires(delta as nat),
            expired <==> old(self)@.timer.elapsed + delta >= CAR_LIFETIME,
            !expired ==> final(self)@.wf(),
    {
        tick_timer(&mut self.despawn_timer, delta);
        let expired = timer_just_finished(&self.despawn_timer);
        if !expired {
            let shift: i64 = CAR_VELOCITY * (delta as i64);
            if self.left_oriented {
                self.x = self.x + shift;
            } else {
                self.x = self.x - shift;
            }
        }
        expired
    }
}

} // verus!
