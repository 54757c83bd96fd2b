//! What holds of the traffic and the player over many ticks.

use crate::car::{travel, CarView};
use crate::player::{edge, Controls};
use crate::tile::TileView;
use crate::traffic::{advanced_tiles, survivor_of};
use crate::units::{CAR_LIFETIME, GROUND_EPSILON, LANE_STEP};
use crate::world::{Outcome, WorldView};
use vstd::arithmetic::div_mod::lemma_fundamental_div_mod;
use vstd::arithmetic::div_mod::lemma_fundamental_div_mod_converse;
use vstd::prelude::*;

verus! {

/// The time that a run of ticks takes: the sum of their lengths.
pub open spec fn total(deltas: Seq<nat>) -> nat
    decreases deltas.len(),
{
    if deltas.len() == 0 {
        0
    } else {
        total(deltas.drop_last()) + deltas.last()
    }
}

/// A run of `ticks` ticks of `delta` nanoseconds each.
pub open spec fn steady(delta: nat, ticks: nat) -> Seq<nat> {
    Seq::new(ticks, |i: int| delta)
}

/// The tile after a run of ticks.
pub open spec fn tile_after(tile: TileView, deltas: Seq<nat>) -> TileView
    decreases deltas.len(),
{
    if deltas.len() == 0 {
        tile
    } else {
        tile_after(tile, deltas.drop_last()).advanced(deltas.last())
    }
}

/// The number of cars that the tile spawns over a run of ticks.
pub open spec fn spawn_count(tile: TileView, deltas: Seq<nat>) -> nat
    decreases deltas.len(),
{
    if deltas.len() == 0 {
        0
    } else {
        let earlier = spawn_count(tile, deltas.drop_last());
        if tile_after(tile, deltas.drop_last()).spawns(deltas.last()) {
            earlier + 1
        } else {
            earlier
        }
    }
}

/// The car after a run of ticks, or nothing once a tick has ended its life.
pub open spec fn car_after(car: CarView, deltas: Seq<nat>) -> Option<CarView>
    decreases deltas.len(),
{
    if deltas.len() == 0 {
        Some(car)
    } else {
        match car_after(car, deltas.drop_last()) {
            Some(earlier) => survivor_of(deltas.last())(earlier),
            None => None,
        }
    }
}

/// Adding `delta`, at most one period long, to a time `before` completes at
/// most one more period: exactly when the part of `before` that lies in its
/// running period, together with `delta`, reaches the period.
proof fn lemma_one_more_period(before: nat, delta: nat, period: nat)
    requires
        0 < period,
        delta <= period,
    ensures
        before % period + delta < period ==> {
            &&& (before + delta) / period == before / period
            &&& (before + delta) % period == before % period + delta
        },
        before % period + delta >= period ==> {
            &&& (before + delta) / period == before / period + 1
            &&& (before + delta) % period == before % period + delta - period
            &&& (before % period + delta) / period == 1
            &&& (before % period + delta) % period == before % period + delta - period
        },
{
    let whole = before as int / period as int;
    let part = before as int % period as int;
    lemma_fundamental_div_mod(before as int, period as int);
    assert(period * whole == whole * period) by (nonlinear_arith);
    if part + delta < period {
        lemma_fundamental_div_mod_converse((before + delta) as int, period as int, whole, part + delta);
    } else {
        assert((whole + 1) * period == whole * period + period) by (nonlinear_arith);
        lemma_fundamental_div_mod_converse(
            (before + delta) as int,
            period as int,
            whole + 1,
            part + delta - period,
        );
        lemma_fundamental_div_mod_converse(part + delta, period as int, 1, part + delta - period);
    }
}

/// A tile of type 0 spawns a car in exactly those ticks that bring the time
/// on its timer up to its period, as long as fewer than 2^32 periods are
/// completed within the one tick.
pub proof fn lemma_spawns_when_period_completes(tile: TileView, delta: nat)
    requires
        tile.wf(),
        (tile.timer.elapsed + delta) / tile.timer.duration < 0x1_0000_0000,
    ensures
        tile.spawns(delta) <==> tile.road_type == 0 && tile.timer.elapsed + delta
            >= tile.timer.duration,
{
    let reached = (tile.timer.elapsed + delta) as int;
    let period = tile.timer.duration as int;
    if reached >= period {
        vstd::arithmetic::div_mod::lemma_div_is_ordered(period, reached, period);
        vstd::arithmetic::div_mod::lemma_div_basics(period);
        vstd::arithmetic::div_mod::lemma_small_mod((reached / period) as nat, 0x1_0000_0000);
    }
}

/// The time of a steady run is the number of its ticks times their length.
pub proof fn lemma_total_steady(delta: nat, ticks: nat)
    ensures
        total(steady(delta, ticks)) == ticks * delta,
    decreases ticks,
{
    if ticks > 0 {
        lemma_total_steady(delta, (ticks - 1) as nat);
        assert(steady(delta, ticks).drop_last() == steady(delta, (ticks - 1) as nat));
        assert((ticks - 1) * delta + delta == ticks * delta) by (nonlinear_arith);
    } else {
        assert(ticks * delta == 0) by (nonlinear_arith)
            requires
                ticks == 0,
        ;
    }
}

/// A tile of type 0 whose ticks are each no longer than its spawn period
/// spawns one car for every period that is completed: over a run of ticks
/// the number of its cars is the time on its timer before the run plus the
/// time of the run, divided by the period and rounded down. The timer is
/// left with the remainder.
pub proof fn lemma_spawn_count(tile: TileView, deltas: Seq<nat>)
    requires
        tile.wf(),
        tile.road_type == 0,
        forall|i: int| 0 <= i < deltas.len() ==> deltas[i] <= tile.timer.duration,
    ensures
        spawn_count(tile, deltas) == (tile.timer.elapsed + total(deltas)) / tile.timer.duration,
        tile_after(tile, deltas).timer.elapsed == (tile.timer.elapsed + total(deltas))
            % tile.timer.duration,
        tile_after(tile, deltas).wf(),
        tile_after(tile, deltas) == (TileView { timer: tile_after(tile, deltas).timer, ..tile }),
        tile_after(tile, deltas).timer.duration == tile.timer.duration,
    decreases deltas.len(),
{
    let period = tile.timer.duration;
    if deltas.len() == 0 {
        vstd::arithmetic::div_mod::lemma_small_mod(tile.timer.elapsed, period);
        vstd::arithmetic::div_mod::lemma_basic_div(tile.timer.elapsed as int, period as int);
    } else {
        let earlier = deltas.drop_last();
        lemma_spawn_count(tile, earlier);
        lemma_one_more_period(tile.timer.elapsed + total(earlier), deltas.last(), period);
    }
}

/// A tile of type 0 whose ticks are all of one length, at least one period
/// and less than two, spawns a car in every tick.
proof fn lemma_long_ticks_spawn_each(tile: TileView, delta: nat, ticks: nat)
    requires
        tile.wf(),
        tile.road_type == 0,
        tile.timer.duration <= delta < 2 * tile.timer.duration,
    ensures
        spawn_count(tile, steady(delta, ticks)) == ticks,
        tile_after(tile, steady(delta, ticks)).wf(),
        tile_after(tile, steady(delta, ticks)).road_type == 0,
        tile_after(tile, steady(delta, ticks)).timer.duration == tile.timer.duration,
    decreases ticks,
{
    if ticks > 0 {
        let earlier = (ticks - 1) as nat;
        lemma_long_ticks_spawn_each(tile, delta, earlier);
        assert(steady(delta, ticks).drop_last() == steady(delta, earlier));
        let before = tile_after(tile, steady(delta, earlier));
        let period = tile.timer.duration as int;
        let reached = (before.timer.elapsed + delta) as int;
        assert(reached / period < 3) by (nonlinear_arith)
            requires
                0 < period,
                0 <= reached < 3 * period,
        ;
        lemma_spawns_when_period_completes(before, delta);
    }
}

/// A fresh tile of type 0 that is ticked `ticks` times by the same `delta`
/// has spawned as many cars as periods fit into the time that went by, as
/// long as no tick is longer than the period. A longer tick completes more
/// than one period at times and still spawns one car, so that with longer
/// ticks the two numbers agree only until the ticks have run a whole period
/// ahead of their count.
pub proof fn lemma_spawn_count_steady(tile: TileView, delta: nat, ticks: nat)
    requires
        tile.wf(),
        tile.road_type == 0,
        tile.timer.elapsed == 0,
        delta <= tile.timer.duration || ticks * delta < (ticks + 1) * tile.timer.duration,
    ensures
        spawn_count(tile, steady(delta, ticks)) == (ticks * delta) / tile.timer.duration,
{
    let period = tile.timer.duration as int;
    if delta <= period {
        lemma_total_steady(delta, ticks);
        lemma_spawn_count(tile, steady(delta, ticks));
    } else if ticks == 0 {
        assert(ticks * delta == 0) by (nonlinear_arith)
            requires
                ticks == 0,
        ;
        vstd::arithmetic::div_mod::lemma_basic_div(0, period);
    } else {
        assert(delta < 2 * period && ticks * period <= ticks * delta && (ticks + 1) * period
            == ticks * period + period) by (nonlinear_arith)
            requires
                0 < period < delta,
                1 <= ticks,
                ticks * delta < (ticks + 1) * period,
        ;
        lemma_long_ticks_spawn_each(tile, delta, ticks);
        lemma_fundamental_div_mod_converse(
            (ticks * delta) as int,
            period,
            ticks as int,
            ticks * delta - ticks * period,
        );
    }
}

/// A tile of any other type than 0 never spawns a car and never changes.
pub proof fn lemma_other_types_never_spawn(tile: TileView, deltas: Seq<nat>)
    requires
        tile.road_type != 0,
    ensures
        spawn_count(tile, deltas) == 0,
        tile_after(tile, deltas) == tile,
    decreases deltas.len(),
{
    if deltas.len() > 0 {
        lemma_other_types_never_spawn(tile, deltas.drop_last());
    }
}

/// Tiles never move, never change their type or orientation or period, and
/// never leave the road: a tick changes nothing of a tile but the time on
/// its timer.
pub proof fn lemma_tiles_stay(tiles: Seq<TileView>, delta: nat)
    ensures
        advanced_tiles(tiles, delta).len() == tiles.len(),
        forall|i: int|
            0 <= i < tiles.len() ==> {
                let before = tiles[i];
                let after = #[trigger] advanced_tiles(tiles, delta)[i];
                &&& after.road_type == before.road_type
                &&& after.left_oriented == before.left_oriented
                &&& after.slot == before.slot
                &&& after.timer.duration == before.timer.duration
                &&& after.timer.repeating == before.timer.repeating
            },
{
}

/// A car is on the road exactly as long as its age, the time on its timer,
/// is below the lifetime: the first tick that brings the age up to the
/// lifetime removes it, and it never comes back. While the car is there its
/// timer shows its age, and the car is where that age puts it.
pub proof fn lemma_car_lifetime(car: CarView, deltas: Seq<nat>)
    requires
        car.wf(),
    ensures
        car_after(car, deltas) is Some <==> car.timer.elapsed + total(deltas) < CAR_LIFETIME,
        car_after(car, deltas) is Some ==> {
            let later = car_after(car, deltas)->Some_0;
            &&& later.wf()
            &&& later.timer.elapsed == car.timer.elapsed + total(deltas)
            &&& later.x == car.x + travel(car.left_oriented, total(deltas) as int)
            &&& later.z == car.z
            &&& later.left_oriented == car.left_oriented
        },
    decreases deltas.len(),
{
    if deltas.len() > 0 {
        let earlier = deltas.drop_last();
        lemma_car_lifetime(car, earlier);
        if car_after(car, earlier) is Some {
            let before = car_after(car, earlier)->Some_0;
            let age = total(earlier) as int;
            let delta = deltas.last() as int;
            assert(travel(car.left_oriented, age) + travel(car.left_oriented, delta) == travel(
                car.left_oriented,
                age + delta,
            )) by (nonlinear_arith);
        }
    }
}

/// A car that has been removed stays removed, whatever ticks follow.
pub proof fn lemma_car_removed_once(car: CarView, deltas: Seq<nat>, delta: nat)
    requires
        car.wf(),
        car_after(car, deltas) is None,
    ensures
        car_after(car, deltas.push(delta)) is None,
{
    assert(deltas.push(delta).drop_last() == deltas);
}

/// A car never turns round: with every tick that leaves it on the road, a
/// left-oriented car is as far or further towards negative `x`, and any
/// other car as far or further towards positive `x`.
pub proof fn lemma_car_moves_one_way(car: CarView, deltas: Seq<nat>, delta: nat)
    requires
        car.wf(),
        car_after(car, deltas.push(delta)) is Some,
    ensures
        car_after(car, deltas) is Some,
        car.left_oriented ==> car_after(car, deltas.push(delta))->Some_0.x <= car_after(
            car,
            deltas,
        )->Some_0.x,
        !car.left_oriented ==> car_after(car, deltas.push(delta))->Some_0.x >= car_after(
            car,
            deltas,
        )->Some_0.x,
{
    assert(deltas.push(delta).drop_last() == deltas);
    lemma_car_lifetime(car, deltas);
    lemma_car_lifetime(car, deltas.push(delta));
}

/// The score moves one lane forward on a tick in which Up went down and
/// one lane back on a tick in which Down went down; where both went down the
/// two steps cancel, and where neither did the score stays. Left and Right,
/// and the keys that are merely held, have no part in it.
pub proof fn lemma_score_follows_up_and_down(world: WorldView, controls: Controls, vertical_velocity: int, delta: nat)
    requires
        world.can_step(controls),
    ensures
        controls.just_pressed.up && !controls.just_pressed.down ==> world.ticked(
            controls,
            vertical_velocity,
            delta,
        ).score.current_road == world.score.current_road + 1,
        !controls.just_pressed.up && controls.just_pressed.down ==> world.ticked(
            controls,
            vertical_velocity,
            delta,
        ).score.current_road == world.score.current_road - 1,
        controls.just_pressed.up == controls.just_pressed.down ==> world.ticked(
            controls,
            vertical_velocity,
            delta,
        ).score.current_road == world.score.current_road,
{
}

/// The sideways step goes by Left and Right alone and the step along the
/// road by Up and Down alone: player and camera move one lane step for each
/// of the four keys that went down, a key and its opposite cancelling.
pub proof fn lemma_each_key_steps_once(world: WorldView, controls: Controls, delta: nat, outcome: Outcome)
    requires
        world.leaves(controls, delta, outcome),
    ensures
        outcome.camera.dx == LANE_STEP * (edge(controls.just_pressed.left) - edge(
            controls.just_pressed.right,
        )),
        outcome.camera.dz == LANE_STEP * (edge(controls.just_pressed.up) - edge(
            controls.just_pressed.down,
        )),
        outcome.player.dx == outcome.camera.dx,
        outcome.player.dz == outcome.camera.dz,
{
}

/// After every tick the player stands exactly if the vertical speed reported
/// for that tick is at most the threshold, whatever the player did before.
pub proof fn lemma_ground_contact_has_no_memory(world: WorldView, controls: Controls, vertical_velocity: int, delta: nat)
    ensures
        world.ticked(controls, vertical_velocity, delta).player.is_on_ground <==> vertical_velocity
            <= GROUND_EPSILON,
{
}

} // verus!
