//! The two controllers of the traffic: one spawns cars from the tiles, the
//! other moves the cars and removes those whose time is up.

use crate::car::{Car, CarView};
use crate::tile::{Tile, TileView};
use vstd::prelude::*;

verus! {

/// The tiles of a road as plain values, in order.
pub open spec fn tile_views(tiles: Seq<Tile>) -> Seq<TileView> {
    tiles.map_values(|tile: Tile| tile@)
}

/// The cars on a road as plain values, in order.
pub open spec fn car_views(cars: Seq<Car>) -> Seq<CarView> {
    cars.map_values(|car: Car| car@)
}

/// Every tile is a tile of the road.
pub open spec fn tiles_wf(tiles: Seq<TileView>) -> bool {
    forall|i: int| 0 <= i < tiles.len() ==> (#[trigger] tiles[i]).wf()
}

/// Every car is a car on the road.
pub open spec fn cars_wf(cars: Seq<CarView>) -> bool {
    forall|i: int| 0 <= i < cars.len() ==> (#[trigger] cars[i]).wf()
}

/// For a tick of `delta` nanoseconds: the car that a tile spawns, if any.
pub open spec fn spawn_of(delta: nat) -> spec_fn(TileView) -> Option<CarView> {
    |tile: TileView|
        if tile.spawns(delta) {
            Some(tile.car())
        } else {
            None
        }
}

/// For a tick of `delta` nanoseconds: the car as it leaves the tick, or
/// nothing if the tick ended its life.
pub open spec fn survivor_of(delta: nat) -> spec_fn(CarView) -> Option<CarView> {
    |car: CarView|
        if car.expires(delta) {
            None
        } else {
            Some(car.advanced(delta))
        }
}

/// The tiles after a tick of `delta` nanoseconds.
pub open spec fn advanced_tiles(tiles: Seq<TileView>, delta: nat) -> Seq<TileView> {
    tiles.map_values(|tile: TileView| tile.advanced(delta))
}

/// The cars that the tiles spawn in a tick of `delta` nanoseconds, in the
/// order of their tiles.
pub open spec fn spawned_cars(tiles: Seq<TileView>, delta: nat) -> Seq<CarView> {
    tiles.filter_map(spawn_of(delta))
}

/// The cars that are left after a tick of `delta` nanoseconds, each moved on,
/// in their old order.
pub open spec fn surviving_cars(cars: Seq<CarView>, delta: nat) -> Seq<CarView> {
    cars.filter_map(survivor_of(delta))
}

/// Advances the spawn timer of every tile of type 0 by `delta` nanoseconds
/// and puts one new car at the end of `cars` for each of them whose period
/// has just run out. Tiles of other types, and the cars already there, stay
/// as they are. Returns the number of new cars.
pub fn spawn_cars(tiles: &mut Vec<Tile>, cars: &mut Vec<Car>, delta: u64) -> (spawned: usize)
    requires
        tiles_wf(tile_views(old(tiles)@)),
        cars_wf(car_views(old(cars)@)),
    ensures
        tile_views(final(tiles)@) == advanced_tiles(tile_views(old(tiles)@), delta as nat),
        car_views(final(cars)@) == car_views(old(cars)@) + spawned_cars(
            tile_views(old(tiles)@),
            delta as nat,
        ),
        spawned == spawned_cars(tile_views(old(tiles)@), delta as nat).len(),
        tiles_wf(tile_views(final(tiles)@)),
        cars_wf(car_views(final(cars)@)),
{
    let ghost tiles_before = tile_views(tiles@);
    let ghost cars_before = car_views(cars@);
    let tile_count = tiles.len();
    let mut count_spawned: usize = 0;
    let mut i: usize = 0;
    while i < tile_count
        invariant
            i <= tile_count,
            count_spawned <= i,
            count_spawned == spawned_cars(tiles_before.take(i as int), delta as nat).len(),
            tiles.len() == tile_count,
            tiles_before.len() == tile_count,
            tile_views(tiles@) == advanced_tiles(tiles_before.take(i as int), delta as nat)
                + tiles_before.skip(i as int),
            tiles_wf(tile_views(tiles@)),
            car_views(cars@) == cars_before + spawned_cars(tiles_before.take(i as int), delta as nat),
            cars_wf(car_views(cars@)),
        decreases tile_count - i,
    {
        let ghost tiles_so_far = tile_views(tiles@);
        let ghost cars_so_far = car_views(cars@);
        assert(tiles[i as int]@ == tiles_so_far[i as int]);
        let spawned = tiles[i].advance(delta);
        proof {
            tiles_before.lemma_filter_map_take_succ(spawn_of(delta as nat), i as int);
            assert(tile_views(tiles@) == tiles_so_far.update(i as int, tiles[i as int]@));
            assert(tiles_before.take(i + 1) == tiles_before.take(i as int).push(tiles_before[i as int]));
            assert(tile_views(tiles@) == advanced_tiles(tiles_before.take(i + 1), delta as nat)
                + tiles_before.skip(i + 1));
        }
        match spawned {
            Some(car) => {
                cars.push(car);
                count_spawned += 1;
                assert(car_views(cars@) == cars_so_far.push(car@));
            },
            None => {},
        }
        i += 1;
    }
    assert(tiles_before.take(tile_count as int) == tiles_before);
    assert(tile_views(tiles@) == advanced_tiles(tiles_before, delta as nat));
    count_spawned
}

/// Whether `removed` lists, in rising order, the places of exactly those
/// cars whose life a tick of `delta` nanoseconds ends.
pub open spec fn lists_expired(removed: Seq<usize>, cars: Seq<CarView>, delta: nat) -> bool {
    &&& forall|i: int, j: int| 0 <= i < j < removed.len() ==> removed[i] < removed[j]
    &&& forall|place: usize|
        #![trigger removed.contains(place)]
        #![trigger cars[place as int]]
        removed.contains(place) <==> place < cars.len() && cars[place as int].expires(delta)
}

/// Advances every car by `delta` nanoseconds. A car whose lifetime has just
/// run out is taken off the road without moving; every other car moves on
/// across the road. The cars that are left keep their order. Returns the
/// places that the removed cars had in `cars` before the call, in rising
/// order.
pub fn move_car(cars: &mut Vec<Car>, delta: u64) -> (removed: Vec<usize>)
    requires
        cars_wf(car_views(old(cars)@)),
    ensures
        car_views(final(cars)@) == surviving_cars(car_views(old(cars)@), delta as nat),
        cars_wf(car_views(final(cars)@)),
        lists_expired(removed@, car_views(old(cars)@), delta as nat),
        final(cars).len() + removed.len() == old(cars).len(),
{
    let ghost before = car_views(cars@);
    assert(before.len() == cars.len());
    let mut waiting: Vec<Car> = Vec::new();
    std::mem::swap(cars, &mut waiting);
    let mut removed: Vec<usize> = Vec::new();
    let mut place: usize = 0;
    for car in it: waiting
        invariant
            car_views(it.seq()) == before,
            before.len() <= usize::MAX,
            place == it.index(),
            car_views(cars@) == surviving_cars(before.take(place as int), delta as nat),
            cars_wf(car_views(cars@)),
            cars_wf(before),
            lists_expired(removed@, before.take(place as int), delta as nat),
            cars.len() + removed.len() == place,
    {
        let ghost kept = car_views(cars@);
        let ghost listed = removed@;
        let mut car = car;
        assert(car@ == before[place as int]);
        proof {
            before.lemma_filter_map_take_succ(survivor_of(delta as nat), place as int);
        }
        let expired = car.advance(delta);
        if expired {
            removed.push(place);
        } else {
            cars.push(car);
            assert(car_views(cars@) == kept.push(car@));
        }
        proof {
            let seen = before.take(place as int);
            let now = before.take(place + 1);
            assert forall|other: usize|
                #![trigger removed@.contains(other)]
                #![trigger now[other as int]]
                removed@.contains(other) <==> other < now.len() && now[other as int].expires(
                    delta as nat,
                ) by {
                if other < place {
                    assert(now[other as int] == seen[other as int]);
                }
                if expired {
                    assert(removed@ == listed.push(place));
                    assert(removed@[listed.len() as int] == place);
                    if listed.contains(other) {
                        let at = choose|at: int| 0 <= at < listed.len() && listed[at] == other;
                        assert(removed@[at] == other);
                    }
                }
            }
            assert forall|i: int, j: int| 0 <= i < j < removed@.len() implies removed@[i] < removed@[j] by {
                if j == listed.len() {
                    assert(listed.contains(listed[i]));
                }
            }
        }
        place += 1;
    }
    assert(before.take(before.len() as int) == before);
    removed
}

} // verus!
