//! Laying out the world at the start of a run.
//!
//! Road type, spawn period and orientation of each tile are drawn from a
//! `rand::rngs::StdRng` that the caller hands in, so that a run can be
//! replayed from a seed. What the generator returns is not known here: the
//! two functions marked `external_body` state only the range that a draw
//! falls in, and the layout is proved for every outcome.

use crate::tile::{SetupError, Tile, TileView};
use crate::timer::{Mode, TimerState};
use crate::traffic::{tile_views, tiles_wf};
use crate::units::{MAX_SPAWN_PERIOD, MIN_SPAWN_PERIOD, NUM_TILES, ROAD_TYPES};
use crate::world::{World, WorldView};
use rand::rngs::StdRng;
use rand::Rng;
use vstd::prelude::*;

verus! {

/// `rand::rngs::StdRng`, as a value that Verus carries without looking
/// inside.
#[verifier::external_type_specification]
#[verifier::external_body]
pub struct ExStdRng(StdRng);

/// `Rng::gen_range` on the half-open range from `low` to `high`: some value
/// of that range. The range must hold a value, or the call panics.
#[verifier::external_body]
pub(crate) fn draw_between(rng: &mut StdRng, low: u64, high: u64) -> (drawn: u64)
    requires
        low < high,
    ensures
        low <= drawn < high,
{
    rng.gen_range(low..high)
}

/// `Rng::gen` for a `bool`: either value.
#[verifier::external_body]
pub(crate) fn draw_flag(rng: &mut StdRng) -> (drawn: bool) {
    rng.gen()
}

/// What a world is laid out from.
#[derive(Clone, Copy, Debug, PartialEq, Eq, Structural)]
pub struct Layout {
    /// Number of tiles; below 1, the road is empty.
    pub tiles: i32,
    /// Number of road types: a tile's type is drawn from 0 up to this,
    /// leaving it out.
    pub road_types: i32,
    /// Shortest spawn period, in nanoseconds.
    pub min_period: u64,
    /// Bound above every spawn period, in nanoseconds.
    pub max_period: u64,
}

impl Layout {
    pub open spec fn spec_standard() -> Layout {
        Layout {
            tiles: NUM_TILES,
            road_types: ROAD_TYPES,
            min_period: MIN_SPAWN_PERIOD,
            max_period: MAX_SPAWN_PERIOD,
        }
    }

    /// The layout of the game: 50 tiles of 3 types with periods from 2 to 5
    /// seconds.
    #[verifier::when_used_as_spec(spec_standard)]
    pub fn standard() -> (layout: Layout)
        ensures
            layout == Layout::spec_standard(),
            layout.check() is None,
    {
        Layout {
            tiles: NUM_TILES,
            road_types: ROAD_TYPES,
            min_period: MIN_SPAWN_PERIOD,
            max_period: MAX_SPAWN_PERIOD,
        }
    }

    /// What is wrong with the layout, if anything: no road type to draw, a
    /// spawn period of zero within reach, or no spawn period to draw. Of
    /// several faults the first in this order is named.
    pub open spec fn check(self) -> Option<SetupError> {
        if self.road_types <= 0 {
            Some(SetupError::NoRoadTypes)
        } else if self.min_period == 0 {
            Some(SetupError::ZeroDuration)
        } else if self.min_period >= self.max_period {
            Some(SetupError::EmptyPeriodRange)
        } else {
            None
        }
    }

    /// Number of tiles that the layout gives.
    pub open spec fn count(self) -> nat {
        if self.tiles > 0 {
            self.tiles as nat
        } else {
            0
        }
    }

    /// Whether `tile` can be the tile that the layout puts in lane `slot`:
    /// it is in that lane, its type and its period are within the layout's
    /// ranges, and its timer has not run yet.
    pub open spec fn places(self, tile: TileView, slot: int) -> bool {
        &&& tile.slot == slot
        &&& 0 <= tile.road_type < self.road_types
        &&& self.min_period <= tile.timer.duration < self.max_period
        &&& tile.timer == TimerState::fresh(tile.timer.duration, Mode::Repeating)
    }

    /// Whether `world` can be the world that the layout gives: one tile for
    /// each lane from 0 on, and the player at the start of a run.
    pub open spec fn lays_out(self, world: WorldView) -> bool {
        &&& world == WorldView::initial(world.tiles)
        &&& world.tiles.len() == self.count()
        &&& forall|i: int| 0 <= i < world.tiles.len() ==> self.places(#[trigger] world.tiles[i], i)
    }
}

/// Lays out a world: for each lane from 0 on one tile, with type, spawn
/// period and orientation drawn from `rng`, and the player at the start. A
/// faulty layout is refused, whatever the generator holds.
pub fn setup_world(rng: &mut StdRng, layout: &Layout) -> (made: Result<World, SetupError>)
    ensures
        match made {
            Ok(world) => layout.check() is None && layout.lays_out(world@) && world@.wf(),
            Err(error) => layout.check() == Some(error),
        },
{
    if layout.road_types <= 0 {
        return Err(SetupError::NoRoadTypes);
    }
    if layout.min_period == 0 {
        return Err(SetupError::ZeroDuration);
    }
    if layout.min_period >= layout.max_period {
        return Err(SetupError::EmptyPeriodRange);
    }
    let mut tiles: Vec<Tile> = Vec::new();
    let mut slot: i32 = 0;
    while slot < layout.tiles
        invariant
            layout.check() is None,
            0 <= slot,
            slot <= layout.count(),
            tiles.len() == slot,
            tiles_wf(tile_views(tiles@)),
            forall|i: int| 0 <= i < slot ==> layout.places(#[trigger] tile_views(tiles@)[i], i),
        decreases layout.tiles - slot,
    {
        let ghost laid = tile_views(tiles@);
        let road_type = draw_between(rng, 0, layout.road_types as u64) as i32;
        let period = draw_between(rng, layout.min_period, layout.max_period);
        let left_oriented = draw_flag(rng);
        match Tile::new(road_type, period, left_oriented, slot) {
            Ok(tile) => {
                tiles.push(tile);
                assert(tile_views(tiles@) == laid.push(tile@));
            },
            Err(error) => {
                return Err(error);
            },
        }
        slot = slot + 1;
    }
    Ok(World::new(tiles))
}

/// Lays out the world of the game: `setup_world` on the standard layout.
pub fn setup_physics(rng: &mut StdRng) -> (world: World)
    ensures
        Layout::standard().lays_out(world@),
        world@.wf(),
{
    let layout = Layout::standard();
    match setup_world(rng, &layout) {
        Ok(world) => world,
        Err(_) => unreached(),
    }
}

} // verus!
