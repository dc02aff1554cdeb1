//! The terrain model and the map cell: a terrain classification together
//! with a non-negative population count.

use vstd::prelude::*;

verus! {

/// The closed set of terrain variants a cell can hold.
#[derive(Clone, Copy, Debug, PartialEq, Eq, Structural)]
pub enum Terrain {
    Land,
    Resource,
    Water,
}

/// One grid position: a terrain classification and a population count.
///
/// Population units carry no distinguishing state, so the population is
/// represented by its count alone; the count being unsigned keeps it
/// non-negative at all times.
#[derive(Clone, Copy, Debug, PartialEq, Eq, Structural)]
pub struct MapCell {
    pub terrain: Terrain,
    pub pop: usize,
}

/// Closure of the terrain model: a terrain value is always one of the three
/// valid variants, so no sequence of terrain updates (smoothing passes
/// included) can ever put anything else into a cell.
pub proof fn lemma_terrain_closed(t: Terrain)
    ensures
        t == Terrain::Land || t == Terrain::Resource || t == Terrain::Water,
{
    match t {
        Terrain::Land => {},
        Terrain::Resource => {},
        Terrain::Water => {},
    }
}

impl From<Terrain> for MapCell {
    /// A fresh cell of the given terrain, with no population.
    fn from(terrain: Terrain) -> (r: Self) {
        MapCell { terrain, pop: 0 }
    }
}

impl vstd::std_specs::convert::FromSpecImpl<Terrain> for MapCell {
    open spec fn obeys_from_spec() -> bool {
        true
    }

    open spec fn from_spec(terrain: Terrain) -> MapCell {
        MapCell { terrain, pop: 0 }
    }
}

} // verus!
