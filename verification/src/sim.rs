//! The simulation engine: map generation, neighbor-majority smoothing,
//! population seeding, and the per-tick population dynamics.

use vstd::pervasive::VecAdditionalExecFns;
use vstd::prelude::*;

use crate::cell::{MapCell, Terrain};
use crate::grid::{
    full_neighbors, get_coord, get_cross_neighbor_coords, get_index, get_neighbor_coords,
    lemma_coord_in_range, neighbor_coords_ok,
};
use crate::rng::{prob, RandomSource};
use crate::rules::{apply_growth, apply_shrink, migrate_pops};

verus! {

/// How often a terrain occurs in a sequence of neighbor terrains.
pub open spec fn count_terrain(s: Seq<Terrain>, t: Terrain) -> int
    decreases s.len(),
{
    if s.len() == 0 {
        0
    } else {
        count_terrain(s.drop_last(), t) + if s.last() == t {
            1int
        } else {
            0int
        }
    }
}

/// The terrains tied for majority among a cell's neighbors, given the three
/// neighbor counts. The next terrain is drawn uniformly from this list, so
/// for fixed counts the list itself is uniquely determined.
pub open spec fn candidate_terrains(land: int, resource: int, water: int) -> Seq<Terrain> {
    if water == land && water == resource {
        seq![Terrain::Water, Terrain::Resource, Terrain::Land]
    } else if water > land && water == resource {
        seq![Terrain::Water, Terrain::Resource]
    } else if water > resource && water == land {
        seq![Terrain::Water, Terrain::Land]
    } else if water > land && water > resource {
        seq![Terrain::Water]
    } else if resource == land {
        seq![Terrain::Land, Terrain::Resource]
    } else if resource > land {
        seq![Terrain::Resource]
    } else {
        seq![Terrain::Land]
    }
}

/// The candidate list always offers between one and three terrains, so the
/// draw among the candidates is always possible and can only produce one of
/// the three variants.
pub proof fn lemma_candidates_nonempty(land: int, resource: int, water: int)
    ensures
        1 <= candidate_terrains(land, resource, water).len() <= 3,
{
}

/// The terrains of the full neighborhood of cell `i`, read from the grid
/// state `map`.
pub open spec fn neighbor_terrains_of(
    map: Seq<MapCell>,
    i: int,
    width: usize,
    height: usize,
) -> Seq<Terrain> {
    let coords = full_neighbors((i % width as int) as usize, (i / width as int) as usize, width, height);
    Seq::new(coords.len(), |k: int| map[coords[k].1 * width + coords[k].0].terrain)
}

/// The candidate terrain list for cell `i`, computed from the grid state
/// `map`.
pub open spec fn candidates_at(map: Seq<MapCell>, i: int, width: usize, height: usize) -> Seq<
    Terrain,
> {
    let neighs = neighbor_terrains_of(map, i, width, height);
    candidate_terrains(
        count_terrain(neighs, Terrain::Land),
        count_terrain(neighs, Terrain::Resource),
        count_terrain(neighs, Terrain::Water),
    )
}

/// The simulation: a fixed-size grid of cells together with the random
/// source that every probabilistic step draws from.
pub struct GameState {
    pub map: Vec<MapCell>,
    pub width: usize,
    pub height: usize,
    pub rng: RandomSource,
}

impl GameState {
    /// The grid holds exactly `width * height` cells.
    pub open spec fn wf(self) -> bool {
        &&& 1 <= self.width
        &&& 1 <= self.height
        &&& self.width * self.height <= usize::MAX
        &&& self.map@.len() == self.width * self.height
    }

    /// No Water cell holds population.
    pub open spec fn water_unpopulated(self) -> bool {
        forall|i: int|
            0 <= i < self.map@.len() && (#[trigger] self.map@[i]).terrain == Terrain::Water
                ==> self.map@[i].pop == 0
    }

    /// Read-only snapshot of the cell at `index`: its terrain and its
    /// population count.
    pub fn cell_at(&self, index: usize) -> (r: (Terrain, usize))
        requires
            index < self.map@.len(),
        ensures
            r.0 == self.map@[index as int].terrain,
            r.1 == self.map@[index as int].pop,
    {
        let c = self.map[index];
        (c.terrain, c.pop)
    }

    /// The terrains of the full neighborhood of the cell at `index`.
    pub fn get_neighbors(&self, index: usize) -> (r: Vec<Terrain>)
        requires
            self.wf(),
            index < self.map@.len(),
        ensures
            r@ == neighbor_terrains_of(self.map@, index as int, self.width, self.height),
    {
        proof {
            lemma_coord_in_range(index as int, self.width as int, self.height as int);
        }
        let pos = get_coord(index, self.width);
        let neigh_coords = get_neighbor_coords(pos.0, pos.1, self.width, self.height);
        let ghost target = neighbor_terrains_of(self.map@, index as int, self.width, self.height);
        let mut terrs: Vec<Terrain> = Vec::new();
        let mut j: usize = 0;
        while j < neigh_coords.len()
            invariant
                self.wf(),
                index < self.map@.len(),
                pos.0 == index as int % self.width as int,
                pos.1 == index as int / self.width as int,
                neigh_coords@ == full_neighbors(pos.0, pos.1, self.width, self.height),
                neighbor_coords_ok(neigh_coords@, pos.0, pos.1, self.width, self.height),
                j <= neigh_coords@.len(),
                target == neighbor_terrains_of(self.map@, index as int, self.width, self.height),
                target.len() == neigh_coords@.len(),
                terrs@ == target.take(j as int),
            decreases neigh_coords@.len() - j,
        {
            let c = neigh_coords[j];
            let ci = get_index(c.0, c.1, self.width, self.height);
            proof {
                assert(target.take(j as int + 1) =~= target.take(j as int).push(target[j as int]));
            }
            terrs.push(self.map[ci].terrain);
            j = j + 1;
        }
        proof {
            assert(terrs@ =~= target);
        }
        terrs
    }

    /// The terrains tied for majority among the full neighbors of the cell
    /// at `index`: the candidate list a smoothing pass draws the cell's next
    /// terrain from.
    pub fn most_common_neighbor(&self, index: usize) -> (r: Vec<Terrain>)
        requires
            self.wf(),
            index < self.map@.len(),
        ensures
            r@ == candidates_at(self.map@, index as int, self.width, self.height),
            1 <= r@.len() <= 3,
    {
        let neighs = self.get_neighbors(index);
        let mut land: usize = 0;
        let mut resource: usize = 0;
        let mut water: usize = 0;
        let mut j: usize = 0;
        while j < neighs.len()
            invariant
                j <= neighs@.len(),
                land == count_terrain(neighs@.take(j as int), Terrain::Land),
                resource == count_terrain(neighs@.take(j as int), Terrain::Resource),
                water == count_terrain(neighs@.take(j as int), Terrain::Water),
                land + resource + water == j,
            decreases neighs@.len() - j,
        {
            let t = neighs[j];
            proof {
                assert(neighs@.take(j as int + 1).drop_last() =~= neighs@.take(j as int));
                assert(neighs@.take(j as int + 1).last() == neighs@[j as int]);
            }
            match t {
                Terrain::Land => land = land + 1,
                Terrain::Resource => resource = resource + 1,
                Terrain::Water => water = water + 1,
            }
            j = j + 1;
        }
        proof {
            assert(neighs@.take(neighs@.len() as int) =~= neighs@);
        }
        let mut r: Vec<Terrain> = Vec::new();
        if water == land && water == resource {
            r.push(Terrain::Water);
            r.push(Terrain::Resource);
            r.push(Terrain::Land);
        } else if water > land && water == resource {
            r.push(Terrain::Water);
            r.push(Terrain::Resource);
        } else if water > resource && water == land {
            r.push(Terrain::Water);
            r.push(Terrain::Land);
        } else if water > land && water > resource {
            r.push(Terrain::Water);
        } else if resource == land {
            r.push(Terrain::Land);
            r.push(Terrain::Resource);
        } else if resource > land {
            r.push(Terrain::Resource);
        } else {
            r.push(Terrain::Land);
        }
        proof {
            assert(r@ =~= candidates_at(self.map@, index as int, self.width, self.height));
        }
        r
    }

    /// One synchronous smoothing pass: every cell's next terrain is drawn
    /// from its candidate list, and every candidate list is computed against
    /// the whole grid as it stood before the pass began, so that no cell's
    /// update sees another cell's update from the same pass. Populations are
    /// untouched.
    pub fn smoothen(&mut self)
        requires
            old(self).wf(),
        ensures
            final(self).wf(),
            final(self).width == old(self).width,
            final(self).height == old(self).height,
            final(self).map@.len() == old(self).map@.len(),
            forall|i: int|
                0 <= i < final(self).map@.len() ==> (#[trigger] final(self).map@[i]).pop == old(self).map@[i].pop,
            forall|i: int|
                0 <= i < final(self).map@.len() ==> candidates_at(
                    old(self).map@,
                    i,
                    old(self).width,
                    old(self).height,
                ).contains((#[trigger] final(self).map@[i]).terrain),
    {
        let len = self.map.len();
        let mut commons: Vec<Terrain> = Vec::new();
        let mut index: usize = 0;
        while index < len
            invariant
                self.wf(),
                self.map@ == old(self).map@,
                self.width == old(self).width,
                self.height == old(self).height,
                len == self.map@.len(),
                index <= len,
                commons@.len() == index,
                forall|j: int|
                    0 <= j < index ==> candidates_at(
                        old(self).map@,
                        j,
                        old(self).width,
                        old(self).height,
                    ).contains(#[trigger] commons@[j]),
            decreases len - index,
        {
            let cv = self.most_common_neighbor(index);
            let k = self.rng.next_below(cv.len());
            proof {
                assert(cv@.contains(cv@[k as int]));
            }
            commons.push(cv[k]);
            index = index + 1;
        }
        let mut i: usize = 0;
        while i < len
            invariant
                self.wf(),
                self.width == old(self).width,
                self.height == old(self).height,
                len == self.map@.len(),
                commons@.len() == len,
                i <= len,
                forall|j: int|
                    0 <= j < len ==> candidates_at(
                        old(self).map@,
                        j,
                        old(self).width,
                        old(self).height,
                    ).contains(#[trigger] commons@[j]),
                forall|j: int|
                    0 <= j < i ==> (#[trigger] self.map@[j]).terrain == commons@[j]
                        && self.map@[j].pop == old(self).map@[j].pop,
                forall|j: int| i <= j < len ==> (#[trigger] self.map@[j]) == old(self).map@[j],
            decreases len - i,
        {
            let t = commons[i];
            let p = self.map[i].pop;
            self.map.set(i, MapCell { terrain: t, pop: p });
            i = i + 1;
        }
    }

    /// Stochastically seeds population: a Resource cell gets, with
    /// probability 5 per mille, a uniform count below 10000; a Land cell,
    /// with probability 1 per mille, a uniform count below 1000; every other
    /// cell keeps its count. In particular a Water cell's population is
    /// never touched, whatever the random source returns.
    pub fn populate(&mut self)
        requires
            old(self).wf(),
        ensures
            final(self).wf(),
            final(self).width == old(self).width,
            final(self).height == old(self).height,
            final(self).map@.len() == old(self).map@.len(),
            forall|i: int|
                0 <= i < final(self).map@.len() ==> (#[trigger] final(self).map@[i]).terrain == old(self).map@[i].terrain,
            forall|i: int|
                0 <= i < final(self).map@.len() ==> (#[trigger] final(self).map@[i]).pop == old(self).map@[i].pop || (old(self).map@[i].terrain == Terrain::Resource && final(self).map@[i].pop < 10000) || (old(self).map@[i].terrain == Terrain::Land && final(self).map@[i].pop < 1000),
            forall|i: int|
                0 <= i < final(self).map@.len() && (#[trigger] final(self).map@[i]).terrain
                    == Terrain::Water ==> final(self).map@[i].pop == old(self).map@[i].pop,
    {
        let len = self.map.len();
        let mut index: usize = 0;
        while index < len
            invariant
                self.wf(),
                self.width == old(self).width,
                self.height == old(self).height,
                len == self.map@.len(),
                old(self).map@.len() == len,
                index <= len,
                forall|j: int|
                    0 <= j < len ==> (#[trigger] self.map@[j]).terrain == old(self).map@[j].terrain,
                forall|j: int|
                    0 <= j < index ==> (#[trigger] self.map@[j]).pop == old(self).map@[j].pop || (
                    old(self).map@[j].terrain == Terrain::Resource && self.map@[j].pop < 10000) || (
                    old(self).map@[j].terrain == Terrain::Land && self.map@[j].pop < 1000),
                forall|j: int| index <= j < len ==> (#[trigger] self.map@[j]) == old(self).map@[j],
            decreases len - index,
        {
            let t = self.map[index].terrain;
            if t == Terrain::Resource {
                if prob(&mut self.rng, 5) {
                    let m = self.rng.next_below(10000);
                    self.map.set(index, MapCell { terrain: t, pop: m });
                }
            } else if t == Terrain::Land {
                if prob(&mut self.rng, 1) {
                    let m = self.rng.next_below(1000);
                    self.map.set(index, MapCell { terrain: t, pop: m });
                }
            }
            index = index + 1;
        }
    }

    /// One simulation tick. Cells are processed in index order; for each cell
    /// with population, growth, migration and shrink fire as independent
    /// trials, each rule reading the cell's population as it stands when the
    /// rule is evaluated. A migration moves one percent of the population to
    /// a uniformly chosen cross neighbor unless that neighbor is Water; the
    /// receiving neighbor is mutated immediately, so a neighbor processed
    /// later in the same tick sees the incoming units. Terrain never changes,
    /// and Water cells stay unpopulated.
    pub fn advance(&mut self)
        requires
            old(self).wf(),
        ensures
            final(self).wf(),
            final(self).width == old(self).width,
            final(self).height == old(self).height,
            final(self).map@.len() == old(self).map@.len(),
            forall|i: int|
                0 <= i < final(self).map@.len() ==> (#[trigger] final(self).map@[i]).terrain == old(self).map@[i].terrain,
            old(self).water_unpopulated() ==> final(self).water_unpopulated(),
    {
        let len = self.map.len();
        let mut index: usize = 0;
        while index < len
            invariant
                self.wf(),
                self.width == old(self).width,
                self.height == old(self).height,
                len == self.map@.len(),
                index <= len,
                forall|j: int|
                    0 <= j < len ==> (#[trigger] self.map@[j]).terrain == old(self).map@[j].terrain,
                old(self).water_unpopulated() ==> self.water_unpopulated(),
            decreases len - index,
        {
            let this_pop = self.map[index].pop;
            if this_pop > 0 {
                let this_terr = self.map[index].terrain;
                let grow = match this_terr {
                    Terrain::Resource => prob(&mut self.rng, 9),
                    Terrain::Land => prob(&mut self.rng, 3),
                    Terrain::Water => false,
                };
                if grow {
                    let p = self.map[index].pop;
                    let np = apply_growth(p);
                    self.map.set(index, MapCell { terrain: this_terr, pop: np });
                }
                if prob(&mut self.rng, 5) {
                    proof {
                        lemma_coord_in_range(index as int, self.width as int, self.height as int);
                    }
                    let pos = get_coord(index, self.width);
                    let neighs = get_cross_neighbor_coords(pos.0, pos.1, self.width, self.height);
                    // a single-cell grid offers no neighbor to receive units
                    if neighs.len() > 0 {
                        let k = self.rng.next_below(neighs.len());
                        let npos = neighs[k];
                        let nix = get_index(npos.0, npos.1, self.width, self.height);
                        if !(self.map[nix].terrain == Terrain::Water) {
                            let from = self.map[index].pop;
                            let to = self.map[nix].pop;
                            let moved = migrate_pops(from, to);
                            let cn_terr = self.map[nix].terrain;
                            self.map.set(index, MapCell { terrain: this_terr, pop: moved.0 });
                            self.map.set(nix, MapCell { terrain: cn_terr, pop: moved.1 });
                        }
                    }
                }
                let shrink = match this_terr {
                    Terrain::Resource => prob(&mut self.rng, 8),
                    Terrain::Land => prob(&mut self.rng, 4),
                    Terrain::Water => false,
                };
                if shrink {
                    let p = self.map[index].pop;
                    let np = apply_shrink(p);
                    self.map.set(index, MapCell { terrain: this_terr, pop: np });
                }
            }
            index = index + 1;
        }
    }

    /// Builds a simulation: `width * height` cells of uniformly random
    /// terrain, relaxed by `passes` smoothing passes, then seeded with
    /// population. Construction cannot fail, and every Water cell of the
    /// result is unpopulated.
    pub fn new(width: usize, height: usize, passes: usize, rng: RandomSource) -> (s: GameState)
        requires
            1 <= width,
            1 <= height,
            width * height <= usize::MAX,
        ensures
            s.wf(),
            s.width == width,
            s.height == height,
            s.water_unpopulated(),
            forall|i: int|
                0 <= i < s.map@.len() ==> (#[trigger] s.map@[i]).pop == 0 || (s.map@[i].terrain
                    == Terrain::Resource && s.map@[i].pop < 10000) || (s.map@[i].terrain
                    == Terrain::Land && s.map@[i].pop < 1000),
    {
        let mut rng = rng;
        let total = width * height;
        let mut map: Vec<MapCell> = Vec::new();
        let mut i: usize = 0;
        while i < total
            invariant
                map@.len() == i,
                i <= total,
                forall|j: int| 0 <= j < i ==> (#[trigger] map@[j]).pop == 0,
            decreases total - i,
        {
            let d = rng.next_below(3);
            let t = if d == 0 {
                Terrain::Land
            } else if d == 1 {
                Terrain::Resource
            } else {
                Terrain::Water
            };
            map.push(MapCell { terrain: t, pop: 0 });
            i = i + 1;
        }
        let mut s = GameState { map, width, height, rng };
        let mut k: usize = 0;
        while k < passes
            invariant
                s.wf(),
                s.width == width,
                s.height == height,
                k <= passes,
                forall|j: int| 0 <= j < s.map@.len() ==> (#[trigger] s.map@[j]).pop == 0,
            decreases passes - k,
        {
            s.smoothen();
            k = k + 1;
        }
        s.populate();
        s
    }
}

} // verus!
