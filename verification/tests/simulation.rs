use gridsim::cell::{MapCell, Terrain};
use gridsim::rng::RandomSource;
use gridsim::sim::GameState;

fn cells_of(terrains: &[Terrain]) -> Vec<MapCell> {
    terrains
        .iter()
        .map(|t| MapCell {
            terrain: *t,
            pop: 0,
        })
        .collect()
}

fn state(width: usize, height: usize, map: Vec<MapCell>, script: Vec<usize>) -> GameState {
    GameState {
        map,
        width,
        height,
        rng: RandomSource::from_script(script),
    }
}

#[test]
fn cell_at_reads_terrain_and_population() {
    let mut map = cells_of(&[Terrain::Water; 4]);
    map[2] = MapCell {
        terrain: Terrain::Resource,
        pop: 42,
    };
    let s = state(2, 2, map, vec![]);
    assert_eq!(s.cell_at(0), (Terrain::Water, 0));
    assert_eq!(s.cell_at(2), (Terrain::Resource, 42));
}

#[test]
fn neighbors_read_in_bounds_check_order() {
    let mut terrains = [Terrain::Land; 9];
    terrains[4] = Terrain::Resource;
    terrains[3] = Terrain::Resource;
    terrains[5] = Terrain::Water;
    let s = state(3, 3, cells_of(&terrains), vec![]);
    // full neighborhood of (1, 0): (0,0), (2,0), (1,1), (0,1), (2,1)
    assert_eq!(
        s.get_neighbors(1),
        vec![
            Terrain::Land,
            Terrain::Land,
            Terrain::Resource,
            Terrain::Resource,
            Terrain::Water
        ]
    );
}

#[test]
fn tied_majority_lists_both_terrains_never_water() {
    let mut terrains = [Terrain::Land; 9];
    terrains[4] = Terrain::Resource;
    terrains[3] = Terrain::Resource;
    terrains[5] = Terrain::Water;
    let s = state(3, 3, cells_of(&terrains), vec![]);
    // neighbor counts of (1, 0): land = 2, resource = 2, water = 1
    let expected = vec![Terrain::Land, Terrain::Resource];
    assert_eq!(s.most_common_neighbor(1), expected);
    // the candidate computation is deterministic: asking again changes nothing
    assert_eq!(s.most_common_neighbor(1), expected);
}

#[test]
fn three_way_tie_lists_all_terrains() {
    let mut terrains = [Terrain::Land; 9];
    terrains[1] = Terrain::Land;
    terrains[3] = Terrain::Resource;
    terrains[4] = Terrain::Water;
    let s = state(3, 3, cells_of(&terrains), vec![]);
    // neighbor counts of (0, 0): land = 1, resource = 1, water = 1
    assert_eq!(
        s.most_common_neighbor(0),
        vec![Terrain::Water, Terrain::Resource, Terrain::Land]
    );
}

#[test]
fn water_majority_stands_alone() {
    let mut terrains = [Terrain::Land; 9];
    terrains[1] = Terrain::Water;
    terrains[3] = Terrain::Water;
    terrains[4] = Terrain::Land;
    let s = state(3, 3, cells_of(&terrains), vec![]);
    // neighbor counts of (0, 0): land = 1, resource = 0, water = 2
    assert_eq!(s.most_common_neighbor(0), vec![Terrain::Water]);
}

#[test]
fn smoothing_a_uniform_grid_changes_nothing() {
    let mut s = state(3, 3, cells_of(&[Terrain::Land; 9]), vec![]);
    s.smoothen();
    for i in 0..9 {
        assert_eq!(s.cell_at(i), (Terrain::Land, 0));
    }
}

#[test]
fn seeding_skips_water_for_any_draws() {
    let map = cells_of(&[
        Terrain::Water,
        Terrain::Resource,
        Terrain::Land,
        Terrain::Water,
    ]);
    let mut s = state(2, 2, map, vec![0, 1234, 0, 567]);
    s.populate();
    assert_eq!(s.cell_at(0), (Terrain::Water, 0));
    assert_eq!(s.cell_at(1), (Terrain::Resource, 1234));
    assert_eq!(s.cell_at(2), (Terrain::Land, 567));
    assert_eq!(s.cell_at(3), (Terrain::Water, 0));
}

#[test]
fn seeding_an_all_water_grid_from_the_system_source() {
    let mut s = GameState {
        map: cells_of(&[Terrain::Water; 9]),
        width: 3,
        height: 3,
        rng: RandomSource::system(),
    };
    for _ in 0..50 {
        s.populate();
        for i in 0..9 {
            assert_eq!(s.cell_at(i).1, 0);
        }
    }
}

#[test]
fn forced_growth_adds_one_percent() {
    let mut map = cells_of(&[Terrain::Land; 9]);
    map[4].pop = 200;
    // growth fires (draw 0 < 3), migration and shrink stay quiet (999)
    let mut s = state(3, 3, map, vec![0, 999, 999]);
    s.advance();
    assert_eq!(s.cell_at(4), (Terrain::Land, 202));
    for i in [0, 1, 2, 3, 5, 6, 7, 8] {
        assert_eq!(s.cell_at(i).1, 0);
    }
}

#[test]
fn forced_migration_moves_five_of_five_hundred() {
    let mut map = cells_of(&[Terrain::Land, Terrain::Land]);
    map[0].pop = 500;
    // cell 0: no growth (999), migration fires (0), neighbor draw 0, no
    // shrink (999); cell 1 now holds 5 units and draws three quiet trials
    let mut s = state(2, 1, map, vec![999, 0, 0, 999, 999, 999, 999]);
    s.advance();
    assert_eq!(s.cell_at(0), (Terrain::Land, 495));
    assert_eq!(s.cell_at(1), (Terrain::Land, 5));
}

#[test]
fn migration_toward_water_is_skipped() {
    let mut map = cells_of(&[Terrain::Land, Terrain::Water]);
    map[0].pop = 500;
    let mut s = state(2, 1, map, vec![999, 0, 0, 999]);
    s.advance();
    assert_eq!(s.cell_at(0), (Terrain::Land, 500));
    assert_eq!(s.cell_at(1), (Terrain::Water, 0));
}

#[test]
fn new_simulation_is_well_formed() {
    let s = GameState::new(10, 8, 3, RandomSource::system());
    assert_eq!(s.width, 10);
    assert_eq!(s.height, 8);
    assert_eq!(s.map.len(), 80);
    for i in 0..80 {
        let (terrain, pop) = s.cell_at(i);
        match terrain {
            Terrain::Water => assert_eq!(pop, 0),
            Terrain::Resource => assert!(pop < 10000),
            Terrain::Land => assert!(pop < 1000),
        }
    }
}

#[test]
fn ticks_preserve_terrain_and_keep_water_empty() {
    let mut s = GameState::new(20, 15, 5, RandomSource::system());
    let before: Vec<Terrain> = (0..300).map(|i| s.cell_at(i).0).collect();
    for _ in 0..30 {
        s.advance();
    }
    for i in 0..300 {
        let (terrain, pop) = s.cell_at(i);
        assert_eq!(terrain, before[i]);
        if terrain == Terrain::Water {
            assert_eq!(pop, 0);
        }
    }
}

#[test]
fn fresh_cell_from_terrain_is_empty() {
    let c = MapCell::from(Terrain::Resource);
    assert_eq!(c.terrain, Terrain::Resource);
    assert_eq!(c.pop, 0);
}
