use diplomacy::board::{BoardError, GameData, Nation};
use diplomacy::province::{Coast, Province, ProvinceType, Unit};
use diplomacy::standard::{BOH, GAS, MAR, MOS, NTH, REGION_COUNT, SPA_NC, SPA_SC, STP_SC};

fn board() -> GameData {
    GameData::default()
}

fn find(b: &GameData, abbreviation: &str, terrain: ProvinceType) -> Province {
    b.provinces
        .iter()
        .find(|p| p.abbreviation == abbreviation && p.terrain == terrain)
        .expect("region on the board")
        .clone()
}

fn codes(ps: &[Province]) -> Vec<String> {
    ps.iter().map(|p| p.abbreviation.clone()).collect()
}

const INLAND: [&str; 14] = [
    "Boh", "Bud", "Bur", "Gal", "Mos", "Mun", "Par", "Ruh", "Ser", "Sil", "Tyr", "Ukr", "Vie",
    "War",
];

#[test]
fn province_new_keeps_its_fields() {
    let p = Province::new("Spain", "Spa", ProvinceType::Land(Some(Coast::North)));
    assert_eq!(p.name, "Spain");
    assert_eq!(p.abbreviation, "Spa");
    assert_eq!(p.terrain, ProvinceType::Land(Some(Coast::North)));
}

#[test]
fn same_as_ignores_coast_and_same_coast_as_does_not() {
    let nc = Province::new("Spain", "Spa", ProvinceType::Land(Some(Coast::North)));
    let sc = Province::new("Spain", "Spa", ProvinceType::Land(Some(Coast::South)));
    let por = Province::new("Portugal", "Por", ProvinceType::Land(None));
    assert!(nc.same_as(&nc));
    assert!(nc.same_coast_as(&nc));
    assert!(nc.same_as(&sc) && sc.same_as(&nc));
    assert!(!nc.same_coast_as(&sc) && !sc.same_coast_as(&nc));
    assert!(!nc.same_as(&por));
    assert!(!nc.same_coast_as(&por));
}

#[test]
fn same_face_implies_same_province_on_the_whole_board() {
    let b = board();
    for x in &b.provinces {
        assert!(x.same_as(x));
        for y in &b.provinces {
            assert_eq!(x.same_as(y), y.same_as(x));
            if x.same_coast_as(y) {
                assert!(x.same_as(y));
            }
        }
    }
}

#[test]
fn spain_has_two_faces() {
    let b = board();
    let spain = b.provinces_named("Spain");
    assert_eq!(spain.len(), 2);
    let coasts: Vec<ProvinceType> = spain.iter().map(|p| p.terrain).collect();
    assert!(coasts.contains(&ProvinceType::Land(Some(Coast::North))));
    assert!(coasts.contains(&ProvinceType::Land(Some(Coast::South))));
    assert!(spain[0].same_as(&spain[1]));
    assert!(!spain[0].same_coast_as(&spain[1]));
    assert!(spain[0] != spain[1]);
}

#[test]
fn provinces_named_keeps_catalog_order_and_misses_unknown_names() {
    let b = board();
    let spain = b.provinces_named("Spain");
    assert_eq!(spain[0], b.provinces[SPA_SC]);
    assert_eq!(spain[1], b.provinces[SPA_NC]);
    assert_eq!(codes(&b.provinces_named("Bohemia")), vec!["Boh"]);
    assert!(b.provinces_named("Atlantis").is_empty());
}

#[test]
fn gascony_and_marseilles_reach_different_coasts_of_spain() {
    let b = board();
    let gas = &b.provinces[GAS];
    let mar = &b.provinces[MAR];
    let nc = &b.provinces[SPA_NC];
    let sc = &b.provinces[SPA_SC];
    assert_eq!(gas.name, "Gascony");
    assert_eq!(mar.name, "Marseilles");
    assert_eq!(b.are_adjacent(gas, nc), Ok(true));
    assert_eq!(b.are_adjacent(gas, sc), Ok(false));
    assert_eq!(b.are_adjacent(mar, sc), Ok(true));
    assert_eq!(b.are_adjacent(mar, nc), Ok(false));
    assert_eq!(b.are_adjacent(nc, gas), Ok(true));
    assert_eq!(b.are_adjacent(sc, mar), Ok(true));
}

#[test]
fn russia_starts_with_a_fleet_on_the_south_coast_of_st_petersburg() {
    let b = board();
    let russia = b.nation_named("Russia").expect("Russia is a nation");
    let homes = &russia.home_supply_centers;
    assert_eq!(homes.len(), 3);
    assert_eq!(homes[0].0.name, "St. Petersburg");
    assert_eq!(homes[0].0.terrain, ProvinceType::Land(Some(Coast::South)));
    assert_eq!(homes[0].1, Unit::Fleet);
    assert_eq!(homes[0].0, b.provinces[STP_SC]);
    assert_eq!(homes[1].0.name, "Moscow");
    assert_eq!(homes[1].0.terrain, ProvinceType::Land(None));
    assert_eq!(homes[1].1, Unit::Army);
    assert_eq!(homes[1].0, b.provinces[MOS]);
    assert_eq!(homes[2].0.name, "Warsaw");
    assert_eq!(homes[2].0.terrain, ProvinceType::Land(None));
    assert_eq!(homes[2].1, Unit::Army);
}

#[test]
fn nation_named_finds_only_known_nations() {
    let b = board();
    assert_eq!(b.nation_named("Turkey").map(|n| n.name.clone()), Some("Turkey".to_string()));
    assert!(b.nation_named("Atlantis").is_none());
}

#[test]
fn water_regions_border_only_water_and_coasts() {
    let b = board();
    let mut seas = 0;
    for w in b.provinces.iter().filter(|p| p.terrain == ProvinceType::Water) {
        seas += 1;
        let ns = b.neighbors_of(w).expect("a region of the board");
        assert!(!ns.is_empty());
        for n in &ns {
            match n.terrain {
                ProvinceType::Water => {}
                ProvinceType::Land(_) => assert!(!INLAND.contains(&n.abbreviation.as_str())),
            }
        }
    }
    assert_eq!(seas, 19);
}

#[test]
fn neighbors_of_split_and_inland_regions() {
    let b = board();
    let sc = b.neighbors_of(&b.provinces[SPA_SC]).unwrap();
    assert_eq!(codes(&sc), vec!["Mar", "Por", "MAO", "WES", "LYO"]);
    let nc = b.neighbors_of(&b.provinces[SPA_NC]).unwrap();
    assert_eq!(codes(&nc), vec!["Gas", "Por", "MAO"]);
    let boh = b.neighbors_of(&b.provinces[BOH]).unwrap();
    assert_eq!(codes(&boh), vec!["Mun", "Sil", "Gal", "Vie", "Tyr"]);
    let nth = b.neighbors_of(&b.provinces[NTH]).unwrap();
    assert_eq!(
        codes(&nth),
        vec!["Edi", "Lon", "Yor", "Bel", "Den", "Hol", "Nwy", "ENG", "HEL", "NWG", "SKA"]
    );
}

#[test]
fn neighbors_agree_with_adjacency() {
    let b = board();
    for a in &b.provinces {
        let ns = b.neighbors_of(a).unwrap();
        for c in &b.provinces {
            let listed = ns.iter().any(|n| n.same_coast_as(c));
            assert_eq!(b.are_adjacent(a, c), Ok(listed));
        }
    }
}

#[test]
fn adjacency_is_symmetric() {
    let b = board();
    let mut edges = 0;
    for x in &b.provinces {
        for y in &b.provinces {
            let xy = b.are_adjacent(x, y);
            assert_eq!(xy, b.are_adjacent(y, x));
            if xy == Ok(true) {
                edges += 1;
            }
        }
    }
    assert_eq!(edges, 2 * 209);
}

#[test]
fn unknown_regions_are_reported_not_answered_false() {
    let b = board();
    let atlantis = Province::new("Atlantis", "Atl", ProvinceType::Water);
    let spa = b.provinces[SPA_SC].clone();
    assert_eq!(b.are_adjacent(&atlantis, &spa), Err(BoardError::UnknownRegion));
    assert_eq!(b.are_adjacent(&spa, &atlantis), Err(BoardError::UnknownRegion));
    assert_eq!(b.neighbors_of(&atlantis).err(), Some(BoardError::UnknownRegion));
    // Spain with no coast is not a region of the board: only its faces are.
    let bare_spain = Province::new("Spain", "Spa", ProvinceType::Land(None));
    assert_eq!(b.neighbors_of(&bare_spain).err(), Some(BoardError::UnknownRegion));
}

#[test]
fn standard_map_counts() {
    let b = board();
    assert_eq!(b.nations.len(), 7);
    for n in &b.nations {
        assert_eq!(n.home_supply_centers.len(), 3);
    }
    assert_eq!(b.provinces.len(), REGION_COUNT);
    assert_eq!(b.provinces.len(), 78);
    assert_eq!(b.adjacencies.len(), 209);
    let split: Vec<&str> = b
        .provinces
        .iter()
        .filter(|p| matches!(p.terrain, ProvinceType::Land(Some(_))))
        .map(|p| p.name.as_str())
        .collect();
    assert_eq!(split.len(), 6);
    for name in ["St. Petersburg", "Bulgaria", "Spain"] {
        assert_eq!(split.iter().filter(|n| **n == name).count(), 2);
        assert_eq!(b.provinces_named(name).len(), 2);
    }
}

#[test]
fn standard_board_is_valid() {
    let b = GameData::standard().expect("the standard board keeps every invariant");
    assert_eq!(b.validate(), Ok(()));
    assert_eq!(b.provinces.len(), 78);
}

fn same_board(a: &GameData, b: &GameData) -> bool {
    a.provinces == b.provinces
        && a.adjacencies == b.adjacencies
        && a.nations.len() == b.nations.len()
        && a.nations.iter().zip(b.nations.iter()).all(|(x, y)| {
            x.name == y.name && x.home_supply_centers == y.home_supply_centers
        })
}

#[test]
fn building_twice_gives_equal_boards() {
    let a = GameData::default();
    let b = GameData::default();
    assert!(same_board(&a, &b));
    let c = GameData::standard().unwrap();
    assert!(same_board(&a, &c));
}

fn small_parts() -> (Vec<Nation>, Vec<Province>, Vec<(Province, Province)>) {
    let bre = Province::new("Brest", "Bre", ProvinceType::Land(None));
    let par = Province::new("Paris", "Par", ProvinceType::Land(None));
    let eng = Province::new("English Channel", "ENG", ProvinceType::Water);
    let nation = Nation {
        name: "France".to_string(),
        home_supply_centers: vec![(bre.clone(), Unit::Fleet), (par.clone(), Unit::Army)],
    };
    let edges = vec![(bre.clone(), par.clone()), (bre.clone(), eng.clone())];
    (vec![nation], vec![bre, par, eng], edges)
}

#[test]
fn new_accepts_a_consistent_board() {
    let (n, p, e) = small_parts();
    let b = GameData::new(n, p, e).expect("valid");
    assert_eq!(b.are_adjacent(&b.provinces[0], &b.provinces[2]), Ok(true));
    assert_eq!(b.are_adjacent(&b.provinces[1], &b.provinces[2]), Ok(false));
}

#[test]
fn new_rejects_one_face_under_two_names() {
    let (n, mut p, e) = small_parts();
    p.push(Province::new("Paris Basin", "Par", ProvinceType::Land(None)));
    assert_eq!(GameData::new(n, p, e).err(), Some(BoardError::ConflictingRegion(1, 3)));
}

#[test]
fn new_accepts_two_faces_under_one_name() {
    let (n, mut p, e) = small_parts();
    p.push(Province::new("Spain", "Spa", ProvinceType::Land(Some(Coast::North))));
    p.push(Province::new("Spain", "Spa", ProvinceType::Land(Some(Coast::South))));
    assert!(GameData::new(n, p, e).is_ok());
}

#[test]
fn new_rejects_an_edge_to_an_unknown_region() {
    let (n, p, mut e) = small_parts();
    let pic = Province::new("Picardy", "Pic", ProvinceType::Land(None));
    e.push((p[1].clone(), pic));
    assert_eq!(GameData::new(n, p, e).err(), Some(BoardError::UnknownAdjacencyEndpoint(2)));
}

#[test]
fn new_rejects_an_unknown_home_territory() {
    let (mut n, p, e) = small_parts();
    let mar = Province::new("Marseilles", "Mar", ProvinceType::Land(None));
    n[0].home_supply_centers.push((mar, Unit::Army));
    assert_eq!(GameData::new(n, p, e).err(), Some(BoardError::UnknownHomeTerritory(0, 2)));
}

#[test]
fn new_rejects_a_fleet_inland_and_an_army_at_sea() {
    let (mut n, p, e) = small_parts();
    n[0].home_supply_centers[1].1 = Unit::Fleet;
    assert_eq!(GameData::new(n, p, e).err(), Some(BoardError::HomeUnitMismatch(0, 1)));
    let (mut n, p, e) = small_parts();
    n[0].home_supply_centers.push((p[2].clone(), Unit::Army));
    assert_eq!(GameData::new(n, p, e).err(), Some(BoardError::HomeUnitMismatch(0, 2)));
}

#[test]
fn new_rejects_a_home_territory_bound_twice() {
    let (mut n, p, e) = small_parts();
    let again = Nation {
        name: "Brittany".to_string(),
        home_supply_centers: vec![(p[0].clone(), Unit::Army)],
    };
    n.push(again);
    assert_eq!(GameData::new(n, p, e).err(), Some(BoardError::RepeatedHomeTerritory(1, 0)));
}

#[test]
fn validate_reports_the_first_violation() {
    let (mut n, mut p, mut e) = small_parts();
    let pic = Province::new("Picardy", "Pic", ProvinceType::Land(None));
    e.push((p[1].clone(), pic));
    n[0].home_supply_centers[1].1 = Unit::Fleet;
    let b = GameData { nations: n.clone(), provinces: p.clone(), adjacencies: e.clone() };
    assert_eq!(b.validate(), Err(BoardError::UnknownAdjacencyEndpoint(2)));
    p.push(Province::new("Brest Harbour", "Bre", ProvinceType::Land(None)));
    let b = GameData { nations: n, provinces: p, adjacencies: e };
    assert_eq!(b.validate(), Err(BoardError::ConflictingRegion(0, 3)));
}
