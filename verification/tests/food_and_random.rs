use snake::field::GameField;
use snake::food::count_free_cells;
use snake::food::nth_free_cell;
use snake::food::Food;
use snake::grid::BoundaryPolicy;
use snake::grid::GridPosition;
use snake::random::RandomSource;
use snake::snake::occupies;

fn spot(x: i32, y: i32) -> GridPosition {
    GridPosition { x, y }
}

fn spots(points: &[(i32, i32)]) -> Vec<GridPosition> {
    points.iter().map(|&(x, y)| spot(x, y)).collect()
}

fn small_field() -> GameField {
    GameField::new(3, 2, BoundaryPolicy::Wrap).unwrap()
}

#[test]
fn food_starts_at_its_standard_place() {
    assert_eq!(Food::new().position, spot(40, 28));
}

#[test]
fn count_of_free_cells_on_an_empty_field() {
    assert_eq!(count_free_cells(&small_field(), &Vec::new()), 6);
    let single = GameField::new(1, 1, BoundaryPolicy::Lethal).unwrap();
    assert_eq!(count_free_cells(&single, &Vec::new()), 1);
    let standard = GameField::new(60, 40, BoundaryPolicy::Wrap).unwrap();
    assert_eq!(count_free_cells(&standard, &Vec::new()), 2400);
}

#[test]
fn count_of_free_cells_ignores_repeats_and_cells_outside() {
    let occupied = spots(&[(0, 0), (2, 1), (5, 5), (0, 0), (-1, 0), (3, 0), (0, 2)]);
    assert_eq!(count_free_cells(&small_field(), &occupied), 4);
}

#[test]
fn count_of_free_cells_on_a_full_field() {
    let occupied = spots(&[(0, 0), (1, 0), (2, 0), (0, 1), (1, 1), (2, 1)]);
    assert_eq!(count_free_cells(&small_field(), &occupied), 0);
}

#[test]
fn nth_free_cell_goes_row_by_row() {
    let occupied = spots(&[(0, 0), (2, 1)]);
    let field = small_field();
    assert_eq!(nth_free_cell(&field, &occupied, 0), Some(spot(1, 0)));
    assert_eq!(nth_free_cell(&field, &occupied, 1), Some(spot(2, 0)));
    assert_eq!(nth_free_cell(&field, &occupied, 2), Some(spot(0, 1)));
    assert_eq!(nth_free_cell(&field, &occupied, 3), Some(spot(1, 1)));
    assert_eq!(nth_free_cell(&field, &occupied, 4), None);
    assert_eq!(nth_free_cell(&field, &occupied, u64::MAX), None);
}

#[test]
fn nth_free_cell_on_an_empty_field() {
    let field = small_field();
    let none: Vec<GridPosition> = Vec::new();
    assert_eq!(nth_free_cell(&field, &none, 0), Some(spot(0, 0)));
    assert_eq!(nth_free_cell(&field, &none, 2), Some(spot(2, 0)));
    assert_eq!(nth_free_cell(&field, &none, 3), Some(spot(0, 1)));
    assert_eq!(nth_free_cell(&field, &none, 5), Some(spot(2, 1)));
    assert_eq!(nth_free_cell(&field, &none, 6), None);
}

#[test]
fn nth_free_cell_on_a_full_field() {
    let occupied = spots(&[(0, 0), (1, 0), (2, 0), (0, 1), (1, 1), (2, 1)]);
    assert_eq!(nth_free_cell(&small_field(), &occupied, 0), None);
}

#[test]
fn every_free_cell_has_its_own_number() {
    let occupied = spots(&[(1, 1), (3, 0), (0, 2)]);
    let field = GameField::new(4, 3, BoundaryPolicy::Lethal).unwrap();
    let free = count_free_cells(&field, &occupied);
    assert_eq!(free, 9);
    let mut found: Vec<GridPosition> = Vec::new();
    for k in 0..free {
        let p = nth_free_cell(&field, &occupied, k).unwrap();
        assert!(field.contains(p));
        assert!(!occupies(&occupied, p));
        assert!(!occupies(&found, p));
        found.push(p);
    }
    assert_eq!(found.len(), 9);
}

#[test]
fn respawn_gives_a_free_cell_of_the_field() {
    let field = GameField::new(6, 5, BoundaryPolicy::Wrap).unwrap();
    let occupied = spots(&[(0, 0), (1, 0), (2, 0), (3, 0), (4, 0), (5, 0), (2, 2), (-1, 3)]);
    for seed in 0..50 {
        let mut source = RandomSource::from_seed(seed);
        for _ in 0..20 {
            let p = Food::respawn(&field, &occupied, &mut source).unwrap();
            assert!(field.contains(p), "{:?} lies outside the field", p);
            assert!(!occupies(&occupied, p), "{:?} is occupied", p);
        }
    }
}

#[test]
fn respawn_reaches_every_free_cell() {
    let field = small_field();
    let occupied = spots(&[(0, 0), (2, 1)]);
    let mut source = RandomSource::from_seed(7);
    let mut seen: Vec<GridPosition> = Vec::new();
    for _ in 0..400 {
        let p = Food::respawn(&field, &occupied, &mut source).unwrap();
        if !occupies(&seen, p) {
            seen.push(p);
        }
    }
    assert_eq!(seen.len(), 4);
}

#[test]
fn respawn_takes_the_only_free_cell() {
    let field = small_field();
    let occupied = spots(&[(0, 0), (1, 0), (2, 0), (0, 1), (2, 1)]);
    let mut source = RandomSource::from_seed(3);
    for _ in 0..10 {
        assert_eq!(Food::respawn(&field, &occupied, &mut source), Some(spot(1, 1)));
    }
}

#[test]
fn respawn_finds_no_place_on_a_full_field() {
    let field = small_field();
    let occupied = spots(&[(0, 0), (1, 0), (2, 0), (0, 1), (1, 1), (2, 1)]);
    let mut source = RandomSource::from_seed(3);
    assert_eq!(Food::respawn(&field, &occupied, &mut source), None);
}

#[test]
fn random_number_is_below_its_bound() {
    for seed in 0..20 {
        let mut source = RandomSource::from_seed(seed);
        for bound in [1u64, 2, 3, 10, 2400, u64::MAX] {
            for _ in 0..50 {
                let k = source.below(bound).unwrap();
                assert!(k < bound, "{} is not below {}", k, bound);
            }
        }
    }
}

#[test]
fn random_number_below_one_is_zero() {
    let mut source = RandomSource::from_seed(11);
    for _ in 0..20 {
        assert_eq!(source.below(1), Some(0));
    }
}

#[test]
fn nothing_is_below_zero() {
    let mut source = RandomSource::from_seed(11);
    assert_eq!(source.below(0), None);
}

#[test]
fn random_numbers_vary() {
    let mut source = RandomSource::from_seed(5);
    let first = source.below(u64::MAX).unwrap();
    let mut differs = false;
    for _ in 0..20 {
        if source.below(u64::MAX).unwrap() != first {
            differs = true;
        }
    }
    assert!(differs);
}

#[test]
fn equal_seeds_give_equal_sources() {
    for seed in [0u64, 1, 7, u64::MAX] {
        let mut first = RandomSource::from_seed(seed);
        let mut second = RandomSource::from_seed(seed);
        for bound in [1u64, 6, 2400, u64::MAX] {
            for _ in 0..25 {
                assert_eq!(first.below(bound), second.below(bound));
            }
        }
    }
}

#[test]
fn the_seed_decides_the_source() {
    let mut first = RandomSource::from_seed(1);
    let mut second = RandomSource::from_seed(2);
    let mut differs = false;
    for _ in 0..20 {
        if first.below(u64::MAX) != second.below(u64::MAX) {
            differs = true;
        }
    }
    assert!(differs);
}
