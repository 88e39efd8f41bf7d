use snake::direction::SnakeDirection;
use snake::error::GameError;
use snake::field::GameField;
use snake::grid::apply_boundary;
use snake::grid::BoundaryPolicy;
use snake::grid::GridPosition;

fn all_directions() -> Vec<SnakeDirection> {
    vec![SnakeDirection::Up, SnakeDirection::Down, SnakeDirection::Left, SnakeDirection::Right]
}

fn at(x: i32, y: i32) -> GridPosition {
    GridPosition { x, y }
}

#[test]
fn opposite_pairs_are_exactly_up_down_and_left_right() {
    for a in all_directions() {
        for b in all_directions() {
            let expected = matches!(
                (a, b),
                (SnakeDirection::Up, SnakeDirection::Down)
                    | (SnakeDirection::Down, SnakeDirection::Up)
                    | (SnakeDirection::Left, SnakeDirection::Right)
                    | (SnakeDirection::Right, SnakeDirection::Left)
            );
            assert_eq!(a.is_opposite(b), expected, "{:?} against {:?}", a, b);
        }
    }
}

#[test]
fn opposite_is_symmetric() {
    for a in all_directions() {
        for b in all_directions() {
            assert_eq!(a.is_opposite(b), b.is_opposite(a));
        }
    }
}

#[test]
fn no_direction_is_opposite_to_itself() {
    for a in all_directions() {
        assert!(!a.is_opposite(a));
    }
}

#[test]
fn perpendicular_directions_are_not_opposite() {
    assert!(!SnakeDirection::Up.is_opposite(SnakeDirection::Left));
    assert!(!SnakeDirection::Up.is_opposite(SnakeDirection::Right));
    assert!(!SnakeDirection::Left.is_opposite(SnakeDirection::Down));
    assert!(!SnakeDirection::Right.is_opposite(SnakeDirection::Up));
}

#[test]
fn step_moves_one_cell() {
    let p = at(5, 5);
    assert_eq!(p.step(SnakeDirection::Up), at(5, 6));
    assert_eq!(p.step(SnakeDirection::Down), at(5, 4));
    assert_eq!(p.step(SnakeDirection::Left), at(4, 5));
    assert_eq!(p.step(SnakeDirection::Right), at(6, 5));
}

#[test]
fn step_reaches_the_ends_of_the_coordinate_range() {
    assert_eq!(at(i32::MAX - 1, 0).step(SnakeDirection::Right), at(i32::MAX, 0));
    assert_eq!(at(i32::MIN + 1, 0).step(SnakeDirection::Left), at(i32::MIN, 0));
    assert_eq!(at(0, i32::MAX - 1).step(SnakeDirection::Up), at(0, i32::MAX));
    assert_eq!(at(0, i32::MIN + 1).step(SnakeDirection::Down), at(0, i32::MIN));
}

#[test]
fn wrap_takes_the_remainder() {
    assert_eq!(apply_boundary(10, 10, BoundaryPolicy::Wrap), (0, false));
    assert_eq!(apply_boundary(-1, 10, BoundaryPolicy::Wrap), (9, false));
    assert_eq!(apply_boundary(0, 10, BoundaryPolicy::Wrap), (0, false));
    assert_eq!(apply_boundary(9, 10, BoundaryPolicy::Wrap), (9, false));
    assert_eq!(apply_boundary(25, 10, BoundaryPolicy::Wrap), (5, false));
    assert_eq!(apply_boundary(-10, 10, BoundaryPolicy::Wrap), (0, false));
    assert_eq!(apply_boundary(-11, 10, BoundaryPolicy::Wrap), (9, false));
    assert_eq!(apply_boundary(-25, 10, BoundaryPolicy::Wrap), (5, false));
}

#[test]
fn wrap_at_the_ends_of_the_coordinate_range() {
    assert_eq!(apply_boundary(i32::MIN, 10, BoundaryPolicy::Wrap), (2, false));
    assert_eq!(apply_boundary(i32::MAX, 10, BoundaryPolicy::Wrap), (7, false));
    assert_eq!(apply_boundary(i32::MIN, i32::MAX as u32, BoundaryPolicy::Wrap), (i32::MAX - 1, false));
    assert_eq!(apply_boundary(i32::MAX, i32::MAX as u32, BoundaryPolicy::Wrap), (0, false));
    assert_eq!(apply_boundary(-7, 1, BoundaryPolicy::Wrap), (0, false));
}

#[test]
fn lethal_boundary_keeps_the_coordinate() {
    assert_eq!(apply_boundary(10, 10, BoundaryPolicy::Lethal), (10, true));
    assert_eq!(apply_boundary(-1, 10, BoundaryPolicy::Lethal), (-1, true));
    assert_eq!(apply_boundary(0, 10, BoundaryPolicy::Lethal), (0, false));
    assert_eq!(apply_boundary(9, 10, BoundaryPolicy::Lethal), (9, false));
    assert_eq!(apply_boundary(i32::MAX, i32::MAX as u32, BoundaryPolicy::Lethal), (i32::MAX, true));
    assert_eq!(apply_boundary(i32::MIN, 1, BoundaryPolicy::Lethal), (i32::MIN, true));
}

#[test]
fn field_needs_positive_dimensions() {
    assert_eq!(GameField::new(0, 10, BoundaryPolicy::Wrap).err(), Some(GameError::InvalidConfig));
    assert_eq!(GameField::new(10, 0, BoundaryPolicy::Wrap).err(), Some(GameError::InvalidConfig));
    assert_eq!(GameField::new(0, 0, BoundaryPolicy::Lethal).err(), Some(GameError::InvalidConfig));
    assert!(GameField::new(1, 1, BoundaryPolicy::Lethal).is_ok());
}

#[test]
fn field_dimensions_must_be_coordinates() {
    let too_large = i32::MAX as u32 + 1;
    assert_eq!(
        GameField::new(too_large, 10, BoundaryPolicy::Wrap).err(),
        Some(GameError::InvalidConfig)
    );
    assert_eq!(
        GameField::new(10, u32::MAX, BoundaryPolicy::Wrap).err(),
        Some(GameError::InvalidConfig)
    );
    assert!(GameField::new(i32::MAX as u32, i32::MAX as u32, BoundaryPolicy::Wrap).is_ok());
}

#[test]
fn field_reports_what_it_was_made_with() {
    let field = GameField::new(60, 40, BoundaryPolicy::Lethal).unwrap();
    assert_eq!(field.width(), 60);
    assert_eq!(field.height(), 40);
    assert_eq!(field.policy(), BoundaryPolicy::Lethal);
}

#[test]
fn field_contains_its_cells_only() {
    let field = GameField::new(10, 5, BoundaryPolicy::Wrap).unwrap();
    assert!(field.contains(at(0, 0)));
    assert!(field.contains(at(9, 4)));
    assert!(!field.contains(at(10, 4)));
    assert!(!field.contains(at(9, 5)));
    assert!(!field.contains(at(-1, 0)));
    assert!(!field.contains(at(0, -1)));
}

#[test]
fn settle_wraps_both_coordinates() {
    let field = GameField::new(10, 5, BoundaryPolicy::Wrap).unwrap();
    assert_eq!(field.settle(at(10, 5)), (at(0, 0), false));
    assert_eq!(field.settle(at(-1, -1)), (at(9, 4), false));
    assert_eq!(field.settle(at(3, 2)), (at(3, 2), false));
}

#[test]
fn settle_reports_a_deadly_edge_on_either_axis() {
    let field = GameField::new(10, 5, BoundaryPolicy::Lethal).unwrap();
    assert_eq!(field.settle(at(10, 2)), (at(10, 2), true));
    assert_eq!(field.settle(at(3, 5)), (at(3, 5), true));
    assert_eq!(field.settle(at(-1, 2)), (at(-1, 2), true));
    assert_eq!(field.settle(at(3, -1)), (at(3, -1), true));
    assert_eq!(field.settle(at(3, 2)), (at(3, 2), false));
}

#[test]
fn error_has_a_message() {
    assert_eq!(GameError::InvalidConfig.message(), "invalid configuration");
}
