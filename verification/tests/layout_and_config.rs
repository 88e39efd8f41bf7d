use snake::config::Config;
use snake::field::GameField;
use snake::grid::BoundaryPolicy;
use snake::grid::GridPosition;
use snake::layout::cell_rect;
use snake::layout::field_rect;
use snake::layout::PixelRect;
use snake::layout::MARGIN;
use snake::layout::PIXEL_SIZE;

fn standard_field() -> GameField {
    GameField::new(60, 40, BoundaryPolicy::Wrap).unwrap()
}

#[test]
fn standard_configuration() {
    let config = Config::new();
    assert_eq!(config.window_width, 1360);
    assert_eq!(config.window_height, 960);
    assert_eq!(config.field_width, 60);
    assert_eq!(config.field_height, 40);
    assert_eq!(config.start_x, 10);
    assert_eq!(config.start_y, 20);
    assert_eq!(config.initial_length, 10);
    assert_eq!(config.tick_interval_ms, 50);
    assert_eq!(config.boundary, BoundaryPolicy::Wrap);
}

#[test]
fn layout_constants() {
    assert_eq!(MARGIN, 80);
    assert_eq!(PIXEL_SIZE, 20);
}

#[test]
fn field_rect_of_the_standard_field() {
    assert_eq!(
        field_rect(&standard_field()),
        Some(PixelRect { x: 80, y: 80, width: 1200, height: 800 })
    );
}

#[test]
fn field_rect_of_the_largest_field_that_fits() {
    let widest = u32::MAX / 20;
    let field = GameField::new(widest, 1, BoundaryPolicy::Wrap).unwrap();
    assert_eq!(
        field_rect(&field),
        Some(PixelRect { x: 80, y: 80, width: widest * 20, height: 20 })
    );
    let wider = GameField::new(widest + 1, 1, BoundaryPolicy::Wrap).unwrap();
    assert_eq!(field_rect(&wider), None);
    let taller = GameField::new(1, widest + 1, BoundaryPolicy::Wrap).unwrap();
    assert_eq!(field_rect(&taller), None);
}

#[test]
fn cell_rect_counts_rows_from_the_bottom() {
    let field = standard_field();
    assert_eq!(
        cell_rect(&field, GridPosition { x: 0, y: 0 }),
        Some(PixelRect { x: 80, y: 860, width: 20, height: 20 })
    );
    assert_eq!(
        cell_rect(&field, GridPosition { x: 10, y: 20 }),
        Some(PixelRect { x: 280, y: 460, width: 20, height: 20 })
    );
    assert_eq!(
        cell_rect(&field, GridPosition { x: 59, y: 39 }),
        Some(PixelRect { x: 1260, y: 80, width: 20, height: 20 })
    );
    assert_eq!(
        cell_rect(&field, GridPosition { x: 40, y: 28 }),
        Some(PixelRect { x: 880, y: 300, width: 20, height: 20 })
    );
}

#[test]
fn cell_rect_of_a_cell_outside_the_field() {
    let field = standard_field();
    assert_eq!(
        cell_rect(&field, GridPosition { x: -1, y: -1 }),
        Some(PixelRect { x: 60, y: 880, width: 20, height: 20 })
    );
    assert_eq!(
        cell_rect(&field, GridPosition { x: -4, y: 40 }),
        Some(PixelRect { x: 0, y: 60, width: 20, height: 20 })
    );
    assert_eq!(
        cell_rect(&field, GridPosition { x: -5, y: 44 }),
        Some(PixelRect { x: -20, y: -20, width: 20, height: 20 })
    );
}

#[test]
fn cell_rect_that_does_not_fit() {
    let field = standard_field();
    assert_eq!(cell_rect(&field, GridPosition { x: i32::MAX, y: 0 }), None);
    assert_eq!(cell_rect(&field, GridPosition { x: i32::MIN, y: 0 }), None);
    assert_eq!(cell_rect(&field, GridPosition { x: 0, y: i32::MAX }), None);
    assert_eq!(cell_rect(&field, GridPosition { x: 0, y: i32::MIN }), None);
    let last = (i32::MAX - 80) / 20;
    assert_eq!(
        cell_rect(&field, GridPosition { x: last, y: 0 }),
        Some(PixelRect { x: 80 + last * 20, y: 860, width: 20, height: 20 })
    );
    assert_eq!(cell_rect(&field, GridPosition { x: last + 1, y: 0 }), None);
}
