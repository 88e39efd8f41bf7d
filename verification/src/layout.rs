//! Where the cells of the field lie in a window, for a program that draws the
//! game. Row zero is the bottom row of the drawn field.

use crate::field::FieldView;
use crate::field::GameField;
use crate::grid::GridPosition;
use vstd::prelude::*;

verus! {

/// The distance between the edges of the window and the drawn field, in
/// pixels.
pub const MARGIN: u32 = 80;

/// The side of the square that one cell is drawn as, in pixels.
pub const PIXEL_SIZE: u32 = 20;

/// A rectangle of pixels: its top left corner and its size.
#[derive(Clone, Copy, Debug, PartialEq, Eq, Structural)]
pub struct PixelRect {
    pub x: i32,
    pub y: i32,
    pub width: u32,
    pub height: u32,
}

/// The distance of the lower edge of the drawn field from the top of the
/// window.
pub open spec fn field_bottom(field: FieldView) -> int {
    PIXEL_SIZE * field.height + MARGIN
}

/// The left edge of the square of `p`.
pub open spec fn cell_left(p: GridPosition) -> int {
    MARGIN + p.x * PIXEL_SIZE
}

/// The upper edge of the square of `p`.
pub open spec fn cell_top(field: FieldView, p: GridPosition) -> int {
    field_bottom(field) - (p.y + 1) * PIXEL_SIZE
}

/// Whether a coordinate fits the window's coordinates.
pub open spec fn fits_pixel(v: int) -> bool {
    i32::MIN <= v <= i32::MAX
}

/// A number of cells, in pixels.
fn scaled(cells: i64) -> (pixels: i64)
    requires
        -0x1_0000_0000 <= cells <= 0x1_0000_0000,
    ensures
        pixels == cells * PIXEL_SIZE,
        pixels == PIXEL_SIZE * cells,
{
    let size: i64 = PIXEL_SIZE as i64;
    assert(cells * size == cells * 20 && size * cells == cells * 20) by (nonlinear_arith)
        requires
            size == 20,
    ;
    cells * size
}

/// The rectangle that the whole field is drawn as: `MARGIN` pixels from the
/// left and from the top, `PIXEL_SIZE` pixels for each column and each row.
/// `None` when a side is too long for the window's coordinates.
pub fn field_rect(field: &GameField) -> (r: Option<PixelRect>)
    ensures
        r is Some <==> PIXEL_SIZE * field@.width <= u32::MAX && PIXEL_SIZE * field@.height
            <= u32::MAX,
        r matches Some(rect) ==> rect.x == MARGIN && rect.y == MARGIN && rect.width == PIXEL_SIZE
            * field@.width && rect.height == PIXEL_SIZE * field@.height,
{
    let width: i64 = scaled(field.width() as i64);
    let height: i64 = scaled(field.height() as i64);
    if width > u32::MAX as i64 || height > u32::MAX as i64 {
        None
    } else {
        Some(
            PixelRect {
                x: MARGIN as i32,
                y: MARGIN as i32,
                width: width as u32,
                height: height as u32,
            },
        )
    }
}

/// The square that the cell `p` is drawn as. Columns go to the right from the
/// left edge of the field, rows go up from its lower edge. `None` when a
/// corner does not fit the window's coordinates.
pub fn cell_rect(field: &GameField, p: GridPosition) -> (r: Option<PixelRect>)
    ensures
        r is Some <==> fits_pixel(cell_left(p)) && fits_pixel(cell_top(field@, p)),
        r matches Some(rect) ==> rect.x == cell_left(p) && rect.y == cell_top(field@, p)
            && rect.width == PIXEL_SIZE && rect.height == PIXEL_SIZE,
{
    let left: i64 = MARGIN as i64 + scaled(p.x as i64);
    let bottom: i64 = scaled(field.height() as i64) + MARGIN as i64;
    let top: i64 = bottom - scaled(p.y as i64 + 1);
    if left < i32::MIN as i64 || left > i32::MAX as i64 || top < i32::MIN as i64 || top
        > i32::MAX as i64 {
        None
    } else {
        Some(PixelRect { x: left as i32, y: top as i32, width: PIXEL_SIZE, height: PIXEL_SIZE })
    }
}

/// The squares of the cells of a field lie inside the rectangle of the field.
pub proof fn lemma_cell_inside_field_rect(field: FieldView, p: GridPosition)
    requires
        field.wf(),
        field.contains(p),
    ensures
        MARGIN <= cell_left(p),
        cell_left(p) + PIXEL_SIZE <= MARGIN + PIXEL_SIZE * field.width,
        MARGIN <= cell_top(field, p),
        cell_top(field, p) + PIXEL_SIZE <= MARGIN + PIXEL_SIZE * field.height,
{
    assert(p.x * PIXEL_SIZE == p.x * 20 && (p.y + 1) * PIXEL_SIZE == (p.y + 1) * 20 && PIXEL_SIZE
        * field.width == field.width * 20 && PIXEL_SIZE * field.height == field.height * 20)
        by (nonlinear_arith)
        requires
            PIXEL_SIZE == 20,
    ;
}

} // verus!
