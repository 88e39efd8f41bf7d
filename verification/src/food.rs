//! The food, the free cells of a field, and how a new place for the food is
//! chosen among them.

use crate::field::FieldView;
use crate::field::GameField;
use crate::grid::GridPosition;
use crate::random::RandomSource;
use crate::snake::occupies;
use vstd::prelude::*;
use vstd::set_lib::lemma_set_disjoint_lens;

verus! {

/// The food: one cell of the grid.
#[derive(Clone, Copy, Debug, PartialEq, Eq, Structural)]
pub struct Food {
    pub position: GridPosition,
}

/// The free cells of the field: those that are not among `occupied`.
pub open spec fn free_cells(field: FieldView, occupied: Seq<GridPosition>) -> Set<GridPosition> {
    Set::new(|p: GridPosition| field.contains(p) && !occupied.contains(p))
}

/// Whether some cell of the field is free.
pub open spec fn has_free_cell(field: FieldView, occupied: Seq<GridPosition>) -> bool {
    exists|p: GridPosition|
        #![trigger occupied.contains(p)]
        field.contains(p) && !occupied.contains(p)
}

/// Whether `a` comes before `b` when the grid is read row by row from row
/// zero, each row from column zero.
pub open spec fn comes_before(a: GridPosition, b: GridPosition) -> bool {
    a.y < b.y || (a.y == b.y && a.x < b.x)
}

/// The free cells of the field that come before `p`.
pub open spec fn free_cells_before(
    field: FieldView,
    occupied: Seq<GridPosition>,
    p: GridPosition,
) -> Set<GridPosition> {
    Set::new(|q: GridPosition| field.contains(q) && !occupied.contains(q) && comes_before(q, p))
}

/// The cell in column `x` of row `y`.
spec fn cell(x: int, y: int) -> GridPosition {
    GridPosition { x: x as i32, y: y as i32 }
}

/// How many of the first `n` cells of row `y` are free.
spec fn free_in_row(occupied: Seq<GridPosition>, y: int, n: int) -> nat
    decreases n,
{
    if n <= 0 {
        0
    } else {
        free_in_row(occupied, y, n - 1) + if occupied.contains(cell(n - 1, y)) {
            0nat
        } else {
            1nat
        }
    }
}

/// How many cells of the first `m` rows, each `width` cells long, are free.
spec fn free_in_rows(occupied: Seq<GridPosition>, width: int, m: int) -> nat
    decreases m,
{
    if m <= 0 {
        0
    } else {
        free_in_rows(occupied, width, m - 1) + free_in_row(occupied, m - 1, width)
    }
}

/// The free cells among the first `n` of row `y`.
spec fn row_set(occupied: Seq<GridPosition>, y: int, n: int) -> Set<GridPosition> {
    Set::new(|p: GridPosition| p.y == y && 0 <= p.x < n && !occupied.contains(p))
}

/// The free cells of the first `m` rows, each `width` cells long.
spec fn rows_set(occupied: Seq<GridPosition>, width: int, m: int) -> Set<GridPosition> {
    Set::new(|p: GridPosition| 0 <= p.y < m && 0 <= p.x < width && !occupied.contains(p))
}

/// Counting along a row counts the free cells of the row.
proof fn lemma_row_count(occupied: Seq<GridPosition>, y: int, n: int)
    requires
        0 <= n <= i32::MAX + 1,
        i32::MIN <= y <= i32::MAX,
    ensures
        row_set(occupied, y, n).finite(),
        row_set(occupied, y, n).len() == free_in_row(occupied, y, n),
    decreases n,
{
    if n == 0 {
        assert(row_set(occupied, y, n) =~= Set::empty());
    } else {
        lemma_row_count(occupied, y, n - 1);
        let c = cell(n - 1, y);
        if occupied.contains(c) {
            assert(row_set(occupied, y, n) =~= row_set(occupied, y, n - 1));
        } else {
            assert(row_set(occupied, y, n) =~= row_set(occupied, y, n - 1).insert(c));
        }
    }
}

/// Counting row by row counts the free cells of the rows.
proof fn lemma_rows_count(occupied: Seq<GridPosition>, width: int, m: int)
    requires
        0 <= width <= i32::MAX + 1,
        0 <= m <= i32::MAX + 1,
    ensures
        rows_set(occupied, width, m).finite(),
        rows_set(occupied, width, m).len() == free_in_rows(occupied, width, m),
    decreases m,
{
    if m == 0 {
        assert(rows_set(occupied, width, m) =~= Set::empty());
    } else {
        lemma_rows_count(occupied, width, m - 1);
        lemma_row_count(occupied, m - 1, width);
        let above = rows_set(occupied, width, m - 1);
        let last = row_set(occupied, m - 1, width);
        assert(above.disjoint(last));
        lemma_set_disjoint_lens(above, last);
        assert(rows_set(occupied, width, m) =~= above + last);
    }
}

/// The free cells of a field are finitely many, and counting row by row
/// counts them.
proof fn lemma_field_count(field: FieldView, occupied: Seq<GridPosition>)
    requires
        field.wf(),
    ensures
        free_cells(field, occupied).finite(),
        free_cells(field, occupied).len() == free_in_rows(occupied, field.width, field.height),
{
    lemma_rows_count(occupied, field.width, field.height);
    assert(free_cells(field, occupied) =~= rows_set(occupied, field.width, field.height));
}

/// Counting up to a cell of the field counts the free cells before it.
proof fn lemma_before_count(field: FieldView, occupied: Seq<GridPosition>, p: GridPosition)
    requires
        field.wf(),
        field.contains(p),
    ensures
        free_cells_before(field, occupied, p).finite(),
        free_cells_before(field, occupied, p).len() == free_in_rows(
            occupied,
            field.width,
            p.y as int,
        ) + free_in_row(occupied, p.y as int, p.x as int),
{
    lemma_rows_count(occupied, field.width, p.y as int);
    lemma_row_count(occupied, p.y as int, p.x as int);
    let above = rows_set(occupied, field.width, p.y as int);
    let left = row_set(occupied, p.y as int, p.x as int);
    assert(above.disjoint(left));
    lemma_set_disjoint_lens(above, left);
    assert(free_cells_before(field, occupied, p) =~= above + left);
}

/// The free cells of a field are finitely many; there is one exactly when
/// their number is positive.
pub proof fn lemma_free_cells_finite(field: FieldView, occupied: Seq<GridPosition>)
    requires
        field.wf(),
    ensures
        free_cells(field, occupied).finite(),
        free_cells(field, occupied).len() > 0 <==> has_free_cell(field, occupied),
        free_cells(field, occupied).len() == 0 <==> forall|p: GridPosition|
            field.contains(p) ==> occupied.contains(p),
{
    lemma_field_count(field, occupied);
    let free = free_cells(field, occupied);
    if free.len() > 0 {
        let p = free.choose();
        assert(free.contains(p));
        assert(field.contains(p) && !occupied.contains(p));
    }
    if has_free_cell(field, occupied) {
        let p = choose|p: GridPosition|
            #![trigger occupied.contains(p)]
            field.contains(p) && !occupied.contains(p);
        assert(free.contains(p));
    }
    if forall|p: GridPosition| field.contains(p) ==> occupied.contains(p) {
        assert(free =~= Set::empty());
    }
}

/// The free cells before a cell of the field are finitely many, and fewer
/// than the free cells of the field if the cell is free itself. Of two free
/// cells, the one that comes first has fewer free cells before it.
pub proof fn lemma_free_cells_before(
    field: FieldView,
    occupied: Seq<GridPosition>,
    p: GridPosition,
    q: GridPosition,
)
    requires
        field.wf(),
        field.contains(p),
        field.contains(q),
        !occupied.contains(p),
    ensures
        free_cells_before(field, occupied, p).finite(),
        free_cells_before(field, occupied, p).len() < free_cells(field, occupied).len(),
        comes_before(p, q) ==> free_cells_before(field, occupied, p).len() < free_cells_before(
            field,
            occupied,
            q,
        ).len(),
{
    lemma_before_count(field, occupied, p);
    lemma_before_count(field, occupied, q);
    lemma_field_count(field, occupied);
    assert(p == cell(p.x as int, p.y as int));
    lemma_row_monotonic(occupied, p.y as int, p.x as int + 1, field.width);
    lemma_rows_monotonic(occupied, field.width, p.y as int + 1, field.height);
    if comes_before(p, q) {
        if p.y == q.y {
            lemma_row_monotonic(occupied, p.y as int, p.x as int + 1, q.x as int);
        } else {
            lemma_rows_monotonic(occupied, field.width, p.y as int + 1, q.y as int);
        }
    }
}

/// A count along a row grows with the number of cells looked at.
proof fn lemma_row_monotonic(occupied: Seq<GridPosition>, y: int, a: int, b: int)
    requires
        a <= b,
    ensures
        free_in_row(occupied, y, a) <= free_in_row(occupied, y, b),
    decreases b - a,
{
    if a < b {
        lemma_row_monotonic(occupied, y, a, b - 1);
    }
}

/// A count over rows grows with the number of rows looked at.
proof fn lemma_rows_monotonic(occupied: Seq<GridPosition>, width: int, a: int, b: int)
    requires
        a <= b,
    ensures
        free_in_rows(occupied, width, a) <= free_in_rows(occupied, width, b),
    decreases b - a,
{
    if a < b {
        lemma_rows_monotonic(occupied, width, a, b - 1);
    }
}

/// A row has at most as many free cells as cells.
proof fn lemma_row_bound(occupied: Seq<GridPosition>, y: int, n: int)
    requires
        0 <= n,
    ensures
        free_in_row(occupied, y, n) <= n,
    decreases n,
{
    if n > 0 {
        lemma_row_bound(occupied, y, n - 1);
    }
}

/// The first `m` rows have at most as many free cells as cells.
proof fn lemma_rows_bound(occupied: Seq<GridPosition>, width: int, m: int)
    requires
        0 <= width,
        0 <= m,
    ensures
        free_in_rows(occupied, width, m) <= m * width,
    decreases m,
{
    if m > 0 {
        lemma_rows_bound(occupied, width, m - 1);
        lemma_row_bound(occupied, m - 1, width);
        assert((m - 1) * width + width == m * width) by (nonlinear_arith);
    } else {
        assert(0 * width == 0);
    }
}

/// Counts the free cells of the field.
pub fn count_free_cells(field: &GameField, occupied: &Vec<GridPosition>) -> (n: u64)
    ensures
        free_cells(field@, occupied@).finite(),
        n == free_cells(field@, occupied@).len(),
{
    let w: u32 = field.width();
    let h: u32 = field.height();
    let mut count: u64 = 0;
    let mut y: u32 = 0;
    while y < h
        invariant
            y <= h,
            0 < w <= i32::MAX,
            0 < h <= i32::MAX,
            w == field@.width,
            h == field@.height,
            count == free_in_rows(occupied@, w as int, y as int),
        decreases h - y,
    {
        let ghost base: nat = count as nat;
        let mut x: u32 = 0;
        while x < w
            invariant
                x <= w,
                y < h,
                0 < w <= i32::MAX,
                0 < h <= i32::MAX,
                base == free_in_rows(occupied@, w as int, y as int),
                count == base + free_in_row(occupied@, y as int, x as int),
            decreases w - x,
        {
            proof {
                lemma_rows_bound(occupied@, w as int, y as int);
                lemma_row_bound(occupied@, y as int, x as int);
                assert(y * w <= 0x7fff_ffff * 0x7fff_ffff) by (nonlinear_arith)
                    requires
                        0 <= y <= 0x7fff_ffff,
                        0 <= w <= 0x7fff_ffff,
                ;
            }
            if !occupies(occupied, GridPosition { x: x as i32, y: y as i32 }) {
                count = count + 1;
            }
            x = x + 1;
        }
        y = y + 1;
    }
    proof {
        use_type_invariant(field);
        lemma_field_count(field@, occupied@);
    }
    count
}

/// The free cell that has exactly `k` free cells before it, when the field is
/// read row by row from row zero, each row from column zero. There is one if
/// and only if the field has more than `k` free cells.
pub fn nth_free_cell(
    field: &GameField,
    occupied: &Vec<GridPosition>,
    k: u64,
) -> (r: Option<GridPosition>)
    ensures
        r is Some <==> k < free_cells(field@, occupied@).len(),
        r matches Some(p) ==> field@.contains(p) && !occupied@.contains(p) && free_cells_before(
            field@,
            occupied@,
            p,
        ).len() == k,
{
    proof {
        use_type_invariant(field);
        lemma_field_count(field@, occupied@);
    }
    let w: u32 = field.width();
    let h: u32 = field.height();
    let mut seen: u64 = 0;
    let mut y: u32 = 0;
    while y < h
        invariant
            y <= h,
            0 < w <= i32::MAX,
            0 < h <= i32::MAX,
            w == field@.width,
            h == field@.height,
            field@.wf(),
            seen == free_in_rows(occupied@, w as int, y as int),
            seen <= k,
        decreases h - y,
    {
        let ghost base: nat = seen as nat;
        let mut x: u32 = 0;
        while x < w
            invariant
                x <= w,
                y < h,
                0 < w <= i32::MAX,
                0 < h <= i32::MAX,
                w == field@.width,
                h == field@.height,
                field@.wf(),
                base == free_in_rows(occupied@, w as int, y as int),
                seen == base + free_in_row(occupied@, y as int, x as int),
                seen <= k,
            decreases w - x,
        {
            let p: GridPosition = GridPosition { x: x as i32, y: y as i32 };
            if !occupies(occupied, p) {
                if seen == k {
                    proof {
                        lemma_before_count(field@, occupied@, p);
                        lemma_free_cells_before(field@, occupied@, p, p);
                    }
                    return Some(p);
                }
                seen = seen + 1;
            }
            x = x + 1;
        }
        y = y + 1;
    }
    None
}

impl Food {
    /// The food of a new game, at column 40 of row 28.
    pub fn new() -> (food: Food)
        ensures
            food.position == (GridPosition { x: 40, y: 28 }),
    {
        Food { position: GridPosition { x: 40, y: 28 } }
    }

    /// A new place for the food: a cell of the field that is not among
    /// `occupied`. One number is drawn from `source`, below the count of free
    /// cells, and the free cell with that many free cells before it is taken.
    /// This stands for drawing cells of the field until a free one comes up:
    /// over the free cells it spreads the choice as evenly as the source
    /// spreads its numbers, and it always ends. Without a free cell there is
    /// no place.
    pub fn respawn(
        field: &GameField,
        occupied: &Vec<GridPosition>,
        source: &mut RandomSource,
    ) -> (r: Option<GridPosition>)
        ensures
            r is Some <==> has_free_cell(field@, occupied@),
            r matches Some(p) ==> field@.contains(p) && !occupied@.contains(p),
    {
        proof {
            use_type_invariant(field);
            lemma_free_cells_finite(field@, occupied@);
        }
        let free: u64 = count_free_cells(field, occupied);
        match source.below(free) {
            None => None,
            Some(k) => nth_free_cell(field, occupied, k),
        }
    }
}

} // verus!
