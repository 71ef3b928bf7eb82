//! The grid as a sequence of cells, row by row: where a position lies in
//! it, what drawing and clearing do to it, and what a piece pays.

use crate::cell::Cell;
use crate::v2::V2;
use vstd::prelude::*;

verus! {

/// The position of cell `p` in a row-major grid of the given width.
pub open spec fn index_of(width: int, p: V2) -> int {
    p.x + p.y * width
}

/// Whether one of the four points lies at grid position `i`.
pub open spec fn covers(width: int, points: [V2; 4], i: int) -> bool {
    ||| index_of(width, points[0]) == i
    ||| index_of(width, points[1]) == i
    ||| index_of(width, points[2]) == i
    ||| index_of(width, points[3]) == i
}

/// Whether `p` is one of the four points.
pub open spec fn among(points: [V2; 4], p: V2) -> bool {
    points[0] == p || points[1] == p || points[2] == p || points[3] == p
}

/// The grid with `value` written at the four points.
pub open spec fn painted(cells: Seq<Cell>, width: int, points: [V2; 4], value: Cell) -> Seq<Cell> {
    Seq::new(cells.len(), |i: int| if covers(width, points, i) { value } else { cells[i] })
}

/// Whether one of the four points lies at grid position `i` and is not
/// among `keep`.
pub open spec fn covers_around(width: int, points: [V2; 4], keep: [V2; 4], i: int) -> bool {
    ||| index_of(width, points[0]) == i && !among(keep, points[0])
    ||| index_of(width, points[1]) == i && !among(keep, points[1])
    ||| index_of(width, points[2]) == i && !among(keep, points[2])
    ||| index_of(width, points[3]) == i && !among(keep, points[3])
}

/// The grid with `value` written at those of the four points that are not
/// among `keep`.
pub open spec fn painted_around(
    cells: Seq<Cell>,
    width: int,
    points: [V2; 4],
    value: Cell,
    keep: [V2; 4],
) -> Seq<Cell> {
    Seq::new(
        cells.len(),
        |i: int| if covers_around(width, points, keep, i) { value } else { cells[i] },
    )
}

/// The grid with the preview cells at the four points emptied; other kinds
/// of cell stay.
pub open spec fn unshadowed(cells: Seq<Cell>, width: int, points: [V2; 4]) -> Seq<Cell> {
    Seq::new(
        cells.len(),
        |i: int| if covers(width, points, i) && cells[i] is Shadow { Cell::Empty } else { cells[i] },
    )
}

/// Whether every cell of row `y` is occupied.
pub open spec fn row_full(cells: Seq<Cell>, width: int, y: int) -> bool {
    forall|x: int| 0 <= x < width ==> #[trigger] cells[x + y * width] is Full
}

/// The grid after `rows` rows starting at row `y` are taken out: what was
/// above them has moved down by `rows` rows, the top `rows` rows are empty,
/// and what was below is as before.
pub open spec fn rows_cleared(cells: Seq<Cell>, width: int, y: int, rows: int) -> Seq<Cell> {
    Seq::new(
        cells.len(),
        |i: int|
            if i < rows * width {
                Cell::Empty
            } else if i < (y + rows) * width {
                cells[i - rows * width]
            } else {
                cells[i]
            },
    )
}

/// The points for clearing `rows` rows with one piece: a hundred a row, and
/// twice that for four rows at once.
pub open spec fn clear_score(rows: int) -> int {
    if rows == 4 {
        800
    } else {
        rows * 100
    }
}

/// Whether the row of point `k` is also the row of an earlier point.
pub open spec fn seen_before(points: [V2; 4], k: int) -> bool {
    exists|j: int| 0 <= j < k && (#[trigger] points[j]).y == points[k].y
}

/// The grid after the rows of the first `k` points were looked at in turn,
/// together with the number of rows taken out. Each row is looked at once,
/// at its first point, and taken out if every cell of it is then occupied.
pub open spec fn sweep(cells: Seq<Cell>, width: int, points: [V2; 4], k: nat) -> (Seq<Cell>, int)
    decreases k,
{
    if k == 0 {
        (cells, 0)
    } else {
        let (before, n) = sweep(cells, width, points, (k - 1) as nat);
        let y = points[k - 1].y as int;
        if !seen_before(points, k - 1) && row_full(before, width, y) {
            (rows_cleared(before, width, y, 1), n + 1)
        } else {
            (before, n)
        }
    }
}

/// Whether two grids are occupied at the same places.
pub open spec fn same_fullness(a: Seq<Cell>, b: Seq<Cell>) -> bool {
    a.len() == b.len() && forall|i: int| 0 <= i < a.len() ==> (a[i] is Full) == (b[i] is Full)
}

/// A position on the board has its place in the grid.
pub proof fn lemma_position_in_range(width: int, height: int, x: int, y: int)
    requires
        0 <= x < width,
        0 <= y < height,
    ensures
        0 <= y * width <= x + y * width < width * height,
{
    assert(y * width <= (height - 1) * width) by (nonlinear_arith)
        requires
            0 <= y <= height - 1,
            0 < width,
    ;
    assert((height - 1) * width == height * width - width) by (nonlinear_arith);
    assert(0 <= y * width) by (nonlinear_arith)
        requires
            0 <= y,
            0 < width,
    ;
    assert(width * height == height * width) by (nonlinear_arith);
}

/// A cell of the board has its place in the grid.
pub proof fn lemma_index_in_range(width: int, height: int, p: V2)
    requires
        0 <= p.x < width,
        0 <= p.y < height,
    ensures
        0 <= p.y * width <= index_of(width, p) < width * height,
{
    lemma_position_in_range(width, height, p.x as int, p.y as int);
}

/// Two cells in the same place of the grid are the same cell.
pub proof fn lemma_index_injective(width: int, p: V2, q: V2)
    requires
        0 <= p.x < width,
        0 <= q.x < width,
        index_of(width, p) == index_of(width, q),
    ensures
        p == q,
{
    if p.y < q.y {
        assert(q.y * width >= (p.y + 1) * width) by (nonlinear_arith)
            requires
                q.y >= p.y + 1,
                0 < width,
        ;
        assert((p.y + 1) * width == p.y * width + width) by (nonlinear_arith);
    } else if q.y < p.y {
        assert(p.y * width >= (q.y + 1) * width) by (nonlinear_arith)
            requires
                p.y >= q.y + 1,
                0 < width,
        ;
        assert((q.y + 1) * width == q.y * width + width) by (nonlinear_arith);
    }
}

proof fn lemma_row_position(width: int, height: int, y: int, x: int, r: int)
    requires
        0 <= x < width,
        0 <= r < height,
        0 <= y < height,
    ensures
        0 <= x + r * width < width * height,
        r <= y ==> x + r * width < (y + 1) * width,
        r > y ==> x + r * width >= (y + 1) * width,
        r >= 1 ==> x + r * width >= width,
        x + (r - 1) * width == x + r * width - width,
{
    lemma_position_in_range(width, height, x, r);
    assert((r - 1) * width == r * width - width) by (nonlinear_arith);
    assert((y + 1) * width == y * width + width) by (nonlinear_arith);
    if r <= y {
        assert(r * width <= y * width) by (nonlinear_arith)
            requires
                r <= y,
                0 < width,
        ;
    } else {
        assert(r * width >= (y + 1) * width) by (nonlinear_arith)
            requires
                r >= y + 1,
                0 < width,
        ;
    }
    if r >= 1 {
        assert(r * width >= width) by (nonlinear_arith)
            requires
                r >= 1,
                0 < width,
        ;
    }
}

/// Taking out one row moves every row above it down by exactly one, leaves
/// the top row empty, and leaves the rows below it alone.
pub proof fn lemma_clear_shifts_rows(cells: Seq<Cell>, width: int, height: int, y: int)
    requires
        0 < width,
        0 <= y < height,
        cells.len() == width * height,
    ensures
        rows_cleared(cells, width, y, 1).len() == cells.len(),
        forall|x: int| 0 <= x < width ==> #[trigger] rows_cleared(cells, width, y, 1)[x] == Cell::Empty,
        forall|x: int, r: int|
            0 <= x < width && 1 <= r <= y ==> #[trigger] rows_cleared(cells, width, y, 1)[x + r * width]
                == cells[x + (r - 1) * width],
        forall|x: int, r: int|
            0 <= x < width && y < r < height ==> #[trigger] rows_cleared(cells, width, y, 1)[x + r
                * width] == cells[x + r * width],
{
    let after = rows_cleared(cells, width, y, 1);
    assert(1 * width == width) by (nonlinear_arith);
    assert(width <= cells.len()) by (nonlinear_arith)
        requires
            cells.len() == width * height,
            height >= 1,
            width > 0,
    ;
    assert forall|x: int, r: int| 0 <= x < width && 1 <= r <= y implies #[trigger] after[x + r
        * width] == cells[x + (r - 1) * width] by {
        lemma_row_position(width, height, y, x, r);
    }
    assert forall|x: int, r: int| 0 <= x < width && y < r < height implies #[trigger] after[x + r
        * width] == cells[x + r * width] by {
        lemma_row_position(width, height, y, x, r);
    }
}

/// Looking at the rows of at most four points takes out at most as many
/// rows, leaves the grid its size, and pays at most eight hundred points.
pub proof fn lemma_sweep_bounds(cells: Seq<Cell>, width: int, points: [V2; 4], k: nat)
    requires
        k <= 4,
    ensures
        0 <= sweep(cells, width, points, k).1 <= k,
        sweep(cells, width, points, k).0.len() == cells.len(),
        0 <= clear_score(sweep(cells, width, points, k).1) <= 800,
    decreases k,
{
    if k > 0 {
        lemma_sweep_bounds(cells, width, points, (k - 1) as nat);
    }
}

/// Where none of the rows that the four points touch is full, looking at
/// them changes nothing and pays nothing.
pub proof fn lemma_sweep_idle(cells: Seq<Cell>, width: int, points: [V2; 4], k: nat)
    requires
        k <= 4,
        forall|i: int| 0 <= i < 4 ==> !row_full(cells, width, (#[trigger] points[i]).y as int),
    ensures
        sweep(cells, width, points, k) == (cells, 0int),
    decreases k,
{
    if k > 0 {
        lemma_sweep_idle(cells, width, points, (k - 1) as nat);
        assert(!row_full(cells, width, points[k - 1].y as int));
    }
}

/// Whether every occupied cell of the first grid is the same in the second,
/// and the second has no other occupied cells.
pub open spec fn full_kept(a: Seq<Cell>, b: Seq<Cell>) -> bool {
    a.len() == b.len() && forall|i: int|
        0 <= i < a.len() ==> (a[i] is Full ==> b[i] == a[i]) && (b[i] is Full ==> a[i] is Full)
}

/// Whether the occupied cells of the second grid are those of the first,
/// unchanged, and besides them at most the cells at the four points.
pub open spec fn full_kept_but(a: Seq<Cell>, b: Seq<Cell>, width: int, points: [V2; 4]) -> bool {
    a.len() == b.len() && forall|i: int|
        0 <= i < a.len() ==> (a[i] is Full ==> b[i] == a[i]) && (b[i] is Full ==> a[i] is Full
            || covers(width, points, i))
}

/// Whether the four points are listed from the top of the board down.
pub open spec fn rising(points: [V2; 4]) -> bool {
    points[0].y <= points[1].y <= points[2].y <= points[3].y
}

/// The number of rows among those of the first `k` points, each row counted
/// once, of which every cell is occupied.
pub open spec fn full_rows(cells: Seq<Cell>, width: int, points: [V2; 4], k: nat) -> int
    decreases k,
{
    if k == 0 {
        0
    } else {
        full_rows(cells, width, points, (k - 1) as nat) + if !seen_before(points, k - 1) && row_full(
            cells,
            width,
            points[k - 1].y as int,
        ) {
            1int
        } else {
            0int
        }
    }
}

/// The first place of the grid below the rows of the first `k` points, when
/// the points are listed from the top down.
pub open spec fn below_rows(width: int, points: [V2; 4], k: nat) -> int {
    if k == 0 {
        0
    } else {
        (points[k - 1].y + 1) * width
    }
}

/// Where the points are listed from the top down, looking at their rows
/// takes out exactly the rows that were full to begin with, and leaves
/// everything below the rows looked at as it was: taking out a row moves
/// only what lies above it.
pub proof fn lemma_sweep_counts_full_rows(
    cells: Seq<Cell>,
    width: int,
    height: int,
    points: [V2; 4],
    k: nat,
)
    requires
        0 < width,
        cells.len() == width * height,
        k <= 4,
        rising(points),
        forall|i: int| 0 <= i < 4 ==> 0 <= (#[trigger] points[i]).y < height,
    ensures
        sweep(cells, width, points, k).1 == full_rows(cells, width, points, k),
        sweep(cells, width, points, k).0.len() == cells.len(),
        forall|i: int|
            below_rows(width, points, k) <= i < cells.len() ==> sweep(cells, width, points, k).0[i]
                == cells[i],
    decreases k,
{
    if k > 0 {
        let j = (k - 1) as nat;
        lemma_sweep_counts_full_rows(cells, width, height, points, j);
        let before = sweep(cells, width, points, j).0;
        let y = points[k - 1].y as int;
        assert(0 <= points[k - 1].y < height);
        assert(j > 0 ==> points[j - 1].y <= points[j as int].y);
        assert((y + 1) * width == y * width + width) by (nonlinear_arith);
        assert(1 * width == width) by (nonlinear_arith);
        if j > 0 {
            let above = points[j - 1].y as int;
            assert((above + 1) * width <= (y + 1) * width) by (nonlinear_arith)
                requires
                    above <= y,
                    0 < width,
            ;
            if !seen_before(points, k - 1) {
                assert(points[j - 1].y != points[k - 1].y);
                assert((above + 1) * width <= y * width) by (nonlinear_arith)
                    requires
                        above + 1 <= y,
                        0 < width,
                ;
            }
        } else {
            assert(0 <= y * width) by (nonlinear_arith)
                requires
                    0 <= y,
                    0 < width,
            ;
        }
        if !seen_before(points, k - 1) {
            assert forall|x: int| 0 <= x < width implies #[trigger] before[x + y * width]
                == cells[x + y * width] by {
                lemma_position_in_range(width, height, x, y);
            }
            if row_full(before, width, y) {
                assert forall|x: int| 0 <= x < width implies #[trigger] cells[x + y
                    * width] is Full by {
                    assert(before[x + y * width] is Full);
                }
            }
            if row_full(cells, width, y) {
                assert forall|x: int| 0 <= x < width implies #[trigger] before[x + y
                    * width] is Full by {
                    assert(cells[x + y * width] is Full);
                }
            }
        }
    }
}

/// Whether one of the first `k` points lies in row `y`.
pub open spec fn touches_row(points: [V2; 4], k: nat, y: int) -> bool {
    exists|i: int| 0 <= i < k && (#[trigger] points[i]).y == y
}

/// Where the points are listed from the top down and just one of their rows
/// is full, looking at their rows takes out that row and nothing else.
pub proof fn lemma_sweep_one_row(
    cells: Seq<Cell>,
    width: int,
    height: int,
    points: [V2; 4],
    y: int,
    k: nat,
)
    requires
        0 < width,
        cells.len() == width * height,
        k <= 4,
        rising(points),
        forall|i: int| 0 <= i < 4 ==> 0 <= (#[trigger] points[i]).y < height,
        0 <= y < height,
        row_full(cells, width, y),
        forall|i: int|
            0 <= i < 4 && (#[trigger] points[i]).y != y ==> !row_full(cells, width, points[i].y as int),
    ensures
        touches_row(points, k, y) ==> sweep(cells, width, points, k) == (
            rows_cleared(cells, width, y, 1),
            1int,
        ),
        !touches_row(points, k, y) ==> sweep(cells, width, points, k) == (cells, 0int),
    decreases k,
{
    if k > 0 {
        let j = (k - 1) as nat;
        lemma_sweep_one_row(cells, width, height, points, y, j);
        let here = points[k - 1].y as int;
        let before = sweep(cells, width, points, j).0;
        assert(0 <= points[k - 1].y < height);
        if touches_row(points, j, y) {
            let i = choose|i: int| 0 <= i < j && (#[trigger] points[i]).y == y;
            assert(points[i].y <= points[k - 1].y);
            assert(touches_row(points, k, y));
            if here == y {
                assert(seen_before(points, k - 1));
            } else {
                assert(!row_full(cells, width, here));
                let x = choose|x: int| 0 <= x < width && !(#[trigger] cells[x + here * width] is Full);
                lemma_position_in_range(width, height, x, here);
                assert((y + 1) * width <= here * width) by (nonlinear_arith)
                    requires
                        y + 1 <= here,
                        0 < width,
                ;
                assert(1 * width == width) by (nonlinear_arith);
                assert((y + 1) * width == y * width + width) by (nonlinear_arith);
                let cleared = rows_cleared(cells, width, y, 1);
                assert(before == cleared);
                let at = x + here * width;
                assert(0 <= at < cells.len());
                assert(at >= (y + 1) * width);
                assert(cleared[at] == cells[at]);
                assert(before[x + here * width] == cells[x + here * width]);
                assert(!row_full(before, width, here));
            }
        } else {
            assert(before == cells);
            if here == y {
                assert(touches_row(points, k, y));
                assert(!seen_before(points, k - 1));
            } else {
                assert(!touches_row(points, k, y));
                assert(!row_full(cells, width, here));
            }
        }
    }
}

/// The number of occupied cells.
pub open spec fn full_count(cells: Seq<Cell>) -> nat
    decreases cells.len(),
{
    if cells.len() == 0 {
        0
    } else {
        full_count(cells.drop_last()) + if cells.last() is Full {
            1nat
        } else {
            0nat
        }
    }
}

/// Two stretches of cells laid end to end hold as many occupied cells as
/// the two together.
pub proof fn lemma_full_count_add(a: Seq<Cell>, b: Seq<Cell>)
    ensures
        full_count(a + b) == full_count(a) + full_count(b),
    decreases b.len(),
{
    if b.len() == 0 {
        assert(a + b =~= a);
    } else {
        lemma_full_count_add(a, b.drop_last());
        assert((a + b).drop_last() =~= a + b.drop_last());
        assert((a + b).last() == b.last());
    }
}

/// A stretch of cells that are all occupied holds as many occupied cells as
/// it is long, and one without an occupied cell holds none.
pub proof fn lemma_full_count_uniform(a: Seq<Cell>)
    ensures
        (forall|i: int| 0 <= i < a.len() ==> #[trigger] a[i] is Full) ==> full_count(a) == a.len(),
        (forall|i: int| 0 <= i < a.len() ==> !(#[trigger] a[i] is Full)) ==> full_count(a) == 0,
    decreases a.len(),
{
    if a.len() > 0 {
        lemma_full_count_uniform(a.drop_last());
        if forall|i: int| 0 <= i < a.len() ==> #[trigger] a[i] is Full {
            assert forall|i: int| 0 <= i < a.drop_last().len() implies #[trigger] a.drop_last()[i] is Full by {
                assert(a[i] is Full);
            }
            assert(a[a.len() - 1] is Full);
        }
        if forall|i: int| 0 <= i < a.len() ==> !(#[trigger] a[i] is Full) {
            assert forall|i: int| 0 <= i < a.drop_last().len() implies !(
            #[trigger] a.drop_last()[i] is Full) by {
                assert(!(a[i] is Full));
            }
            assert(!(a[a.len() - 1] is Full));
        }
    }
}

/// Taking out a full row leaves as many occupied cells fewer as the board
/// is wide.
pub proof fn lemma_clear_row_count(cells: Seq<Cell>, width: int, height: int, y: int)
    requires
        0 < width,
        0 <= y < height,
        cells.len() == width * height,
        row_full(cells, width, y),
    ensures
        full_count(rows_cleared(cells, width, y, 1)) == full_count(cells) - width,
{
    lemma_position_in_range(width, height, 0, y);
    assert((y + 1) * width == y * width + width) by (nonlinear_arith);
    assert(1 * width == width) by (nonlinear_arith);
    assert((y + 1) * width <= height * width) by (nonlinear_arith)
        requires
            y + 1 <= height,
            0 < width,
    ;
    assert(height * width == width * height) by (nonlinear_arith);
    let start = y * width;
    let end = (y + 1) * width;
    let len = cells.len() as int;
    let top = cells.subrange(0, start);
    let row = cells.subrange(start, end);
    let rest = cells.subrange(end, len);
    let empties = Seq::new(width as nat, |i: int| Cell::Empty);
    let cleared = rows_cleared(cells, width, y, 1);
    assert(cells =~= top + row + rest);
    assert(cleared =~= empties + top + rest);
    assert forall|i: int| 0 <= i < row.len() implies #[trigger] row[i] is Full by {
        assert(cells[i + y * width] is Full);
    }
    lemma_full_count_uniform(row);
    lemma_full_count_uniform(empties);
    lemma_full_count_add(top, row);
    lemma_full_count_add(top + row, rest);
    lemma_full_count_add(empties, top);
    lemma_full_count_add(empties + top, rest);
}

/// Looking at the rows of four points leaves, for every row taken out, as
/// many occupied cells fewer as the board is wide.
pub proof fn lemma_sweep_full_count(
    cells: Seq<Cell>,
    width: int,
    height: int,
    points: [V2; 4],
    k: nat,
)
    requires
        0 < width,
        cells.len() == width * height,
        k <= 4,
        forall|i: int| 0 <= i < 4 ==> 0 <= (#[trigger] points[i]).y < height,
    ensures
        sweep(cells, width, points, k).0.len() == cells.len(),
        full_count(sweep(cells, width, points, k).0) == full_count(cells) - sweep(
            cells,
            width,
            points,
            k,
        ).1 * width,
    decreases k,
{
    if k == 0 {
        assert(0 * width == 0) by (nonlinear_arith);
    } else {
        lemma_sweep_full_count(cells, width, height, points, (k - 1) as nat);
        let before = sweep(cells, width, points, (k - 1) as nat).0;
        let n = sweep(cells, width, points, (k - 1) as nat).1;
        let y = points[k - 1].y as int;
        assert(0 <= points[k - 1].y < height);
        if !seen_before(points, k - 1) && row_full(before, width, y) {
            lemma_clear_row_count(before, width, height, y);
            assert((n + 1) * width == n * width + width) by (nonlinear_arith);
            assert(sweep(cells, width, points, k) == (rows_cleared(before, width, y, 1), n + 1));
        } else {
            assert(sweep(cells, width, points, k) == (before, n));
        }
    }
}

} // verus!
