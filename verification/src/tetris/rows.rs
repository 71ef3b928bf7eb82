//! Full rows and what they pay.

use crate::cell::Cell;
use crate::frames::{lemma_swept_frame, lemma_swept_full_count, lemma_swept_pays_for_full_rows};
use crate::grid::{
    clear_score,
    full_count,
    full_rows,
    lemma_index_in_range,
    rising,
    row_full,
    rows_cleared,
    seen_before,
    sweep,
};
use crate::model::{State, T_SPIN_SCORE};
use crate::motion::lemma_anchor_near;
use crate::tetris::Tetris;
use crate::tetris::shift_cells_down;
use crate::tetromino::Shape;
use crate::v2::V2;
use vstd::prelude::*;

verus! {

impl Tetris {
    /// Whether every cell of row `y` is occupied.
    pub fn check_row(&self, y: usize) -> (full: bool)
        requires
            self.wf(),
            y < self@.height,
        ensures
            full == row_full(self@.cells, self@.width as int, y as int),
    {
        proof {
            lemma_index_in_range(self.width as int, self.height as int, V2 { x: 0, y: y as i32 });
        }
        let start = y * self.width;
        let mut x: usize = 0;
        while x < self.width
            invariant
                self.wf(),
                y < self.height,
                start == y * self.width,
                x <= self.width,
                forall|k: int| 0 <= k < x ==> #[trigger] self.map@[k + y * self.width] is Full,
            decreases self.width - x,
        {
            proof {
                lemma_index_in_range(
                    self.width as int,
                    self.height as int,
                    V2 { x: x as i32, y: y as i32 },
                );
            }
            if !self.map[start + x].is_full() {
                assert(!(self.map@[x as int + y * self.width] is Full));
                return false;
            }
            x += 1;
        }
        true
    }

    /// Takes `rows_down` rows out of the grid, from row `y` on, and lets
    /// everything above them fall by as many rows.
    pub fn clear_rows(&mut self, y: usize, rows_down: usize)
        requires
            old(self).wf(),
            y + rows_down <= old(self)@.height,
        ensures
            final(self).wf(),
            old(self).playable() ==> final(self).playable(),
            final(self)@ == old(self)@.with_rows_cleared(y as int, rows_down as int),
    {
        let width = self.width;
        proof {
            let (w, h, r, yy) = (width as int, self.height as int, rows_down as int, y as int);
            assert(r * w <= (yy + r) * w <= h * w) by (nonlinear_arith)
                requires
                    0 <= r,
                    0 <= yy,
                    yy + r <= h,
                    0 < w,
            ;
            assert(h * w == w * h) by (nonlinear_arith);
            assert(w * r == r * w) by (nonlinear_arith);
            assert(w * h == self.map@.len());
            assert(width * rows_down == r * w);
            assert((y + rows_down) * width == (yy + r) * w);
        }
        shift_cells_down(&mut self.map, width * rows_down, (y + rows_down) * width);
        assert(self.map@ =~= rows_cleared(old(self).map@, width as int, y as int, rows_down as int));
    }

    /// The points for clearing `rows_cleared` rows with one piece.
    pub fn calc_clear_rows_score(&self, rows_cleared: usize) -> (points: u32)
        requires
            rows_cleared * 100 <= u32::MAX,
        ensures
            points == clear_score(rows_cleared as int),
    {
        if rows_cleared == 4 {
            800
        } else {
            rows_cleared as u32 * 100
        }
    }

    /// Looks at the rows that the four points touch, each row once and in the
    /// order of the points, takes out those that are full, and adds the
    /// points for them to the score. Where the points are listed from the
    /// top down, as the cells of a piece are, exactly the rows that were full
    /// are taken out and paid for.
    pub fn clear_rows_and_update_score(&mut self, points: &[V2; 4])
        requires
            old(self).wf(),
            old(self)@.rows_exist(*points),
            old(self)@.swept(*points).score <= u32::MAX,
        ensures
            final(self).wf(),
            old(self).playable() ==> final(self).playable(),
            final(self)@ == old(self)@.swept(*points),
            final(self)@.faller == old(self)@.faller,
            final(self)@.shadow == old(self)@.shadow,
            final(self)@.cells.len() == old(self)@.cells.len(),
            rising(*points) ==> final(self)@.score == old(self)@.score + clear_score(
                full_rows(old(self)@.cells, old(self)@.width as int, *points, 4),
            ),
            rising(*points) ==> full_count(final(self)@.cells) == full_count(old(self)@.cells)
                - full_rows(old(self)@.cells, old(self)@.width as int, *points, 4) * old(
                self,
            )@.width,
    {
        proof {
            reveal(State::swept);
            lemma_swept_frame(old(self)@, *points);
            if rising(*points) {
                lemma_swept_pays_for_full_rows(old(self)@, *points);
                lemma_swept_full_count(old(self)@, *points);
            }
        }
        let mut rows_cleared: usize = 0;
        let mut k: usize = 0;
        while k < 4
            invariant
                k <= 4,
                self.wf(),
                old(self).playable() ==> self.playable(),
                old(self)@.rows_exist(*points),
                rows_cleared <= k,
                self@ == old(self)@.with_cells(self@.cells),
                (self@.cells, rows_cleared as int) == sweep(
                    old(self)@.cells,
                    old(self)@.width as int,
                    *points,
                    k as nat,
                ),
            decreases 4 - k,
        {
            let y = points[k].y;
            let mut seen = false;
            let mut j: usize = 0;
            while j < k
                invariant
                    j <= k,
                    k < 4,
                    y == points[k as int].y,
                    seen == exists|i: int| 0 <= i < j && (#[trigger] points[i]).y == y,
                decreases k - j,
            {
                if points[j].y == y {
                    seen = true;
                }
                j += 1;
            }
            assert(seen == seen_before(*points, k as int));
            if !seen {
                if self.check_row(y as usize) {
                    self.clear_rows(y as usize, 1);
                    rows_cleared += 1;
                }
            }
            k += 1;
        }
        let award = self.calc_clear_rows_score(rows_cleared);
        self.score += award;
    }

    fn corner_taken(&self, offset: V2) -> (taken: bool)
        requires
            self.playable(),
            -1 <= offset.x <= 1,
            -1 <= offset.y <= 1,
        ensures
            taken == self@.corner_taken(offset.x as int, offset.y as int),
    {
        proof {
            lemma_anchor_near(self@, self.faller);
        }
        let p = self.faller.pos + offset;
        self.bounds_contain(p) && self.at(p).is_full()
    }

    /// Adds the bonus for a wedged T to the score: the faller is a T and at
    /// least three of the four cells diagonally next to its anchor are on the
    /// board and occupied.
    pub fn check_t_spin(&mut self)
        requires
            old(self).playable(),
            old(self)@.t_spin_scored().score <= u32::MAX,
        ensures
            final(self).playable(),
            final(self)@ == old(self)@.t_spin_scored(),
    {
        if self.faller.cell_value == Cell::Full(Shape::T) {
            let mut count: u32 = 0;
            if self.corner_taken(V2::new(-1, -1)) {
                count += 1;
            }
            if self.corner_taken(V2::new(1, -1)) {
                count += 1;
            }
            if self.corner_taken(V2::new(-1, 1)) {
                count += 1;
            }
            if self.corner_taken(V2::new(1, 1)) {
                count += 1;
            }
            assert(count == self@.corners_taken());
            if count >= 3 {
                self.score += T_SPIN_SCORE;
            }
        }
    }
}

} // verus!
