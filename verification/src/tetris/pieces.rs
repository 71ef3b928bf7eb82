//! The two pieces on the grid: drawing and erasing them, moving them, and
//! keeping the landing preview up to date.

use crate::cell::Cell;
use crate::direction::Direction;
use crate::frames::lemma_ghost_updated_frame;
use crate::grid::{among, lemma_index_in_range, painted_around, same_fullness, unshadowed};
use crate::model::{FALLER_INDEX, GHOST_INDEX, State, slid};
use crate::motion::{
    lemma_anchor_near,
    lemma_move_stays_on_board,
    lemma_slid_step,
    lemma_step_lands_free,
    lemma_throw_distance,
};
use crate::piece::Piece;
use crate::preview::{
    lemma_fall_keeps_sync,
    lemma_ghost_updated_keeps_drawn,
    lemma_ghost_updated_synced,
    lemma_insert_draws,
    lemma_synced_preview,
};
use crate::tetris::Tetris;
use crate::tetromino::data::Flags;
use crate::v2::V2;
use vstd::prelude::*;

verus! {

impl Tetris {
    /// Writes `value` at the four cells of the piece with the given index.
    pub fn fill_piece_cells_with(&mut self, piece_index: usize, value: Cell)
        requires
            old(self).playable(),
            piece_index < 2,
        ensures
            final(self).playable(),
            final(self)@ == old(self)@.filled(piece_index as int, value),
    {
        let points = if piece_index == FALLER_INDEX {
            self.faller.points
        } else {
            self.shadow.points
        };
        proof {
            lemma_index_in_range(self.width as int, self.height as int, points[0]);
            lemma_index_in_range(self.width as int, self.height as int, points[1]);
            lemma_index_in_range(self.width as int, self.height as int, points[2]);
            lemma_index_in_range(self.width as int, self.height as int, points[3]);
        }
        self.set_at(points[0], value);
        self.set_at(points[1], value);
        self.set_at(points[2], value);
        self.set_at(points[3], value);
        assert(self.map@ =~= old(self)@.filled(piece_index as int, value).cells);
    }

    /// Empties the cells of the piece with the given index.
    pub fn remove_piece(&mut self, piece_index: usize)
        requires
            old(self).playable(),
            piece_index < 2,
        ensures
            final(self).playable(),
            final(self)@ == old(self)@.piece_removed(piece_index as int),
    {
        self.fill_piece_cells_with(piece_index, Cell::Empty);
    }

    /// Draws the piece with the given index on the grid.
    pub fn insert_piece(&mut self, piece_index: usize)
        requires
            old(self).playable(),
            piece_index < 2,
        ensures
            final(self).playable(),
            final(self)@ == old(self)@.piece_inserted(piece_index as int),
            piece_index == FALLER_INDEX ==> final(self)@.drawn(),
    {
        let value = if piece_index == FALLER_INDEX {
            self.faller.cell_value
        } else {
            self.shadow.cell_value
        };
        proof {
            lemma_insert_draws(self@);
        }
        self.fill_piece_cells_with(piece_index, value);
    }

    fn erase_shadow_at(&mut self, p: V2)
        requires
            old(self).playable(),
            old(self)@.in_bounds(p),
        ensures
            final(self).playable(),
            final(self)@ == (if old(self)@.at(p) is Shadow {
                old(self)@.with_cell(p, Cell::Empty)
            } else {
                old(self)@
            }),
    {
        if self.at(p).is_ghost() {
            self.set_at(p, Cell::Empty);
        }
    }

    /// Empties the cells of the old landing preview that still show it,
    /// unless the preview sits on the faller.
    pub fn remove_ghost(&mut self)
        requires
            old(self).playable(),
        ensures
            final(self).playable(),
            final(self)@ == old(self)@.ghost_removed(),
    {
        if self.shadow.pos != self.faller.pos {
            let points = self.shadow.points;
            proof {
                lemma_index_in_range(self.width as int, self.height as int, points[0]);
                lemma_index_in_range(self.width as int, self.height as int, points[1]);
                lemma_index_in_range(self.width as int, self.height as int, points[2]);
                lemma_index_in_range(self.width as int, self.height as int, points[3]);
            }
            self.erase_shadow_at(points[0]);
            self.erase_shadow_at(points[1]);
            self.erase_shadow_at(points[2]);
            self.erase_shadow_at(points[3]);
            assert(self.map@ =~= unshadowed(old(self)@.cells, self.width as int, points));
        }
    }

    fn paint_unless_kept(&mut self, p: V2, value: Cell, keep: &[V2; 4])
        requires
            old(self).playable(),
            old(self)@.in_bounds(p),
        ensures
            final(self).playable(),
            final(self)@ == (if among(*keep, p) {
                old(self)@
            } else {
                old(self)@.with_cell(p, value)
            }),
    {
        if !(keep[0] == p || keep[1] == p || keep[2] == p || keep[3] == p) {
            self.set_at(p, value);
        }
    }

    /// Draws the landing preview on the grid, leaving out the cells that it
    /// shares with the faller.
    pub fn draw_ghost(&mut self)
        requires
            old(self).playable(),
        ensures
            final(self).playable(),
            final(self)@ == old(self)@.ghost_drawn(),
    {
        let points = self.shadow.points;
        let keep = self.faller.points;
        let value = self.shadow.cell_value;
        proof {
            lemma_index_in_range(self.width as int, self.height as int, points[0]);
            lemma_index_in_range(self.width as int, self.height as int, points[1]);
            lemma_index_in_range(self.width as int, self.height as int, points[2]);
            lemma_index_in_range(self.width as int, self.height as int, points[3]);
        }
        self.paint_unless_kept(points[0], value, &keep);
        self.paint_unless_kept(points[1], value, &keep);
        self.paint_unless_kept(points[2], value, &keep);
        self.paint_unless_kept(points[3], value, &keep);
        assert(self.map@ =~= painted_around(
            old(self)@.cells,
            self.width as int,
            points,
            value,
            keep,
        ));
    }

    /// Replaces the piece with the given index: empties its cells, puts
    /// `new_piece` in its place and draws it, then brings the landing preview
    /// up to date if asked for.
    pub fn update_piece(&mut self, piece_index: usize, new_piece: Piece, update_ghost: bool)
        requires
            old(self).playable(),
            piece_index < 2,
            new_piece.wf(),
            old(self)@.holds(new_piece),
            piece_index == FALLER_INDEX ==> new_piece.cell_value is Full,
            piece_index == GHOST_INDEX ==> new_piece.cell_value is Shadow,
        ensures
            final(self).playable(),
            final(self)@ == old(self)@.piece_updated(piece_index as int, new_piece, update_ghost),
            update_ghost ==> final(self)@.synced(),
            piece_index == FALLER_INDEX ==> final(self)@.drawn(),
    {
        proof {
            reveal(State::piece_updated);
        }
        self.remove_piece(piece_index);
        if piece_index == FALLER_INDEX {
            self.faller = new_piece;
        } else {
            self.shadow = new_piece;
        }
        self.insert_piece(piece_index);
        if update_ghost {
            self.update_ghost(true);
        }
    }

    /// Brings the landing preview up to date: wipes the old one if asked
    /// for, drops a copy of the faller as far as it goes, and draws it where
    /// it landed unless that is where the faller is. The preview ends up
    /// where the faller would come to rest, and no cell becomes occupied or
    /// free by it.
    pub fn update_ghost(&mut self, try_remove: bool)
        requires
            old(self).playable(),
        ensures
            final(self).playable(),
            final(self)@ == old(self)@.ghost_updated(try_remove),
            final(self)@.faller == old(self)@.faller,
            same_fullness(old(self)@.cells, final(self)@.cells),
            final(self)@.synced(),
            final(self)@.shadow.pos.y >= final(self)@.faller.pos.y,
            final(self)@.shadow.pos.y > final(self)@.faller.pos.y <==> final(self)@.can_move(
                final(self)@.faller,
                Direction::Down,
            ),
            old(self)@.drawn() ==> final(self)@.drawn(),
    {
        proof {
            reveal(State::ghost_updated);
            reveal(State::thrown);
            lemma_ghost_updated_synced(old(self)@, try_remove);
            if old(self)@.drawn() {
                lemma_ghost_updated_keeps_drawn(old(self)@, try_remove);
            }
            lemma_synced_preview(old(self)@.ghost_updated(try_remove));
            lemma_ghost_updated_frame(old(self)@, try_remove);
        }
        if try_remove {
            self.remove_ghost();
        }
        self.shadow = self.faller.clone_as_ghost();
        self.throw_piece(GHOST_INDEX, Direction::Down);
        if self.shadow.pos != self.faller.pos {
            self.draw_ghost();
        }
    }

    /// Moves `piece` one step in direction `d` if it can: each cell of it
    /// that leads in that direction must arrive on the board and not on an
    /// occupied cell. The piece is left as it was if it cannot, and the
    /// engine is only read either way.
    pub fn try_move_piece(&self, piece: &mut Piece, d: Direction) -> (moved: bool)
        requires
            self.wf(),
            old(piece).data.wf(),
            old(piece).can_translate(d.delta()),
        ensures
            moved == self@.can_move(*old(piece), d),
            moved ==> *final(piece) == old(piece).translated_by(d.delta()),
            !moved ==> *final(piece) == *old(piece),
    {
        proof {
            reveal(State::can_move);
        }
        let offset = V2::from(d);
        let target = piece.translated(offset);
        let indexes = target.data.indexes_of_cells_colliding(Flags::from(d));
        let mut k: usize = 0;
        while k < indexes.len()
            invariant
                k <= indexes@.len(),
                self.wf(),
                target == piece.translated_by(d.delta()),
                piece.data.wf(),
                piece.can_translate(d.delta()),
                forall|j: int| 0 <= j < indexes@.len() ==> 0 <= #[trigger] indexes@[j] < 4,
                forall|i: int|
                    0 <= i < 4 ==> (indexes@.contains(i as usize) <==> (
                    #[trigger] piece.data.masks()[i]).contains(Flags(d.bit()))),
                forall|j: int| 0 <= j < k ==> self@.cell_clear(*piece, d, #[trigger] indexes@[j] as int),
            decreases indexes@.len() - k,
        {
            let index = indexes[k];
            let pos = target.points[index];
            if !self.bounds_contain(pos) || self.at(pos).is_full() {
                proof {
                    reveal(State::can_move);
                }
                assert(indexes@.contains(index));
                assert(!self@.cell_clear(*piece, d, index as int));
                return false;
            }
            k += 1;
        }
        assert forall|i: int| 0 <= i < 4 implies self@.cell_clear(*piece, d, i) by {
            if piece.data.masks()[i].contains(Flags(d.bit())) {
                assert(indexes@.contains(i as usize));
                let j = choose|j: int| 0 <= j < indexes@.len() && indexes@[j] == i as usize;
                assert(self@.cell_clear(*piece, d, indexes@[j] as int));
            }
        }
        *piece = target;
        true
    }

    /// Moves the piece with the given index one step in direction `d` if it
    /// can, and redraws it; after a step sideways the landing preview is
    /// brought up to date. Nothing changes if the step is not possible.
    pub fn try_move_piece_and_update(&mut self, piece_index: usize, d: Direction) -> (moved: bool)
        requires
            old(self).playable(),
            piece_index < 2,
        ensures
            final(self).playable(),
            moved == old(self)@.can_move(old(self)@.piece(piece_index as int), d),
            final(self)@ == old(self)@.moved(piece_index as int, d),
            !moved ==> final(self)@ == old(self)@,
            piece_index == FALLER_INDEX && d != Direction::Up && old(self)@.synced() ==> final(self)@.synced(),
            piece_index == FALLER_INDEX && old(self)@.drawn() ==> final(self)@.drawn(),
    {
        proof {
            reveal(State::moved);
        }
        let mut piece = if piece_index == FALLER_INDEX {
            self.faller.clone()
        } else {
            self.shadow.clone()
        };
        proof {
            lemma_anchor_near(self@, piece);
        }
        if self.try_move_piece(&mut piece, d) {
            proof {
                lemma_move_stays_on_board(self@, self@.piece(piece_index as int), d);
                if piece_index == FALLER_INDEX && d == Direction::Down && self@.synced() {
                    lemma_fall_keeps_sync(self@);
                }
            }
            self.update_piece(piece_index, piece, !matches!(d, Direction::Down | Direction::Up));
            return true;
        }
        false
    }

    /// Pushes `start` in direction `d` until it is stopped, and says where
    /// it came to rest and after how many steps.
    #[verifier::rlimit(30)]
    fn throw(&self, start: Piece, d: Direction) -> (thrown: (Piece, u32))
        requires
            self.playable(),
            start.wf(),
            self@.holds(start),
        ensures
            thrown.0 == slid(start, d, thrown.1 as int),
            thrown.0.data == start.data,
            thrown.0.cell_value == start.cell_value,
            thrown.0.wf(),
            self@.holds(thrown.0),
            self@.rests_after(start, d, thrown.1 as int),
            thrown.1 + self@.room(thrown.0, d) == self@.room(start, d),
            self@.lands_free(start, thrown.0),
    {
        proof {
            reveal(slid);
        }
        let mut moves: u32 = 0;
        let mut moved = start;
        proof {
            lemma_anchor_near(self@, start);
            assert(slid(start, d, 0).points =~= start.points);
            assert(slid(start, d, 0) == start);
        }
        loop
            invariant_except_break
                self.playable(),
                start.wf(),
                moved.wf(),
                self@.holds(moved),
                moved == slid(start, d, moves as int),
                self@.slides(start, d, moves as int),
                moves + self@.room(moved, d) == self@.room(start, d),
                self@.room(start, d) <= i32::MAX,
                self@.room(moved, d) >= 0,
                self@.lands_free(start, moved),
                moved.data == start.data,
                moved.cell_value == start.cell_value,
            ensures
                moved.data == start.data,
                moved.cell_value == start.cell_value,
                moved.wf(),
                self@.holds(moved),
                moved == slid(start, d, moves as int),
                self@.rests_after(start, d, moves as int),
                moves + self@.room(moved, d) == self@.room(start, d),
                self@.lands_free(start, moved),
            decreases self@.room(moved, d),
        {
            let ghost before = moved;
            proof {
                lemma_anchor_near(self@, moved);
            }
            if !self.try_move_piece(&mut moved, d) {
                break ;
            }
            proof {
                lemma_move_stays_on_board(self@, before, d);
                lemma_step_lands_free(self@, start, before, d);
                lemma_slid_step(self@, start, d, moves as int);
                assert forall|j: int| 0 <= j < moves + 1 implies self@.can_move(
                    #[trigger] slid(start, d, j),
                    d,
                ) by {
                    if j == moves {
                        assert(slid(start, d, j) == before);
                    }
                }
            }
            moves += 1;
        }
        (moved, moves)
    }

    /// Pushes the piece with the given index in direction `d` until it is
    /// stopped, without redrawing it, and says how many steps it took.
    pub fn throw_piece(&mut self, piece_index: usize, d: Direction) -> (moves: u32)
        requires
            old(self).playable(),
            piece_index < 2,
        ensures
            final(self).playable(),
            final(self)@ == old(self)@.thrown(piece_index as int, d),
            moves == old(self)@.throw_distance(old(self)@.piece(piece_index as int), d),
            old(self)@.rests_after(old(self)@.piece(piece_index as int), d, moves as int),
            moves + final(self)@.room(final(self)@.piece(piece_index as int), d) == old(self)@.room(
                old(self)@.piece(piece_index as int),
                d,
            ),
            old(self)@.lands_free(
                old(self)@.piece(piece_index as int),
                final(self)@.piece(piece_index as int),
            ),
    {
        proof {
            reveal(State::thrown);
        }
        let start = if piece_index == FALLER_INDEX {
            self.faller.clone()
        } else {
            self.shadow.clone()
        };
        let (moved, moves) = self.throw(start, d);
        proof {
            lemma_throw_distance(self@, start, d, moves as int);
        }
        if piece_index == FALLER_INDEX {
            self.faller = moved;
        } else {
            self.shadow = moved;
        }
        moves
    }
}

} // verus!
