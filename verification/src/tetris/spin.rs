//! Turning the faller.

use crate::grid::among;
use crate::model::{FALLER_INDEX, State};
use crate::motion::lemma_spin_on_board;
use crate::tetris::Tetris;
use crate::tetromino::{Shape, Side, push_back};
use crate::v2::V2;
use vstd::prelude::*;

verus! {

impl Tetris {
    fn push_back_of(limit: usize, c: i32) -> (push: i32)
        requires
            limit <= i32::MAX,
        ensures
            push == push_back(limit as int, c as int),
    {
        if c < 0 {
            1
        } else if c >= limit as i32 {
            -1
        } else {
            0
        }
    }

    fn kick_of(&self, points: &[V2; 4]) -> (v: V2)
        requires
            self.playable(),
        ensures
            v == self@.kick(*points),
    {
        let x = Self::push_back_of(self.width, points[0].x) + Self::push_back_of(
            self.width,
            points[1].x,
        ) + Self::push_back_of(self.width, points[2].x) + Self::push_back_of(
            self.width,
            points[3].x,
        );
        let y = Self::push_back_of(self.height, points[0].y) + Self::push_back_of(
            self.height,
            points[1].y,
        ) + Self::push_back_of(self.height, points[2].y) + Self::push_back_of(
            self.height,
            points[3].y,
        );
        V2::new(x, y)
    }

    fn hits_at(&self, p: V2) -> (hit: bool)
        requires
            self.playable(),
            self@.in_bounds(p),
        ensures
            hit == (self@.at(p) is Full && !among(self@.faller.points, p)),
    {
        let own = &self.faller.points;
        self.at(p).is_full() && !(own[0] == p || own[1] == p || own[2] == p || own[3] == p)
    }

    /// Turns the faller by one rotation state, to the left or to the right.
    /// The square never turns. Another shape is turned about its anchor and
    /// pushed once towards the board, by one step for each of its cells
    /// outside it; it stays as it was if it would then lie on an occupied
    /// cell that is not its own.
    pub fn spin(&mut self, rotate_left: bool) -> (turned: bool)
        requires
            old(self).playable(),
        ensures
            final(self).playable(),
            turned == old(self)@.can_spin(if rotate_left { Side::Left } else { Side::Right }),
            final(self)@ == old(self)@.spun(if rotate_left { Side::Left } else { Side::Right }),
            old(self)@.synced() ==> final(self)@.synced(),
            old(self)@.drawn() ==> final(self)@.drawn(),
    {
        proof {
            reveal(State::spun);
        }
        if matches!(self.faller.cell_value.unwrap(), Shape::O) {
            return false;
        }
        let ghost side = if rotate_left { Side::Left } else { Side::Right };
        proof {
            lemma_spin_on_board(self@, side);
        }
        let mut rotated = if rotate_left {
            self.faller.rotated_left()
        } else {
            self.faller.rotated_right()
        };
        let v = self.kick_of(&rotated.points);
        if v != V2::new(0, 0) {
            rotated = rotated.translated(v);
        } else {
            assert(rotated.translated_by(v).points =~= rotated.points);
        }
        assert(rotated == self@.spin_target(side));
        let intersects = self.hits_at(rotated.points[0]) || self.hits_at(rotated.points[1])
            || self.hits_at(rotated.points[2]) || self.hits_at(rotated.points[3]);
        if !intersects {
            self.update_piece(FALLER_INDEX, rotated, true);
            return true;
        }
        false
    }
}

} // verus!
