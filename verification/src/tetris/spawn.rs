//! Bringing the next piece into play.

use crate::cell::Cell;
use crate::frames::lemma_locked_frame;
use crate::model::{FALLER_INDEX, GAME_GRAVITY_INTERVAL, SpawningError, State};
use crate::motion::lemma_spawn_on_board;
use crate::piece::Piece;
use crate::preview::{lemma_insert_keeps_sync, lemma_synced_same_board};
use crate::tetris::Tetris;
use crate::tetromino::Shape;
use crate::v2::V2;
use vstd::prelude::*;

verus! {

impl Tetris {
    /// Brings a piece of the given shape into play at the top centre. The
    /// piece with the given index is locked first: the bonus for a wedged T
    /// is looked for, and the rows that the piece touches are dealt with.
    /// If a spawn cell is then occupied the game is over and nothing is
    /// placed. Otherwise the piece becomes the faller, its landing preview
    /// is drawn, then the piece itself, and the gravity timer starts afresh.
    pub fn spawn_piece(&mut self, index_of_piece_to_clear: usize, shape: Shape) -> (r: Result<
        (),
        SpawningError,
    >)
        requires
            old(self).playable(),
            index_of_piece_to_clear < 2,
            old(self)@.locked(index_of_piece_to_clear as int).score
                <= u32::MAX,
        ensures
            final(self).playable(),
            final(self)@ == old(self)@.spawned(index_of_piece_to_clear as int, shape),
            r is Err <==> old(self)@.spawn_fails(index_of_piece_to_clear as int, shape),
            r is Ok ==> final(self)@.synced(),
            r is Ok ==> final(self)@.drawn(),
    {
        proof {
            reveal(State::spawned);
        }
        let points = if index_of_piece_to_clear == FALLER_INDEX {
            self.faller.points
        } else {
            self.shadow.points
        };
        proof {
            lemma_locked_frame(old(self)@, index_of_piece_to_clear as int);
        }
        self.check_t_spin();
        self.clear_rows_and_update_score(&points);
        proof {
            lemma_spawn_on_board(self@, shape);
        }
        let piece = Piece::new(V2::new((self.width / 2) as i32, 0), Cell::Full(shape));
        if self.at(piece.points[0]).is_full() || self.at(piece.points[1]).is_full() || self.at(
            piece.points[2],
        ).is_full() || self.at(piece.points[3]).is_full() {
            return Err(SpawningError::GameOver);
        }
        self.faller = piece;
        self.update_ghost(false);
        proof {
            lemma_insert_keeps_sync(self@);
        }
        self.insert_piece(FALLER_INDEX);
        self.reset_gravity_time();
        Ok(())
    }

    /// Brings a piece of a shape chosen by the die into play, as
    /// `spawn_piece` does for a given shape.
    pub fn spawn_random_piece(&mut self, index_of_piece_to_clear: usize) -> (r: Result<
        (),
        SpawningError,
    >)
        requires
            old(self).playable(),
            index_of_piece_to_clear < 2,
            old(self)@.locked(index_of_piece_to_clear as int).score
                <= u32::MAX,
        ensures
            final(self).playable(),
            exists|shape: Shape|
                final(self)@ == #[trigger] old(self)@.spawned(index_of_piece_to_clear as int, shape)
                    && (r is Err <==> old(self)@.spawn_fails(index_of_piece_to_clear as int, shape)),
            r is Ok ==> final(self)@.synced(),
            r is Ok ==> final(self)@.drawn(),
    {
        let shape = crate::random::random_shape();
        self.spawn_piece(index_of_piece_to_clear, shape)
    }

    /// Makes the next step of gravity due one interval after the current
    /// turn of the loop.
    pub fn reset_gravity_time(&mut self)
        requires
            old(self).playable(),
        ensures
            final(self).playable(),
            final(self)@ == old(self)@.gravity_reset(),
            old(self)@.synced() ==> final(self)@.synced(),
            old(self)@.drawn() ==> final(self)@.drawn(),
    {
        self.next_gravity_time = self.now;
        proof {
            lemma_synced_same_board(old(self)@, self@);
        }
        self.update_next_gravity_time();
    }

    /// Puts the next step of gravity off by one interval.
    pub fn update_next_gravity_time(&mut self)
        requires
            old(self).playable(),
            old(self)@.next_gravity_time + GAME_GRAVITY_INTERVAL <= u64::MAX,
        ensures
            final(self).playable(),
            final(self)@ == old(self)@.gravity_put_off(),
            old(self)@.synced() ==> final(self)@.synced(),
            old(self)@.drawn() ==> final(self)@.drawn(),
    {
        self.next_gravity_time += GAME_GRAVITY_INTERVAL;
        proof {
            lemma_synced_same_board(old(self)@, self@);
        }
    }

    /// Locks the faller and calls in a piece of the given shape, then brings
    /// the landing preview up to date, whether or not the piece came in.
    pub fn respawn(&mut self, shape: Shape) -> (r: Result<(), SpawningError>)
        requires
            old(self).playable(),
            old(self)@.locked(FALLER_INDEX as int).score <= u32::MAX,
        ensures
            final(self).playable(),
            final(self)@ == old(self)@.respawned(shape),
            r is Err <==> old(self)@.spawn_fails(FALLER_INDEX as int, shape),
            final(self)@.synced(),
            r is Ok ==> final(self)@.drawn(),
    {
        proof {
            reveal(State::respawned);
        }
        let r = self.spawn_piece(FALLER_INDEX, shape);
        self.update_ghost(false);
        r
    }

    /// Locks the faller and calls in a piece of a shape chosen by the die,
    /// as `respawn` does for a given shape.
    pub fn spawn_piece_and_update_ghost(&mut self) -> (r: Result<(), SpawningError>)
        requires
            old(self).playable(),
            old(self)@.locked(FALLER_INDEX as int).score <= u32::MAX,
        ensures
            final(self).playable(),
            exists|shape: Shape|
                final(self)@ == #[trigger] old(self)@.respawned(shape) && (r is Err
                    <==> old(self)@.spawn_fails(FALLER_INDEX as int, shape)),
            final(self)@.synced(),
            r is Ok ==> final(self)@.drawn(),
    {
        let shape = crate::random::random_shape();
        self.respawn(shape)
    }
}

} // verus!
