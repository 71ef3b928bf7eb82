//! The game loop, one turn at a time.

use crate::frames::{
    lemma_after_gravity_frame,
    lemma_after_input_frame,
    lemma_gravity_phase_frame,
    lemma_locked_frame,
    lemma_locked_whether_over,
    lemma_turn_score,
};
use crate::input::{Command, command_of};
use crate::model::{
    FALLER_INDEX,
    GAME_DRAW_INTERVAL,
    GAME_GRAVITY_INTERVAL,
    SpawningError,
    State,
    Turn,
    USER_INPUT_INTERVAL,
};
use crate::preview::{lemma_insert_keeps_sync, lemma_synced_same_board};
use crate::tetris::Tetris;
use crate::tetromino::Shape;
use vstd::prelude::*;

verus! {

impl Tetris {
    /// Whether the input is due at time `now`, so that a key has to be read
    /// for the turn of the loop at that time.
    pub fn input_due(&self, now: u64) -> (due: bool)
        ensures
            due == (now >= self@.next_input_time),
    {
        now >= self.next_input_time
    }

    /// Starts the game at time `now` with a first piece of the given shape:
    /// the game is no longer over, the piece is brought into play and drawn
    /// with its landing preview, and all three timers are due at once. If the
    /// piece finds its cells taken, the game is over again and nothing is
    /// placed.
    pub fn start_with(&mut self, now: u64, shape: Shape) -> (r: Result<(), SpawningError>)
        requires
            old(self).playable(),
            now + 2 * GAME_GRAVITY_INTERVAL <= u64::MAX,
            old(self)@.locked(FALLER_INDEX as int).score <= u32::MAX,
        ensures
            final(self).playable(),
            final(self)@ == old(self)@.started(now as nat, shape),
            r is Err <==> old(self)@.spawn_fails(FALLER_INDEX as int, shape),
            r is Ok ==> final(self)@.synced(),
            r is Ok ==> final(self)@.drawn(),
    {
        self.game_over = false;
        proof {
            lemma_locked_whether_over(old(self)@, false, FALLER_INDEX as int, shape);
        }
        match self.spawn_piece(FALLER_INDEX, shape) {
            Err(e) => {
                self.game_over = true;
                return Err(e);
            },
            Ok(()) => {},
        }
        self.update_ghost(false);
        proof {
            lemma_insert_keeps_sync(self@);
        }
        self.insert_piece(FALLER_INDEX);
        let ghost placed = self@;
        self.now = now;
        self.next_frame_time = now;
        self.next_gravity_time = now;
        self.next_input_time = now;
        proof {
            lemma_synced_same_board(placed, self@);
        }
        Ok(())
    }

    /// Starts the game at time `now` with a first piece of a shape chosen by
    /// the die.
    pub fn start(&mut self, now: u64) -> (r: Result<(), SpawningError>)
        requires
            old(self).playable(),
            now + 2 * GAME_GRAVITY_INTERVAL <= u64::MAX,
            old(self)@.locked(FALLER_INDEX as int).score <= u32::MAX,
        ensures
            final(self).playable(),
            exists|shape: Shape|
                final(self)@ == #[trigger] old(self)@.started(now as nat, shape) && (r is Err
                    <==> old(self)@.spawn_fails(FALLER_INDEX as int, shape)),
            r is Ok ==> final(self)@.synced(),
            r is Ok ==> final(self)@.drawn(),
    {
        let shape = crate::random::random_shape();
        self.start_with(now, shape)
    }

    fn input_turn(&mut self, key: u8, shape: Shape) -> (lost: bool)
        requires
            old(self).playable(),
            old(self)@.shadow.pos.y >= old(self)@.faller.pos.y,
            old(self)@.input_phase(key, shape).score <= u32::MAX,
        ensures
            final(self).playable(),
            final(self)@ == old(self)@.input_phase(key, shape),
            lost == old(self)@.lost_in_input(key, shape),
            old(self)@.synced() ==> final(self)@.synced(),
            !lost && old(self)@.drawn() ==> final(self)@.drawn(),
    {
        proof {
            reveal(State::input_phase);
            if let Command::Play(action) = command_of(key) {
                lemma_after_input_frame(old(self)@, action, shape);
            }
        }
        if self.now >= self.next_input_time {
            let r = match Self::decode_key(key) {
                Command::Play(action) => self.handle_user_input_with(action, shape),
                Command::Quit => {
                    self.end_game();
                    Ok(())
                },
                Command::Idle => Ok(()),
            };
            let ghost played = self@;
            if r.is_err() {
                self.game_over = true;
                proof {
                    lemma_synced_same_board(played, self@);
                }
                return true;
            }
            self.next_input_time += USER_INPUT_INTERVAL;
            proof {
                lemma_synced_same_board(played, self@);
            }
        }
        false
    }

    fn gravity_turn(&mut self, shape: Shape) -> (lost: bool)
        requires
            old(self).playable(),
            old(self)@.gravity_phase(shape).score <= u32::MAX,
        ensures
            final(self).playable(),
            final(self)@ == old(self)@.gravity_phase(shape),
            lost == old(self)@.lost_in_gravity(shape),
            old(self)@.synced() ==> final(self)@.synced(),
            !lost && old(self)@.drawn() ==> final(self)@.drawn(),
    {
        proof {
            reveal(State::gravity_phase);
            lemma_after_gravity_frame(old(self)@, shape);
        }
        if self.now >= self.next_gravity_time {
            let fell = self.apply_gravity_with(shape);
            let ghost fallen = self@;
            if fell.is_err() {
                self.game_over = true;
                proof {
                    lemma_synced_same_board(fallen, self@);
                }
                return true;
            }
            self.update_next_gravity_time();
        }
        false
    }

    fn frame_turn(&mut self) -> (redraw: bool)
        requires
            old(self).playable(),
            old(self)@.now + GAME_DRAW_INTERVAL <= u64::MAX,
        ensures
            final(self).playable(),
            final(self)@ == old(self)@.frame_phase(),
            redraw == old(self)@.frame_due(),
            old(self)@.synced() ==> final(self)@.synced(),
            old(self)@.drawn() ==> final(self)@.drawn(),
    {
        if self.display_changed && self.now >= self.next_frame_time {
            self.next_frame_time += GAME_DRAW_INTERVAL;
            self.display_changed = false;
            proof {
                lemma_synced_same_board(old(self)@, self@);
            }
            return true;
        }
        false
    }

    /// One turn of the game loop at time `now`. If the input is due, `key`
    /// is acted on and the next poll put off; if gravity is due, it takes its
    /// step and the next step is put off; if the display has changed and a
    /// frame is due, the next frame is put off and the caller is told to
    /// draw. Each timer moves on by its own interval. A piece that cannot be
    /// brought into play ends the turn at once, and the game with a loss.
    /// `first` and `second` are the shapes of the pieces that the input and
    /// gravity call in, should they call one in.
    pub fn advance_with(&mut self, now: u64, key: u8, first: Shape, second: Shape) -> (turn: Turn)
        requires
            old(self).playable(),
            now + 2 * GAME_GRAVITY_INTERVAL <= u64::MAX,
            old(self)@.shadow.pos.y >= old(self)@.faller.pos.y,
            old(self)@.begun(now as nat).input_phase(key, first).score <= u32::MAX,
            old(self)@.after_turn(now as nat, key, first, second).score <= u32::MAX,
        ensures
            final(self).playable(),
            final(self)@ == old(self)@.after_turn(now as nat, key, first, second),
            turn == old(self)@.turn_outcome(now as nat, key, first, second),
            old(self)@.synced() ==> final(self)@.synced(),
            turn != Turn::Lost && old(self)@.drawn() ==> final(self)@.drawn(),
    {
        self.now = now;
        proof {
            lemma_synced_same_board(old(self)@, self@);
        }
        if self.input_turn(key, first) {
            return Turn::Lost;
        }
        proof {
            reveal(State::gravity_phase);
        }
        if self.gravity_turn(second) {
            return Turn::Lost;
        }
        proof {
            lemma_gravity_phase_frame(old(self)@.begun(now as nat).input_phase(key, first), second);
        }
        let redraw = self.frame_turn();
        Turn::Continue { redraw }
    }

    /// One turn of the game loop at time `now`, with the shapes of the next
    /// pieces chosen by the die.
    pub fn advance(&mut self, now: u64, key: u8) -> (turn: Turn)
        requires
            old(self).playable(),
            now + 2 * GAME_GRAVITY_INTERVAL <= u64::MAX,
            old(self)@.shadow.pos.y >= old(self)@.faller.pos.y,
            forall|first: Shape|
                (#[trigger] old(self)@.begun(now as nat).input_phase(key, first)).score <= u32::MAX,
            forall|first: Shape, second: Shape|
                (#[trigger] old(self)@.after_turn(now as nat, key, first, second)).score
                    <= u32::MAX,
        ensures
            final(self).playable(),
            exists|first: Shape, second: Shape|
                final(self)@ == #[trigger] old(self)@.after_turn(now as nat, key, first, second)
                    && turn == old(self)@.turn_outcome(now as nat, key, first, second),
            old(self)@.synced() ==> final(self)@.synced(),
            turn != Turn::Lost && old(self)@.drawn() ==> final(self)@.drawn(),
    {
        let first = crate::random::random_shape();
        let second = crate::random::random_shape();
        self.advance_with(now, key, first, second)
    }

    /// Whether the game can be started at time `now` without a counter
    /// leaving its machine range: the clock has two gravity intervals to go,
    /// and the score has room for the most that locking a piece can pay.
    pub fn can_start(&self, now: u64) -> (ok: bool)
        requires
            self.wf(),
        ensures
            ok == (now + 2 * GAME_GRAVITY_INTERVAL <= u64::MAX && self@.score + 1200 <= u32::MAX),
            ok ==> self@.locked(FALLER_INDEX as int).score <= u32::MAX,
    {
        proof {
            lemma_locked_frame(self@, FALLER_INDEX as int);
        }
        now <= u64::MAX - 2 * GAME_GRAVITY_INTERVAL && self.score <= u32::MAX - 1200
    }

    /// Whether a turn of the loop can be taken at time `now`, whatever the
    /// key and the shapes, without a counter leaving its machine range: the
    /// clock has two gravity intervals to go, the landing preview is not
    /// above the faller, and the score has room for the most that a turn can
    /// pay.
    pub fn can_advance(&self, now: u64) -> (ok: bool)
        requires
            self.playable(),
        ensures
            ok == (now + 2 * GAME_GRAVITY_INTERVAL <= u64::MAX && self@.shadow.pos.y
                >= self@.faller.pos.y && self@.score + 2 * self@.height + 2400 <= u32::MAX),
            ok ==> forall|key: u8, first: Shape|
                (#[trigger] self@.begun(now as nat).input_phase(key, first)).score <= u32::MAX,
            ok ==> forall|key: u8, first: Shape, second: Shape|
                (#[trigger] self@.after_turn(now as nat, key, first, second)).score <= u32::MAX,
    {
        let ok = now <= u64::MAX - 2 * GAME_GRAVITY_INTERVAL && self.shadow.pos.y
            >= self.faller.pos.y && self.score as u64 + 2 * self.height as u64 + 2400
            <= u32::MAX as u64;
        proof {
            if ok {
                assert forall|key: u8, first: Shape, second: Shape|
                    (#[trigger] self@.after_turn(now as nat, key, first, second)).score
                        <= u32::MAX by {
                    lemma_turn_score(self@, now as nat, key, first, second);
                }
                assert forall|key: u8, first: Shape|
                    (#[trigger] self@.begun(now as nat).input_phase(key, first)).score
                        <= u32::MAX by {
                    lemma_turn_score(self@, now as nat, key, first, Shape::I);
                }
            }
        }
        ok
    }

    /// How long the loop may sleep at time `actual_now`: until the earliest
    /// of the three times at which something is due, and not at all if that
    /// time has come.
    pub fn time_to_sleep(&self, actual_now: u64) -> (nanos: u64)
        ensures
            nanos == if self@.next_wake() > actual_now {
                self@.next_wake() - actual_now
            } else {
                0
            },
    {
        let first = if self.next_input_time <= self.next_gravity_time {
            self.next_input_time
        } else {
            self.next_gravity_time
        };
        let soonest = if self.next_frame_time <= first {
            self.next_frame_time
        } else {
            first
        };
        if soonest > actual_now {
            soonest - actual_now
        } else {
            0
        }
    }
}

} // verus!
