//! Gravity and the actions of the player.

use crate::direction::Direction;
use crate::frames::{
    lemma_after_gravity_frame,
    lemma_dropped_frame,
    lemma_moved_frame,
    lemma_respawned_frame,
    lemma_locked_frame,
};
use crate::input::{Command, GameInput, command_of};
use crate::model::{FALLER_INDEX, SpawningError, State};
use crate::motion::{lemma_anchor_near, lemma_can_move_by_fullness};
use crate::preview::lemma_synced_same_board;
use crate::tetris::Tetris;
use crate::tetromino::{Shape, Side};
use vstd::prelude::*;

verus! {

impl Tetris {
    /// One step of gravity: the faller moves down by a row if it can; if it
    /// cannot, it is locked and a piece of the given shape is called in. The
    /// display counts as changed either way.
    pub fn apply_gravity_with(&mut self, shape: Shape) -> (r: Result<(), SpawningError>)
        requires
            old(self).playable(),
            old(self)@.after_gravity(shape).score <= u32::MAX,
        ensures
            final(self).playable(),
            final(self)@ == old(self)@.after_gravity(shape),
            r is Err <==> old(self)@.gravity_fails(shape),
            old(self)@.synced() ==> final(self)@.synced(),
            r is Ok && old(self)@.drawn() ==> final(self)@.drawn(),
    {
        proof {
            reveal(State::after_gravity);
        }
        self.display_changed = true;
        proof {
            lemma_synced_same_board(old(self)@, self@);
            lemma_can_move_by_fullness(
                old(self)@,
                self@,
                self@.faller,
                self@.faller,
                Direction::Down,
            );
            lemma_after_gravity_frame(old(self)@, shape);
        }
        if !self.try_move_piece_and_update(FALLER_INDEX, Direction::Down) {
            return self.respawn(shape);
        }
        Ok(())
    }

    /// One step of gravity, with the shape of the next piece chosen by the
    /// die.
    pub fn apply_gravity(&mut self) -> (r: Result<(), SpawningError>)
        requires
            old(self).playable(),
            forall|shape: Shape| (#[trigger] old(self)@.after_gravity(shape)).score <= u32::MAX,
        ensures
            final(self).playable(),
            exists|shape: Shape|
                final(self)@ == #[trigger] old(self)@.after_gravity(shape) && (r is Err
                    <==> old(self)@.gravity_fails(shape)),
            old(self)@.synced() ==> final(self)@.synced(),
            r is Ok && old(self)@.drawn() ==> final(self)@.drawn(),
    {
        let shape = crate::random::random_shape();
        self.apply_gravity_with(shape)
    }

    fn spin_and_update(&mut self, rotate_left: bool)
        requires
            old(self).playable(),
        ensures
            final(self).playable(),
            final(self)@ == old(self)@.after_spin(if rotate_left { Side::Left } else { Side::Right }),
            old(self)@.synced() ==> final(self)@.synced(),
            old(self)@.drawn() ==> final(self)@.drawn(),
    {
        proof {
            reveal(State::after_spin);
            reveal(State::spun);
        }
        let changed = if self.spin(rotate_left) {
            self.update_ghost(true);
            true
        } else {
            false
        };
        let ghost drawn = self@;
        self.display_changed = changed;
        proof {
            lemma_synced_same_board(drawn, self@);
        }
    }

    fn shift(&mut self, d: Direction)
        requires
            old(self).playable(),
        ensures
            final(self).playable(),
            final(self)@ == old(self)@.after_shift(d),
            (d == Direction::Left || d == Direction::Right) && old(self)@.synced() ==> final(self)@.synced(),
            old(self)@.drawn() ==> final(self)@.drawn(),
    {
        proof {
            reveal(State::after_shift);
        }
        let changed = self.try_move_piece_and_update(FALLER_INDEX, d);
        let ghost drawn = self@;
        self.display_changed = changed;
        proof {
            lemma_synced_same_board(drawn, self@);
        }
    }

    fn step_down(&mut self)
        requires
            old(self).playable(),
            old(self)@.after_step_down().score <= u32::MAX,
        ensures
            final(self).playable(),
            final(self)@ == old(self)@.after_step_down(),
            old(self)@.synced() ==> final(self)@.synced(),
            old(self)@.drawn() ==> final(self)@.drawn(),
    {
        proof {
            reveal(State::after_step_down);
            lemma_moved_frame(old(self)@, FALLER_INDEX as int, Direction::Down);
        }
        let changed = if self.try_move_piece_and_update(FALLER_INDEX, Direction::Down) {
            let ghost stepped = self@;
            self.score += 1;
            proof {
                lemma_synced_same_board(stepped, self@);
            }
            self.reset_gravity_time();
            true
        } else {
            false
        };
        let ghost drawn = self@;
        self.display_changed = changed;
        proof {
            lemma_synced_same_board(drawn, self@);
        }
    }

    fn drop_down(&mut self, shape: Shape) -> (r: Result<(), SpawningError>)
        requires
            old(self).playable(),
            old(self)@.shadow.pos.y >= old(self)@.faller.pos.y,
            old(self)@.after_drop(shape).score <= u32::MAX,
        ensures
            final(self).playable(),
            final(self)@ == old(self)@.after_drop(shape),
            r is Err <==> old(self)@.dropped().spawn_fails(FALLER_INDEX as int, shape),
            final(self)@.synced(),
            r is Ok ==> final(self)@.drawn(),
    {
        proof {
            reveal(State::after_drop);
            reveal(State::dropped);
            lemma_dropped_frame(old(self)@);
            lemma_respawned_frame(old(self)@.dropped(), shape);
            lemma_locked_frame(old(self)@.dropped(), FALLER_INDEX as int);
            lemma_anchor_near(self@, self.shadow);
            lemma_anchor_near(self@, self.faller);
        }
        self.score += 2 * (self.shadow.pos.y - self.faller.pos.y) as u32;
        let landed = self.shadow.clone_as_full();
        self.update_piece(FALLER_INDEX, landed, false);
        assert(self@ == old(self)@.dropped());
        match self.respawn(shape) {
            Err(e) => {
                return Err(e);
            },
            Ok(()) => {},
        }
        let ghost respawned = self@;
        self.display_changed = true;
        proof {
            lemma_synced_same_board(respawned, self@);
        }
        Ok(())
    }

    /// Acts on what the player asked for; `shape` is the shape of the next
    /// piece, should one be called in. A turn is followed by a second look
    /// at the landing preview. A step down pays one point and starts the
    /// gravity timer afresh. A drop pays two points for every row between
    /// the faller and its landing preview, locks the faller there and calls
    /// in the next piece. The display counts as changed exactly when the
    /// action had an effect.
    pub fn handle_user_input_with(&mut self, action: GameInput, shape: Shape) -> (r: Result<
        (),
        SpawningError,
    >)
        requires
            old(self).playable(),
            action == GameInput::DropDown ==> old(self)@.shadow.pos.y >= old(self)@.faller.pos.y,
            old(self)@.after_input(action, shape).score <= u32::MAX,
        ensures
            final(self).playable(),
            final(self)@ == old(self)@.after_input(action, shape),
            r is Err <==> old(self)@.input_fails(action, shape),
            old(self)@.synced() ==> final(self)@.synced(),
            r is Ok && old(self)@.drawn() ==> final(self)@.drawn(),
    {
        match action {
            GameInput::SpinLeft => {
                self.spin_and_update(true);
                Ok(())
            },
            GameInput::SpinRight => {
                self.spin_and_update(false);
                Ok(())
            },
            GameInput::MoveLeft => {
                self.shift(Direction::Left);
                Ok(())
            },
            GameInput::MoveRight => {
                self.shift(Direction::Right);
                Ok(())
            },
            GameInput::MoveDown => {
                self.step_down();
                Ok(())
            },
            GameInput::DropDown => self.drop_down(shape),
        }
    }

    /// Acts on what the player asked for, with the shape of the next piece
    /// chosen by the die.
    pub fn handle_user_input(&mut self, action: GameInput) -> (r: Result<(), SpawningError>)
        requires
            old(self).playable(),
            action == GameInput::DropDown ==> old(self)@.shadow.pos.y >= old(self)@.faller.pos.y,
            forall|shape: Shape| (#[trigger] old(self)@.after_input(action, shape)).score <= u32::MAX,
        ensures
            final(self).playable(),
            exists|shape: Shape|
                final(self)@ == #[trigger] old(self)@.after_input(action, shape) && (r is Err
                    <==> old(self)@.input_fails(action, shape)),
            old(self)@.synced() ==> final(self)@.synced(),
            r is Ok && old(self)@.drawn() ==> final(self)@.drawn(),
    {
        let shape = crate::random::random_shape();
        self.handle_user_input_with(action, shape)
    }

    /// What a key stands for.
    pub fn decode_key(key: u8) -> (command: Command)
        ensures
            command == command_of(key),
    {
        if key == 0x77 || key == 0x57 {
            Command::Play(GameInput::SpinLeft)
        } else if key == 0x71 || key == 0x51 {
            Command::Play(GameInput::SpinRight)
        } else if key == 0x61 || key == 0x41 {
            Command::Play(GameInput::MoveLeft)
        } else if key == 0x64 || key == 0x44 {
            Command::Play(GameInput::MoveRight)
        } else if key == 0x73 || key == 0x53 {
            Command::Play(GameInput::MoveDown)
        } else if key == 0x20 {
            Command::Play(GameInput::DropDown)
        } else if key == 0x78 || key == 0x58 {
            Command::Quit
        } else {
            Command::Idle
        }
    }
}

} // verus!
