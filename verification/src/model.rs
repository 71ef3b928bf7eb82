//! The mathematical model of the game: the state as plain values, and each
//! operation of the engine as a function from state to state.

use crate::cell::Cell;
use crate::direction::Direction;
use crate::grid::{
    among,
    clear_score,
    index_of,
    painted,
    painted_around,
    rows_cleared,
    sweep,
    unshadowed,
};
use crate::input::{Command, GameInput, command_of};
use crate::piece::Piece;
use crate::tetromino::{Shape, Side, push_back};
use crate::tetromino::data::Flags;
use crate::v2::V2;
use vstd::prelude::*;

verus! {

/// Index of the piece under the player's control.
pub const FALLER_INDEX: usize = 0;

/// Index of the landing preview of the faller.
pub const GHOST_INDEX: usize = 1;

/// The narrowest board on which every shape spawns and turns inside the walls.
pub const MIN_WIDTH: usize = 5;

/// The lowest board on which every shape spawns and turns inside the walls.
pub const MIN_HEIGHT: usize = 4;

/// Nanoseconds between two polls of the input.
pub const USER_INPUT_INTERVAL: u64 = 5_000_000;

/// Nanoseconds between two steps of gravity.
pub const GAME_GRAVITY_INTERVAL: u64 = 1_000_000_000;

/// Nanoseconds between two frames: a twenty-fourth of a second, in whole
/// milliseconds.
pub const GAME_DRAW_INTERVAL: u64 = 41_000_000;

/// Points for a T piece that lands with three of its corners taken.
pub const T_SPIN_SCORE: u32 = 400;

/// Why a piece could not be brought into play.
#[derive(Copy, Clone, Debug, PartialEq, Eq, Structural)]
pub enum SpawningError {
    /// The cells where the piece would appear are taken.
    GameOver,
}

/// How a turn of the game loop ended.
#[derive(Copy, Clone, Debug, PartialEq, Eq, Structural)]
pub enum Turn {
    /// The game goes on, and the frame is to be drawn if `redraw` says so.
    Continue { redraw: bool },
    /// A piece could not be brought into play: the game is lost.
    Lost,
}

/// The piece after `k` steps in direction `d`.
#[verifier::opaque]
pub open spec fn slid(piece: Piece, d: Direction, k: int) -> Piece {
    match d {
        Direction::Up => piece.translated_by(V2 { x: 0, y: (-k) as i32 }),
        Direction::Down => piece.translated_by(V2 { x: 0, y: k as i32 }),
        Direction::Left => piece.translated_by(V2 { x: (-k) as i32, y: 0 }),
        Direction::Right => piece.translated_by(V2 { x: k as i32, y: 0 }),
    }
}

/// The game as plain values.
pub struct State {
    pub width: nat,
    pub height: nat,
    /// The grid, row by row from the top.
    pub cells: Seq<Cell>,
    pub score: nat,
    pub game_over: bool,
    /// The piece under the player's control.
    pub faller: Piece,
    /// Where the faller would land: the landing preview.
    pub shadow: Piece,
    pub display_changed: bool,
    /// The time of the current turn of the loop, in nanoseconds.
    pub now: nat,
    pub next_frame_time: nat,
    pub next_gravity_time: nat,
    pub next_input_time: nat,
}

impl State {
    /// Whether `p` is a cell of the board.
    pub open spec fn in_bounds(self, p: V2) -> bool {
        0 <= p.x < self.width && 0 <= p.y < self.height
    }

    /// The cell at `p`.
    pub open spec fn at(self, p: V2) -> Cell {
        self.cells[index_of(self.width as int, p)]
    }

    /// Whether all four cells of `piece` are cells of the board.
    pub open spec fn holds(self, piece: Piece) -> bool {
        &&& self.in_bounds(piece.points[0])
        &&& self.in_bounds(piece.points[1])
        &&& self.in_bounds(piece.points[2])
        &&& self.in_bounds(piece.points[3])
    }

    /// The board has a size, the grid has one cell per position, both
    /// pieces are well-formed, and every counter is within its machine range.
    pub open spec fn wf(self) -> bool {
        &&& 0 < self.width < i32::MAX
        &&& 0 < self.height < i32::MAX
        &&& self.cells.len() == self.width * self.height
        &&& self.cells.len() <= usize::MAX
        &&& self.score <= u32::MAX
        &&& self.faller.wf()
        &&& self.shadow.wf()
        &&& self.faller.cell_value is Full
        &&& self.shadow.cell_value is Shadow
        &&& self.now + 2 * GAME_GRAVITY_INTERVAL <= u64::MAX
        &&& self.next_frame_time <= u64::MAX
        &&& self.next_gravity_time <= u64::MAX
        &&& self.next_input_time <= u64::MAX
    }

    /// Whether the game can be played on the board: the state is
    /// well-formed, the board has room for every shape to appear and to
    /// turn, and both pieces lie inside its walls.
    pub open spec fn playable(self) -> bool {
        &&& self.wf()
        &&& MIN_WIDTH <= self.width
        &&& MIN_HEIGHT <= self.height
        &&& self.holds(self.faller)
        &&& self.holds(self.shadow)
    }

    /// The piece with the given index: the faller, or else its preview.
    pub open spec fn piece(self, index: int) -> Piece {
        if index == FALLER_INDEX {
            self.faller
        } else {
            self.shadow
        }
    }

    /// The state with another piece at the given index.
    pub open spec fn with_piece(self, index: int, piece: Piece) -> State {
        if index == FALLER_INDEX {
            State { faller: piece, ..self }
        } else {
            State { shadow: piece, ..self }
        }
    }

    /// The state with another grid.
    pub open spec fn with_cells(self, cells: Seq<Cell>) -> State {
        State { cells, ..self }
    }

    /// The state with `value` at `p`.
    pub open spec fn with_cell(self, p: V2, value: Cell) -> State {
        self.with_cells(self.cells.update(index_of(self.width as int, p), value))
    }

    /// The state with `value` written at the cells of the piece with the
    /// given index.
    pub open spec fn filled(self, index: int, value: Cell) -> State {
        self.with_cells(painted(self.cells, self.width as int, self.piece(index).points, value))
    }

    /// The state with the cells of the piece with the given index emptied.
    pub open spec fn piece_removed(self, index: int) -> State {
        self.filled(index, Cell::Empty)
    }

    /// The state with the piece with the given index drawn on the grid.
    pub open spec fn piece_inserted(self, index: int) -> State {
        self.filled(index, self.piece(index).cell_value)
    }

    /// Whether cell `i` of `piece` does not stand in the way of a step in
    /// direction `d`: a cell whose mask holds `d` must arrive on the board and
    /// not on an occupied cell; the other cells are not looked at.
    pub open spec fn cell_clear(self, piece: Piece, d: Direction, i: int) -> bool {
        piece.data.masks()[i].contains(Flags(d.bit())) ==> {
            let target = piece.points[i].plus(d.delta());
            self.in_bounds(target) && !(self.at(target) is Full)
        }
    }

    /// Whether `piece` can take one step in direction `d`.
    #[verifier::opaque]
    pub open spec fn can_move(self, piece: Piece, d: Direction) -> bool {
        &&& self.cell_clear(piece, d, 0)
        &&& self.cell_clear(piece, d, 1)
        &&& self.cell_clear(piece, d, 2)
        &&& self.cell_clear(piece, d, 3)
    }

    /// Whether `piece` can take `k` steps in direction `d`, one after another.
    pub open spec fn slides(self, piece: Piece, d: Direction, k: int) -> bool {
        forall|j: int| 0 <= j < k ==> self.can_move(#[trigger] slid(piece, d, j), d)
    }

    /// Whether `piece` comes to rest after exactly `k` steps in direction `d`.
    pub open spec fn rests_after(self, piece: Piece, d: Direction, k: int) -> bool {
        0 <= k && self.slides(piece, d, k) && !self.can_move(slid(piece, d, k), d)
    }

    /// The number of steps that `piece` can take in direction `d` before it
    /// is stopped.
    pub open spec fn throw_distance(self, piece: Piece, d: Direction) -> int {
        choose|k: int| self.rests_after(piece, d, k)
    }

    /// Whether cell `i` of `piece` lies on a cell of `own` or on a cell that
    /// is not occupied.
    pub open spec fn free_at(self, own: Piece, piece: Piece, i: int) -> bool {
        among(own.points, piece.points[i]) || !(self.at(piece.points[i]) is Full)
    }

    /// Whether every cell of `piece` lies on a cell of `own` or on a cell
    /// that is not occupied.
    pub open spec fn lands_free(self, own: Piece, piece: Piece) -> bool {
        &&& self.free_at(own, piece, 0)
        &&& self.free_at(own, piece, 1)
        &&& self.free_at(own, piece, 2)
        &&& self.free_at(own, piece, 3)
    }

    /// Whether the faller is drawn on the grid: each of its cells holds the
    /// kind of cell that the faller is drawn with.
    pub open spec fn drawn(self) -> bool {
        &&& self.at(self.faller.points[0]) == self.faller.cell_value
        &&& self.at(self.faller.points[1]) == self.faller.cell_value
        &&& self.at(self.faller.points[2]) == self.faller.cell_value
        &&& self.at(self.faller.points[3]) == self.faller.cell_value
    }

    /// Whether the landing preview is where the faller comes to rest when it
    /// is dropped: turned as the faller is, in its column, and as many rows
    /// below it as the faller can fall.
    pub open spec fn synced(self) -> bool {
        &&& self.shadow.data == self.faller.data
        &&& self.shadow.pos.x == self.faller.pos.x
        &&& self.rests_after(
            self.faller,
            Direction::Down,
            self.shadow.pos.y - self.faller.pos.y,
        )
    }

    /// How far the anchor of `piece` is from the last row or column that it
    /// can reach in direction `d`.
    pub open spec fn room(self, piece: Piece, d: Direction) -> int {
        match d {
            Direction::Up => piece.pos.y + 1,
            Direction::Down => self.height - 1 - piece.pos.y,
            Direction::Left => piece.pos.x + 1,
            Direction::Right => self.width - 1 - piece.pos.x,
        }
    }

    /// The state after the piece with the given index was pushed in
    /// direction `d` until it was stopped. The grid is not redrawn.
    #[verifier::opaque]
    pub open spec fn thrown(self, index: int, d: Direction) -> State {
        let piece = self.piece(index);
        self.with_piece(index, slid(piece, d, self.throw_distance(piece, d)))
    }

    /// The state with the preview cells of the old landing preview emptied,
    /// unless the preview sits on the faller.
    pub open spec fn ghost_removed(self) -> State {
        if self.shadow.pos != self.faller.pos {
            self.with_cells(unshadowed(self.cells, self.width as int, self.shadow.points))
        } else {
            self
        }
    }

    /// The state with the landing preview drawn on the grid, but for the
    /// cells that it shares with the faller.
    pub open spec fn ghost_drawn(self) -> State {
        self.with_cells(
            painted_around(
                self.cells,
                self.width as int,
                self.shadow.points,
                self.shadow.cell_value,
                self.faller.points,
            ),
        )
    }

    /// The state after the landing preview was brought up to date: the old
    /// one is wiped if asked for, the new one is the faller dropped as far as
    /// it goes, and it is drawn if it is not where the faller is.
    #[verifier::opaque]
    pub open spec fn ghost_updated(self, try_remove: bool) -> State {
        let wiped = if try_remove {
            self.ghost_removed()
        } else {
            self
        };
        let copied = wiped.with_piece(
            GHOST_INDEX as int,
            wiped.faller.with_cell(Cell::Shadow(wiped.faller.cell_value.shape())),
        );
        let dropped = copied.thrown(GHOST_INDEX as int, Direction::Down);
        if dropped.shadow.pos != dropped.faller.pos {
            dropped.ghost_drawn()
        } else {
            dropped
        }
    }

    /// The state after the piece with the given index was replaced: its old
    /// cells are emptied, the new piece is drawn, and the landing preview is
    /// brought up to date if asked for.
    #[verifier::opaque]
    pub open spec fn piece_updated(self, index: int, piece: Piece, update_ghost: bool) -> State {
        let replaced = self.piece_removed(index).with_piece(index, piece).piece_inserted(index);
        if update_ghost {
            replaced.ghost_updated(true)
        } else {
            replaced
        }
    }

    /// The state after an attempt to move the piece with the given index one
    /// step in direction `d`: nothing changes if the step is not possible. The
    /// landing preview is brought up to date after a step sideways.
    #[verifier::opaque]
    pub open spec fn moved(self, index: int, d: Direction) -> State {
        if self.can_move(self.piece(index), d) {
            self.piece_updated(
                index,
                self.piece(index).translated_by(d.delta()),
                d == Direction::Left || d == Direction::Right,
            )
        } else {
            self
        }
    }

    /// The single push that brings a turned piece back towards the board:
    /// each cell left of the board adds one step to the right, each cell
    /// right of it one to the left, and likewise above and below. The steps
    /// add up; they are not cut off.
    pub open spec fn kick(self, points: [V2; 4]) -> V2 {
        let (w, h) = (self.width as int, self.height as int);
        V2 {
            x: (push_back(w, points[0].x as int) + push_back(w, points[1].x as int) + push_back(
                w,
                points[2].x as int,
            ) + push_back(w, points[3].x as int)) as i32,
            y: (push_back(h, points[0].y as int) + push_back(h, points[1].y as int) + push_back(
                h,
                points[2].y as int,
            ) + push_back(h, points[3].y as int)) as i32,
        }
    }

    /// Where the faller would be after a turn to `side` and the push back
    /// towards the board.
    pub open spec fn spin_target(self, side: Side) -> Piece {
        let turned = self.faller.turned(side);
        turned.translated_by(self.kick(turned.points))
    }

    /// Whether cell `i` of `piece` lies on an occupied cell that is not one
    /// of the faller's own.
    pub open spec fn hits_at(self, piece: Piece, i: int) -> bool {
        self.at(piece.points[i]) is Full && !among(self.faller.points, piece.points[i])
    }

    /// Whether `piece` lies on an occupied cell that is not one of the
    /// faller's own.
    pub open spec fn hits(self, piece: Piece) -> bool {
        ||| self.hits_at(piece, 0)
        ||| self.hits_at(piece, 1)
        ||| self.hits_at(piece, 2)
        ||| self.hits_at(piece, 3)
    }

    /// Whether the faller can be turned to `side`: the square never turns,
    /// and no other shape turns onto occupied cells.
    pub open spec fn can_spin(self, side: Side) -> bool {
        self.faller.cell_value.shape() != Shape::O && !self.hits(self.spin_target(side))
    }

    /// The state after an attempt to turn the faller to `side`.
    #[verifier::opaque]
    pub open spec fn spun(self, side: Side) -> State {
        if self.can_spin(side) {
            self.piece_updated(FALLER_INDEX as int, self.spin_target(side), true)
        } else {
            self
        }
    }

    /// Whether the cell diagonally next to the faller's anchor, `dx` to the
    /// side and `dy` down, is on the board and occupied.
    pub open spec fn corner_taken(self, dx: int, dy: int) -> bool {
        let p = V2 { x: (self.faller.pos.x + dx) as i32, y: (self.faller.pos.y + dy) as i32 };
        self.in_bounds(p) && self.at(p) is Full
    }

    /// The number of taken corners around the faller's anchor.
    pub open spec fn corners_taken(self) -> int {
        (if self.corner_taken(-1, -1) { 1int } else { 0 }) + (if self.corner_taken(1, -1) { 1int } else { 0 })
            + (if self.corner_taken(-1, 1) { 1int } else { 0 }) + (if self.corner_taken(1, 1) { 1int } else { 0 })
    }

    /// Whether the faller is a T with at least three corners taken.
    pub open spec fn t_spin(self) -> bool {
        self.faller.cell_value == Cell::Full(Shape::T) && self.corners_taken() >= 3
    }

    /// The state after the bonus for a wedged T was looked for.
    pub open spec fn t_spin_scored(self) -> State {
        if self.t_spin() {
            State { score: self.score + T_SPIN_SCORE as nat, ..self }
        } else {
            self
        }
    }

    /// Where pieces appear: the middle of the top row.
    pub open spec fn spawn_point(self) -> V2 {
        V2 { x: (self.width / 2) as i32, y: 0 }
    }

    /// A new piece of the given shape at the spawn point.
    pub open spec fn newcomer(self, shape: Shape) -> Piece {
        Piece::fresh(self.spawn_point(), Cell::Full(shape))
    }

    /// Whether one of the cells of `piece` is occupied.
    pub open spec fn covers_full(self, piece: Piece) -> bool {
        ||| self.at(piece.points[0]) is Full
        ||| self.at(piece.points[1]) is Full
        ||| self.at(piece.points[2]) is Full
        ||| self.at(piece.points[3]) is Full
    }

    /// The state with the next step of gravity due one interval from now.
    pub open spec fn gravity_reset(self) -> State {
        State { next_gravity_time: self.now + GAME_GRAVITY_INTERVAL as nat, ..self }
    }

    /// The state with the next step of gravity put off by one interval.
    pub open spec fn gravity_put_off(self) -> State {
        State { next_gravity_time: self.next_gravity_time + GAME_GRAVITY_INTERVAL as nat, ..self }
    }

    /// The state after the piece with the given index was locked: the bonus
    /// for a wedged T is looked for, then the rows that the piece touches are
    /// dealt with.
    pub open spec fn locked(self, index: int) -> State {
        let scored = self.t_spin_scored();
        scored.swept(scored.piece(index).points)
    }

    /// Whether a piece of the given shape cannot be brought into play once
    /// the piece with the given index is locked.
    pub open spec fn spawn_fails(self, index: int, shape: Shape) -> bool {
        let locked = self.locked(index);
        locked.covers_full(locked.newcomer(shape))
    }

    /// The state after an attempt to bring a piece of the given shape into
    /// play. First the piece with the given index is locked. If a spawn cell
    /// is then occupied, nothing more happens. Otherwise the new piece
    /// becomes the faller, its landing preview is drawn, then the piece
    /// itself, and the gravity timer starts afresh.
    #[verifier::opaque]
    pub open spec fn spawned(self, index: int, shape: Shape) -> State {
        let locked = self.locked(index);
        if self.spawn_fails(index, shape) {
            locked
        } else {
            locked.with_piece(FALLER_INDEX as int, locked.newcomer(shape)).ghost_updated(
                false,
            ).piece_inserted(FALLER_INDEX as int).gravity_reset()
        }
    }

    /// The state after the faller was locked and a piece of the given shape
    /// called in; the landing preview is brought up to date either way.
    #[verifier::opaque]
    pub open spec fn respawned(self, shape: Shape) -> State {
        self.spawned(FALLER_INDEX as int, shape).ghost_updated(false)
    }

    /// The state after one step of gravity: the faller moves down if it can;
    /// if it cannot, it is locked and a piece of the given shape is called in.
    #[verifier::opaque]
    pub open spec fn after_gravity(self, shape: Shape) -> State {
        let marked = State { display_changed: true, ..self };
        if marked.can_move(marked.faller, Direction::Down) {
            marked.moved(FALLER_INDEX as int, Direction::Down)
        } else {
            marked.respawned(shape)
        }
    }

    /// Whether a step of gravity ends the game.
    pub open spec fn gravity_fails(self, shape: Shape) -> bool {
        let marked = State { display_changed: true, ..self };
        !marked.can_move(marked.faller, Direction::Down) && marked.spawn_fails(
            FALLER_INDEX as int,
            shape,
        )
    }

    /// The state after a hard drop but before the next piece is called in:
    /// two points for every row between the faller and its landing preview,
    /// and the faller locked where the preview was.
    #[verifier::opaque]
    pub open spec fn dropped(self) -> State {
        let paid = State {
            score: (self.score + 2 * (self.shadow.pos.y - self.faller.pos.y)) as nat,
            ..self
        };
        paid.piece_updated(
            FALLER_INDEX as int,
            paid.shadow.with_cell(Cell::Full(paid.shadow.cell_value.shape())),
            false,
        )
    }

    /// Whether the player's action ends the game.
    pub open spec fn input_fails(self, action: GameInput, shape: Shape) -> bool {
        action == GameInput::DropDown && self.dropped().spawn_fails(FALLER_INDEX as int, shape)
    }

    /// The state after the player asked for a turn to `side`: after a turn
    /// the landing preview is looked at once more. The display counts as
    /// changed exactly when the faller turned.
    #[verifier::opaque]
    pub open spec fn after_spin(self, side: Side) -> State {
        State {
            display_changed: self.can_spin(side),
            ..if self.can_spin(side) {
                self.spun(side).ghost_updated(true)
            } else {
                self
            }
        }
    }

    /// The state after the player asked for a step to the left or to the
    /// right. The display counts as changed exactly when the faller moved.
    #[verifier::opaque]
    pub open spec fn after_shift(self, d: Direction) -> State {
        State {
            display_changed: self.can_move(self.faller, d),
            ..self.moved(FALLER_INDEX as int, d)
        }
    }

    /// The state after the player asked for a step down: a step pays one
    /// point and starts the gravity timer afresh. The display counts as
    /// changed exactly when the faller moved.
    #[verifier::opaque]
    pub open spec fn after_step_down(self) -> State {
        if self.can_move(self.faller, Direction::Down) {
            let stepped = self.moved(FALLER_INDEX as int, Direction::Down);
            State { score: stepped.score + 1, display_changed: true, ..stepped.gravity_reset() }
        } else {
            State { display_changed: false, ..self }
        }
    }

    /// The state after the player asked for a drop and a piece of the given
    /// shape was called in. The display counts as changed if the piece came
    /// in; if it did not, that mark is left as it was.
    #[verifier::opaque]
    pub open spec fn after_drop(self, shape: Shape) -> State {
        let next = self.dropped().respawned(shape);
        if self.dropped().spawn_fails(FALLER_INDEX as int, shape) {
            next
        } else {
            State { display_changed: true, ..next }
        }
    }

    /// The state after the player's action; `shape` is the shape of the next
    /// piece, should one be called in.
    pub open spec fn after_input(self, action: GameInput, shape: Shape) -> State {
        match action {
            GameInput::SpinLeft => self.after_spin(Side::Left),
            GameInput::SpinRight => self.after_spin(Side::Right),
            GameInput::MoveLeft => self.after_shift(Direction::Left),
            GameInput::MoveRight => self.after_shift(Direction::Right),
            GameInput::MoveDown => self.after_step_down(),
            GameInput::DropDown => self.after_drop(shape),
        }
    }

    /// The state after the key that was read; `shape` is the shape of the
    /// next piece, should one be called in.
    pub open spec fn after_key(self, key: u8, shape: Shape) -> State {
        match command_of(key) {
            Command::Play(action) => self.after_input(action, shape),
            Command::Quit => State { game_over: true, ..self },
            Command::Idle => self,
        }
    }

    /// Whether the key that was read ends the game with a loss.
    pub open spec fn key_fails(self, key: u8, shape: Shape) -> bool {
        command_of(key) matches Command::Play(action) && self.input_fails(action, shape)
    }

    /// Whether the input is due and the key ends the game with a loss.
    pub open spec fn lost_in_input(self, key: u8, shape: Shape) -> bool {
        self.now >= self.next_input_time && self.key_fails(key, shape)
    }

    /// The first part of a turn of the loop: if the input is due, the key is
    /// acted on, and unless the game is lost by it the next poll is put off by
    /// one interval.
    #[verifier::opaque]
    pub open spec fn input_phase(self, key: u8, shape: Shape) -> State {
        if self.now >= self.next_input_time {
            let played = self.after_key(key, shape);
            if self.key_fails(key, shape) {
                State { game_over: true, ..played }
            } else {
                State {
                    next_input_time: played.next_input_time + USER_INPUT_INTERVAL as nat,
                    ..played
                }
            }
        } else {
            self
        }
    }

    /// Whether gravity is due and its step ends the game with a loss.
    pub open spec fn lost_in_gravity(self, shape: Shape) -> bool {
        self.now >= self.next_gravity_time && self.gravity_fails(shape)
    }

    /// The second part of a turn of the loop: if gravity is due, it takes its
    /// step, and unless the game is lost by it the next step is put off by
    /// one interval.
    #[verifier::opaque]
    pub open spec fn gravity_phase(self, shape: Shape) -> State {
        if self.now >= self.next_gravity_time {
            let fallen = self.after_gravity(shape);
            if self.gravity_fails(shape) {
                State { game_over: true, ..fallen }
            } else {
                fallen.gravity_put_off()
            }
        } else {
            self
        }
    }

    /// Whether a frame is to be drawn in this turn of the loop.
    pub open spec fn frame_due(self) -> bool {
        self.display_changed && self.now >= self.next_frame_time
    }

    /// The last part of a turn of the loop: if a frame is to be drawn, the
    /// next frame is put off by one interval and the display counts as
    /// unchanged again.
    pub open spec fn frame_phase(self) -> State {
        if self.frame_due() {
            State {
                next_frame_time: self.next_frame_time + GAME_DRAW_INTERVAL as nat,
                display_changed: false,
                ..self
            }
        } else {
            self
        }
    }

    /// The state at the beginning of a turn of the loop at time `now`.
    pub open spec fn begun(self, now: nat) -> State {
        State { now, ..self }
    }

    /// Whether the turn of the loop at time `now` ends the game with a loss.
    pub open spec fn turn_lost(self, now: nat, key: u8, first: Shape, second: Shape) -> bool {
        let begun = self.begun(now);
        begun.lost_in_input(key, first) || begun.input_phase(key, first).lost_in_gravity(second)
    }

    /// The state after the turn of the loop at time `now`, in which `key` was
    /// read if the input was due; `first` and `second` are the shapes of the
    /// pieces that the input and gravity call in, should they call one in. A
    /// loss ends the turn at once.
    pub open spec fn after_turn(self, now: nat, key: u8, first: Shape, second: Shape) -> State {
        let begun = self.begun(now);
        let played = begun.input_phase(key, first);
        if begun.lost_in_input(key, first) {
            played
        } else if played.lost_in_gravity(second) {
            played.gravity_phase(second)
        } else {
            played.gravity_phase(second).frame_phase()
        }
    }

    /// How the turn of the loop at time `now` ends.
    pub open spec fn turn_outcome(self, now: nat, key: u8, first: Shape, second: Shape) -> Turn {
        if self.turn_lost(now, key, first, second) {
            Turn::Lost
        } else {
            Turn::Continue {
                redraw: self.begun(now).input_phase(key, first).gravity_phase(second).frame_due(),
            }
        }
    }

    /// The state after the game was started at time `now` with a first piece
    /// of the given shape, or after the attempt if that piece finds its
    /// cells taken.
    pub open spec fn started(self, now: nat, shape: Shape) -> State {
        let opened = State { game_over: false, ..self };
        let spawned = opened.spawned(FALLER_INDEX as int, shape);
        if opened.spawn_fails(FALLER_INDEX as int, shape) {
            State { game_over: true, ..spawned }
        } else {
            State {
                now,
                next_frame_time: now,
                next_gravity_time: now,
                next_input_time: now,
                ..spawned.ghost_updated(false).piece_inserted(FALLER_INDEX as int)
            }
        }
    }

    /// The earliest of the three times at which something is due.
    pub open spec fn next_wake(self) -> nat {
        let first = if self.next_input_time <= self.next_gravity_time {
            self.next_input_time
        } else {
            self.next_gravity_time
        };
        if self.next_frame_time <= first {
            self.next_frame_time
        } else {
            first
        }
    }

    /// The state with `rows` rows taken out from row `y` on.
    pub open spec fn with_rows_cleared(self, y: int, rows: int) -> State {
        self.with_cells(rows_cleared(self.cells, self.width as int, y, rows))
    }

    /// The state after the rows that the four points touch were looked at:
    /// the full ones are gone and paid for.
    #[verifier::opaque]
    pub open spec fn swept(self, points: [V2; 4]) -> State {
        let (cells, rows) = sweep(self.cells, self.width as int, points, 4);
        State { cells, score: (self.score + clear_score(rows)) as nat, ..self }
    }

    /// Whether each of the four points lies in a row of the board.
    pub open spec fn rows_exist(self, points: [V2; 4]) -> bool {
        forall|k: int| 0 <= k < 4 ==> 0 <= (#[trigger] points[k]).y < self.height
    }

    /// The state after a reset: an empty grid, no points, and the game over.
    pub open spec fn cleared(self) -> State {
        State {
            cells: Seq::new(self.cells.len(), |i: int| Cell::Empty),
            score: 0,
            game_over: true,
            ..self
        }
    }
}

} // verus!
