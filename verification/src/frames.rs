//! What the operations of the game leave alone, and the most that they pay.

use crate::cell::Cell;
use crate::direction::Direction;
use crate::grid::{
    clear_score,
    full_count,
    full_rows,
    lemma_sweep_bounds,
    lemma_sweep_counts_full_rows,
    lemma_sweep_full_count,
    lemma_sweep_idle,
    rising,
    row_full,
};
use crate::input::{Command, GameInput, command_of};
use crate::model::{FALLER_INDEX, GAME_GRAVITY_INTERVAL, State};
use crate::motion::lemma_anchor_near;
use crate::piece::Piece;
use crate::tetromino::{Shape, Side};
use crate::v2::V2;
use vstd::prelude::*;

verus! {

/// Whether two states have the same board size, the same flags and the same
/// clock, but for the time of the next step of gravity.
pub open spec fn same_frame(a: State, b: State) -> bool {
    &&& a.width == b.width
    &&& a.height == b.height
    &&& a.cells.len() == b.cells.len()
    &&& a.game_over == b.game_over
    &&& a.display_changed == b.display_changed
    &&& a.now == b.now
    &&& a.next_frame_time == b.next_frame_time
    &&& a.next_input_time == b.next_input_time
}

/// Bringing the landing preview up to date changes the grid and the preview
/// and nothing else.
pub proof fn lemma_ghost_updated_frame(s: State, try_remove: bool)
    ensures
        same_frame(s, s.ghost_updated(try_remove)),
        s.ghost_updated(try_remove).score == s.score,
        s.ghost_updated(try_remove).next_gravity_time == s.next_gravity_time,
        s.ghost_updated(try_remove).faller == s.faller,
{
    reveal(State::ghost_updated);
    reveal(State::thrown);
}

/// Replacing a piece changes the grid and the pieces and nothing else, and
/// the new piece is in its place.
pub proof fn lemma_piece_updated_frame(s: State, index: int, piece: Piece, update_ghost: bool)
    ensures
        same_frame(s, s.piece_updated(index, piece, update_ghost)),
        s.piece_updated(index, piece, update_ghost).score == s.score,
        s.piece_updated(index, piece, update_ghost).next_gravity_time == s.next_gravity_time,
        index == FALLER_INDEX ==> s.piece_updated(index, piece, update_ghost).faller == piece,
        !update_ghost ==> s.piece_updated(index, piece, update_ghost).piece(index) == piece,
{
    reveal(State::piece_updated);
    let replaced = s.piece_removed(index).with_piece(index, piece).piece_inserted(index);
    lemma_ghost_updated_frame(replaced, true);
}

/// A step of a piece changes the grid and the pieces and nothing else.
pub proof fn lemma_moved_frame(s: State, index: int, d: Direction)
    ensures
        same_frame(s, s.moved(index, d)),
        s.moved(index, d).score == s.score,
        s.moved(index, d).next_gravity_time == s.next_gravity_time,
{
    reveal(State::moved);
    lemma_piece_updated_frame(
        s,
        index,
        s.piece(index).translated_by(d.delta()),
        d == Direction::Left || d == Direction::Right,
    );
}

/// Dealing with the rows of a piece changes the grid and the score and
/// nothing else, and pays at most eight hundred points.
pub proof fn lemma_swept_frame(s: State, points: [V2; 4])
    ensures
        same_frame(s, s.swept(points)),
        s.swept(points).next_gravity_time == s.next_gravity_time,
        s.swept(points).faller == s.faller,
        s.swept(points).shadow == s.shadow,
        s.score <= s.swept(points).score <= s.score + 800,
{
    reveal(State::swept);
    lemma_sweep_bounds(s.cells, s.width as int, points, 4);
}

/// The cells of a piece are listed from the top of the board down.
pub proof fn lemma_piece_points_rising(piece: Piece)
    requires
        piece.wf(),
    ensures
        rising(piece.points),
{
    crate::tetromino::lemma_layout_top_down(piece.data);
    let o = piece.data.offsets().0;
    assert(piece.points[0] == piece.pos.plus(o[0]));
    assert(piece.points[1] == piece.pos.plus(o[1]));
    assert(piece.points[2] == piece.pos.plus(o[2]));
    assert(piece.points[3] == piece.pos.plus(o[3]));
}

/// Dealing with the rows of four points that are listed from the top down
/// pays for exactly the rows among them that are full: a hundred points a
/// row, and eight hundred for four.
pub proof fn lemma_swept_pays_for_full_rows(s: State, points: [V2; 4])
    requires
        s.wf(),
        s.rows_exist(points),
        rising(points),
    ensures
        s.swept(points).score == s.score + clear_score(
            full_rows(s.cells, s.width as int, points, 4),
        ),
        0 <= full_rows(s.cells, s.width as int, points, 4) <= 4,
{
    reveal(State::swept);
    lemma_sweep_counts_full_rows(s.cells, s.width as int, s.height as int, points, 4);
    lemma_sweep_bounds(s.cells, s.width as int, points, 4);
}

/// Dealing with the rows of four points that are listed from the top down
/// leaves, for every one of those rows that is full, as many occupied cells
/// fewer as the board is wide.
pub proof fn lemma_swept_full_count(s: State, points: [V2; 4])
    requires
        s.wf(),
        s.rows_exist(points),
        rising(points),
    ensures
        s.swept(points).cells.len() == s.cells.len(),
        full_count(s.swept(points).cells) == full_count(s.cells) - full_rows(
            s.cells,
            s.width as int,
            points,
            4,
        ) * s.width,
{
    reveal(State::swept);
    lemma_sweep_counts_full_rows(s.cells, s.width as int, s.height as int, points, 4);
    lemma_sweep_full_count(s.cells, s.width as int, s.height as int, points, 4);
}

/// Locking a piece changes the grid and the score and nothing else, and
/// pays at most twelve hundred points: four for a wedged T and eight for
/// four rows.
pub proof fn lemma_locked_frame(s: State, index: int)
    ensures
        same_frame(s, s.locked(index)),
        s.locked(index).next_gravity_time == s.next_gravity_time,
        s.locked(index).faller == s.faller,
        s.locked(index).shadow == s.shadow,
        s.score <= s.t_spin_scored().score <= s.locked(index).score <= s.score + 1200,
{
    let scored = s.t_spin_scored();
    lemma_swept_frame(scored, scored.piece(index).points);
}

/// What locking a piece does depends on the board, the pieces and the
/// score, and not on whether the game is over.
pub proof fn lemma_locked_whether_over(s: State, over: bool, index: int, shape: Shape)
    ensures
        (State { game_over: over, ..s }).locked(index) == (State {
            game_over: over,
            ..s.locked(index)
        }),
        (State { game_over: over, ..s }).spawn_fails(index, shape) == s.spawn_fails(index, shape),
{
    reveal(State::swept);
}

/// Calling in a piece pays for the locking of the old one and for nothing
/// else; it leaves the board size, the flags and the clock alone, but for
/// the gravity timer, which starts afresh if the piece comes in.
pub proof fn lemma_spawned_frame(s: State, index: int, shape: Shape)
    ensures
        same_frame(s, s.spawned(index, shape)),
        s.spawned(index, shape).score == s.locked(index).score,
        s.score <= s.spawned(index, shape).score <= s.score + 1200,
        s.spawned(index, shape).next_gravity_time == s.next_gravity_time || s.spawned(
            index,
            shape,
        ).next_gravity_time == s.now + GAME_GRAVITY_INTERVAL,
{
    reveal(State::spawned);
    let locked = s.locked(index);
    lemma_locked_frame(s, index);
    lemma_ghost_updated_frame(locked.with_piece(FALLER_INDEX as int, locked.newcomer(shape)), false);
}

/// Locking the faller and calling in the next piece pays for the locking
/// and for nothing else; it leaves the board size, the flags and the clock
/// alone, but for the gravity timer.
pub proof fn lemma_respawned_frame(s: State, shape: Shape)
    ensures
        same_frame(s, s.respawned(shape)),
        s.respawned(shape).score == s.locked(FALLER_INDEX as int).score,
        s.score <= s.respawned(shape).score <= s.score + 1200,
        s.respawned(shape).next_gravity_time == s.next_gravity_time || s.respawned(
            shape,
        ).next_gravity_time == s.now + GAME_GRAVITY_INTERVAL,
{
    reveal(State::respawned);
    lemma_spawned_frame(s, FALLER_INDEX as int, shape);
    lemma_ghost_updated_frame(s.spawned(FALLER_INDEX as int, shape), false);
}

/// A turn of the faller changes the grid and the pieces and nothing else.
pub proof fn lemma_spun_frame(s: State, side: Side)
    ensures
        same_frame(s, s.spun(side)),
        s.spun(side).score == s.score,
        s.spun(side).next_gravity_time == s.next_gravity_time,
{
    reveal(State::spun);
    lemma_piece_updated_frame(s, FALLER_INDEX as int, s.spin_target(side), true);
}

/// A hard drop pays two points for every row between the faller and its
/// landing preview and puts the faller where the preview was; besides the
/// grid it changes nothing else.
pub proof fn lemma_dropped_frame(s: State)
    requires
        s.shadow.pos.y >= s.faller.pos.y,
    ensures
        same_frame(s, s.dropped()),
        s.dropped().score == s.score + 2 * (s.shadow.pos.y - s.faller.pos.y),
        s.dropped().next_gravity_time == s.next_gravity_time,
        s.dropped().faller == s.shadow.with_cell(Cell::Full(s.shadow.cell_value.shape())),
        s.dropped().shadow == s.shadow,
{
    reveal(State::dropped);
    let paid = State {
        score: (s.score + 2 * (s.shadow.pos.y - s.faller.pos.y)) as nat,
        ..s
    };
    lemma_piece_updated_frame(
        paid,
        FALLER_INDEX as int,
        paid.shadow.with_cell(Cell::Full(paid.shadow.cell_value.shape())),
        false,
    );
    reveal(State::piece_updated);
}

/// A step down that the player asks for and that the faller can take pays
/// one point, moves the faller down by one row, marks the display as
/// changed and makes gravity due one interval from now. One that the faller
/// cannot take changes nothing but the mark on the display, which is taken
/// off.
pub proof fn lemma_step_down_effect(s: State)
    ensures
        s.can_move(s.faller, Direction::Down) ==> ({
            let after = s.after_step_down();
            &&& after.score == s.score + 1
            &&& after.faller == s.faller.translated_by(Direction::Down.delta())
            &&& after.shadow == s.shadow
            &&& after.display_changed
            &&& after.next_gravity_time == s.now + GAME_GRAVITY_INTERVAL
            &&& after.width == s.width
            &&& after.height == s.height
            &&& after.game_over == s.game_over
            &&& after.now == s.now
            &&& after.next_frame_time == s.next_frame_time
            &&& after.next_input_time == s.next_input_time
        }),
        !s.can_move(s.faller, Direction::Down) ==> s.after_step_down() == (State {
            display_changed: false,
            ..s
        }),
{
    reveal(State::after_step_down);
    reveal(State::moved);
    reveal(State::piece_updated);
}

/// What the player asks for never takes points away, and it leaves the
/// board size, the game-over flag and the clock alone, but for the gravity
/// timer, which may start afresh.
pub proof fn lemma_after_input_frame(s: State, action: GameInput, shape: Shape)
    requires
        action == GameInput::DropDown ==> s.shadow.pos.y >= s.faller.pos.y,
    ensures
        s.after_input(action, shape).width == s.width,
        s.after_input(action, shape).height == s.height,
        s.after_input(action, shape).cells.len() == s.cells.len(),
        s.after_input(action, shape).game_over == s.game_over,
        s.after_input(action, shape).now == s.now,
        s.after_input(action, shape).next_frame_time == s.next_frame_time,
        s.after_input(action, shape).next_input_time == s.next_input_time,
        s.after_input(action, shape).score >= s.score,
        action != GameInput::DropDown ==> s.after_input(action, shape).score <= s.score + 1,
        action == GameInput::DropDown ==> s.after_input(action, shape).score <= s.score + 2 * (
        s.shadow.pos.y - s.faller.pos.y) + 1200,
        s.after_input(action, shape).next_gravity_time == s.next_gravity_time || s.after_input(
            action,
            shape,
        ).next_gravity_time == s.now + GAME_GRAVITY_INTERVAL,
{
    match action {
        GameInput::SpinLeft => {
            reveal(State::after_spin);
            lemma_spun_frame(s, Side::Left);
            lemma_ghost_updated_frame(s.spun(Side::Left), true);
        },
        GameInput::SpinRight => {
            reveal(State::after_spin);
            lemma_spun_frame(s, Side::Right);
            lemma_ghost_updated_frame(s.spun(Side::Right), true);
        },
        GameInput::MoveLeft => {
            reveal(State::after_shift);
            lemma_moved_frame(s, FALLER_INDEX as int, Direction::Left);
        },
        GameInput::MoveRight => {
            reveal(State::after_shift);
            lemma_moved_frame(s, FALLER_INDEX as int, Direction::Right);
        },
        GameInput::MoveDown => {
            reveal(State::after_step_down);
            lemma_moved_frame(s, FALLER_INDEX as int, Direction::Down);
        },
        GameInput::DropDown => {
            reveal(State::after_drop);
            lemma_dropped_frame(s);
            lemma_respawned_frame(s.dropped(), shape);
        },
    }
}

/// A step of gravity never takes points away, and it leaves the board size,
/// the game-over flag and the clock alone, but for the gravity timer, which
/// starts afresh if a piece comes in.
pub proof fn lemma_after_gravity_frame(s: State, shape: Shape)
    ensures
        s.after_gravity(shape).width == s.width,
        s.after_gravity(shape).height == s.height,
        s.after_gravity(shape).cells.len() == s.cells.len(),
        s.after_gravity(shape).game_over == s.game_over,
        s.after_gravity(shape).display_changed,
        s.after_gravity(shape).now == s.now,
        s.after_gravity(shape).next_frame_time == s.next_frame_time,
        s.after_gravity(shape).next_input_time == s.next_input_time,
        s.score <= s.after_gravity(shape).score <= s.score + 1200,
        !s.can_move(s.faller, Direction::Down) ==> s.after_gravity(shape).score == (State {
            display_changed: true,
            ..s
        }).locked(FALLER_INDEX as int).score,
        s.after_gravity(shape).next_gravity_time == s.next_gravity_time || s.after_gravity(
            shape,
        ).next_gravity_time == s.now + GAME_GRAVITY_INTERVAL,
{
    reveal(State::can_move);
    reveal(State::after_gravity);
    let marked = State { display_changed: true, ..s };
    lemma_moved_frame(marked, FALLER_INDEX as int, Direction::Down);
    lemma_respawned_frame(marked, shape);
    assert(marked.can_move(marked.faller, Direction::Down) == s.can_move(s.faller, Direction::Down));
}

/// The gravity part of a turn leaves the time of the turn alone and pays at
/// most twelve hundred points.
pub proof fn lemma_gravity_phase_frame(s: State, shape: Shape)
    ensures
        s.gravity_phase(shape).now == s.now,
        s.score <= s.gravity_phase(shape).score <= s.score + 1200,
{
    reveal(State::gravity_phase);
    lemma_after_gravity_frame(s, shape);
}

/// A turn of the loop never takes points away. The most that it can pay is
/// two points for every row of the board and twelve hundred for the locking
/// of a dropped piece in its input part, and twelve hundred more in its
/// gravity part.
pub proof fn lemma_turn_score(s: State, now: nat, key: u8, first: Shape, second: Shape)
    requires
        s.playable(),
        s.shadow.pos.y >= s.faller.pos.y,
    ensures
        s.score <= s.begun(now).input_phase(key, first).score <= s.score + 2 * s.height + 1200,
        s.score <= s.after_turn(now, key, first, second).score <= s.score + 2 * s.height + 2400,
{
    reveal(State::input_phase);
    let begun = s.begun(now);
    lemma_anchor_near(s, s.faller);
    lemma_anchor_near(s, s.shadow);
    if let Command::Play(action) = command_of(key) {
        lemma_after_input_frame(begun, action, first);
    }
    lemma_gravity_phase_frame(begun.input_phase(key, first), second);
}

/// A piece that finds a spawn cell occupied is not placed: all that has
/// happened is that the old piece was locked, and where it was no wedged T
/// and none of its rows was full, nothing has changed at all.
pub proof fn lemma_failed_spawn_places_nothing(s: State, index: int, shape: Shape)
    requires
        s.spawn_fails(index, shape),
    ensures
        s.spawned(index, shape) == s.locked(index),
        !s.t_spin() && (forall|i: int|
            0 <= i < 4 ==> !row_full(
                s.cells,
                s.width as int,
                (#[trigger] s.piece(index).points[i]).y as int,
            )) ==> s.spawned(index, shape) == s,
{
    reveal(State::spawned);
    reveal(State::swept);
    if !s.t_spin() && (forall|i: int|
        0 <= i < 4 ==> !row_full(
            s.cells,
            s.width as int,
            (#[trigger] s.piece(index).points[i]).y as int,
        )) {
        lemma_sweep_idle(s.cells, s.width as int, s.piece(index).points, 4);
    }
}

} // verus!
