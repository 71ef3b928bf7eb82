//! Laws of the landing preview: when it is where the faller comes to rest,
//! and what keeps it there.

use crate::cell::Cell;
use crate::direction::Direction;
use crate::frames::{
    lemma_after_gravity_frame,
    lemma_failed_spawn_places_nothing,
    lemma_ghost_updated_frame,
    lemma_locked_frame,
    lemma_piece_points_rising,
};
use crate::grid::{
    index_of,
    lemma_index_in_range,
    lemma_index_injective,
    covers,
    full_kept,
    full_kept_but,
    lemma_sweep_idle,
    lemma_sweep_one_row,
    row_full,
    rows_cleared,
    same_fullness,
    touches_row,
};
use crate::model::{FALLER_INDEX, GHOST_INDEX, State, slid};
use crate::motion::{
    lemma_can_fall_past,
    lemma_can_move_by_fullness,
    lemma_fall_position,
    lemma_move_stays_on_board,
    lemma_rests_by_fullness,
    lemma_spawn_on_board,
    lemma_throw_distance,
    lemma_throw_rests,
};
use crate::piece::Piece;
use crate::tetromino::Shape;
use crate::v2::V2;
use vstd::prelude::*;

verus! {

/// A landing preview that is where the faller comes to rest is never above
/// the faller, and it is below it exactly when the faller can fall.
pub proof fn lemma_synced_preview(s: State)
    requires
        s.synced(),
    ensures
        s.shadow.pos.y >= s.faller.pos.y,
        s.shadow.pos.y > s.faller.pos.y <==> s.can_move(s.faller, Direction::Down),
{
    reveal(slid);
    let k = s.shadow.pos.y - s.faller.pos.y;
    assert(slid(s.faller, Direction::Down, 0).points =~= s.faller.points);
    assert(slid(s.faller, Direction::Down, 0) == s.faller);
    if k > 0 {
        assert(s.can_move(slid(s.faller, Direction::Down, 0), Direction::Down));
    }
}

/// Whether the landing preview is where the faller comes to rest depends on
/// the board and the two pieces, and on nothing else.
pub proof fn lemma_synced_same_board(a: State, b: State)
    requires
        a.width == b.width,
        a.height == b.height,
        a.cells == b.cells,
        a.faller == b.faller,
        a.shadow == b.shadow,
    ensures
        a.synced() == b.synced(),
{
    reveal(State::can_move);
    let f = a.faller;
    assert forall|j: int|
        a.can_move(#[trigger] slid(f, Direction::Down, j), Direction::Down) == b.can_move(
            slid(f, Direction::Down, j),
            Direction::Down,
        ) by {}
    let k = a.shadow.pos.y - a.faller.pos.y;
    if a.slides(f, Direction::Down, k) {
        assert forall|j: int| 0 <= j < k implies b.can_move(
            #[trigger] slid(f, Direction::Down, j),
            Direction::Down,
        ) by {
            assert(a.can_move(slid(f, Direction::Down, j), Direction::Down));
        }
    }
    if b.slides(f, Direction::Down, k) {
        assert forall|j: int| 0 <= j < k implies a.can_move(
            #[trigger] slid(f, Direction::Down, j),
            Direction::Down,
        ) by {
            assert(b.can_move(slid(f, Direction::Down, j), Direction::Down));
        }
    }
}

/// Drawing the landing preview occupies no cell and frees none, if the
/// preview lies on free cells or on cells of the faller.
pub proof fn lemma_ghost_drawn_fullness(s: State)
    requires
        s.shadow.cell_value is Shadow,
        s.lands_free(s.faller, s.shadow),
    ensures
        same_fullness(s.cells, s.ghost_drawn().cells),
{
    let after = s.ghost_drawn().cells;
    assert forall|i: int| 0 <= i < s.cells.len() implies (s.cells[i] is Full) == (
    after[i] is Full) by {
        assert(s.free_at(s.faller, s.shadow, 0));
        assert(s.free_at(s.faller, s.shadow, 1));
        assert(s.free_at(s.faller, s.shadow, 2));
        assert(s.free_at(s.faller, s.shadow, 3));
    }
}

/// The state after the landing preview, a copy of the faller, was dropped
/// as far as it goes and drawn unless it is where the faller is.
pub open spec fn preview_dropped(c: State) -> State {
    let dropped = c.thrown(GHOST_INDEX as int, Direction::Down);
    if dropped.shadow.pos != dropped.faller.pos {
        dropped.ghost_drawn()
    } else {
        dropped
    }
}

proof fn lemma_preview_thrown(c: State)
    requires
        0 < c.width < i32::MAX,
        0 < c.height < i32::MAX,
        c.faller.wf(),
        c.holds(c.faller),
        c.shadow == c.faller.with_cell(Cell::Shadow(c.faller.cell_value.shape())),
    ensures
        ({
            let k = c.throw_distance(c.shadow, Direction::Down);
            let dropped = c.thrown(GHOST_INDEX as int, Direction::Down);
            &&& c.rests_after(c.shadow, Direction::Down, k)
            &&& dropped == c.with_piece(GHOST_INDEX as int, dropped.shadow)
            &&& dropped.shadow.data == c.faller.data
            &&& dropped.shadow.cell_value == c.shadow.cell_value
            &&& dropped.shadow.pos.x == c.faller.pos.x
            &&& dropped.shadow.pos.y - c.faller.pos.y == k
            &&& dropped.lands_free(c.faller, dropped.shadow)
        }),
{
    reveal(State::thrown);
    reveal(slid);
    lemma_throw_rests(c, c.shadow, Direction::Down);
}

proof fn lemma_drop_preview(c: State)
    requires
        0 < c.width < i32::MAX,
        0 < c.height < i32::MAX,
        c.cells.len() == c.width * c.height,
        c.faller.wf(),
        c.holds(c.faller),
        c.shadow == c.faller.with_cell(Cell::Shadow(c.faller.cell_value.shape())),
    ensures
        preview_dropped(c).synced(),
        same_fullness(c.cells, preview_dropped(c).cells),
{
    lemma_preview_thrown(c);
    let k = c.throw_distance(c.shadow, Direction::Down);
    let dropped = c.thrown(GHOST_INDEX as int, Direction::Down);
    let after = preview_dropped(c);
    if dropped.shadow.pos != dropped.faller.pos {
        lemma_ghost_drawn_fullness(dropped);
    }
    lemma_rests_by_fullness(c, after, c.shadow, after.faller, Direction::Down, k);
}

/// Bringing the landing preview up to date puts it where the faller comes
/// to rest when dropped, and makes no cell occupied or free.
pub proof fn lemma_ghost_updated_synced(s: State, try_remove: bool)
    requires
        s.playable(),
    ensures
        s.ghost_updated(try_remove).synced(),
        same_fullness(s.cells, s.ghost_updated(try_remove).cells),
{
    reveal(State::ghost_updated);
    let wiped = if try_remove {
        s.ghost_removed()
    } else {
        s
    };
    assert(same_fullness(s.cells, wiped.cells));
    let copied = wiped.with_piece(
        GHOST_INDEX as int,
        wiped.faller.with_cell(Cell::Shadow(wiped.faller.cell_value.shape())),
    );
    lemma_drop_preview(copied);
    assert(s.ghost_updated(try_remove) == preview_dropped(copied));
}

/// A landing preview that is where the faller comes to rest is still there
/// after the faller was drawn.
pub proof fn lemma_insert_keeps_sync(s: State)
    requires
        s.playable(),
        s.synced(),
    ensures
        s.piece_inserted(FALLER_INDEX as int).synced(),
{
    let k = s.shadow.pos.y - s.faller.pos.y;
    let after = s.piece_inserted(FALLER_INDEX as int);
    lemma_throw_rests(s, s.faller, Direction::Down);
    lemma_throw_distance(s, s.faller, Direction::Down, k);
    assert forall|j: int| 0 <= j <= k implies after.can_move(
        #[trigger] slid(s.faller, Direction::Down, j),
        Direction::Down,
    ) == s.can_move(slid(s.faller, Direction::Down, j), Direction::Down) by {
        lemma_fall_position(s, s.faller, j, k);
        lemma_can_fall_past(
            s,
            s.faller.cell_value,
            s.faller,
            slid(s.faller, Direction::Down, j),
            j,
        );
    }
    assert forall|j: int| 0 <= j < k implies after.can_move(
        #[trigger] slid(s.faller, Direction::Down, j),
        Direction::Down,
    ) by {
        assert(s.can_move(slid(s.faller, Direction::Down, j), Direction::Down));
    }
}

proof fn lemma_slid_twice(first: Piece, second: Piece, j: int)
    requires
        second == first.translated_by(Direction::Down.delta()),
        first.can_translate(Direction::Down.delta()),
        first.can_translate(V2 { x: 0, y: (j + 1) as i32 }),
        0 <= j < i32::MAX,
    ensures
        slid(second, Direction::Down, j) == slid(first, Direction::Down, j + 1),
{
    reveal(slid);
    let a = slid(second, Direction::Down, j);
    let b = slid(first, Direction::Down, j + 1);
    assert(a.pos == b.pos);
    assert(a.points[0] == b.points[0]);
    assert(a.points[1] == b.points[1]);
    assert(a.points[2] == b.points[2]);
    assert(a.points[3] == b.points[3]);
    assert(a.points =~= b.points);
}

/// A landing preview that is where the faller comes to rest is still there
/// after the faller has fallen by one row.
pub proof fn lemma_fall_keeps_sync(s: State)
    requires
        s.playable(),
        s.synced(),
        s.can_move(s.faller, Direction::Down),
    ensures
        s.moved(FALLER_INDEX as int, Direction::Down).synced(),
{
    reveal(State::moved);
    reveal(State::piece_updated);
    let k = s.shadow.pos.y - s.faller.pos.y;
    let first = s.faller;
    let second = first.translated_by(Direction::Down.delta());
    let emptied = s.piece_removed(FALLER_INDEX as int);
    let replaced = emptied.with_piece(FALLER_INDEX as int, second);
    let after = s.moved(FALLER_INDEX as int, Direction::Down);
    assert(after == replaced.piece_inserted(FALLER_INDEX as int));
    lemma_synced_preview(s);
    lemma_throw_rests(s, first, Direction::Down);
    lemma_throw_distance(s, first, Direction::Down, k);
    lemma_move_stays_on_board(s, first, Direction::Down);
    lemma_fall_position(s, first, 1, k);
    assert(second == slid(first, Direction::Down, 1)) by {
        reveal(slid);
    }
    assert forall|j: int| 0 <= j <= k - 1 implies #[trigger] slid(second, Direction::Down, j) == slid(
        first,
        Direction::Down,
        j + 1,
    ) && after.can_move(slid(second, Direction::Down, j), Direction::Down) == s.can_move(
        slid(first, Direction::Down, j + 1),
        Direction::Down,
    ) by {
        let piece = slid(first, Direction::Down, j + 1);
        lemma_fall_position(s, first, j + 1, k);
        lemma_slid_twice(first, second, j);
        lemma_can_fall_past(s, Cell::Empty, first, piece, j + 1);
        lemma_can_fall_past(replaced, second.cell_value, second, piece, j);
        lemma_can_move_by_fullness(emptied, replaced, piece, piece, Direction::Down);
    }
    assert forall|j: int| 0 <= j < k - 1 implies after.can_move(
        #[trigger] slid(second, Direction::Down, j),
        Direction::Down,
    ) by {
        assert(s.can_move(slid(first, Direction::Down, j + 1), Direction::Down));
    }
    assert(slid(second, Direction::Down, k - 1) == slid(first, Direction::Down, k));
}

/// After the faller was drawn, each of its cells holds its kind of cell.
pub proof fn lemma_insert_draws(s: State)
    requires
        s.playable(),
    ensures
        s.piece_inserted(FALLER_INDEX as int).drawn(),
{
    lemma_index_in_range(s.width as int, s.height as int, s.faller.points[0]);
    lemma_index_in_range(s.width as int, s.height as int, s.faller.points[1]);
    lemma_index_in_range(s.width as int, s.height as int, s.faller.points[2]);
    lemma_index_in_range(s.width as int, s.height as int, s.faller.points[3]);
}

/// Bringing the landing preview up to date leaves the cells of a drawn
/// faller as they are.
pub proof fn lemma_ghost_updated_keeps_drawn(s: State, try_remove: bool)
    requires
        s.playable(),
        s.drawn(),
    ensures
        s.ghost_updated(try_remove).drawn(),
{
    reveal(State::ghost_updated);
    reveal(State::thrown);
    let wiped = if try_remove {
        s.ghost_removed()
    } else {
        s
    };
    let copied = wiped.with_piece(
        GHOST_INDEX as int,
        wiped.faller.with_cell(Cell::Shadow(wiped.faller.cell_value.shape())),
    );
    lemma_preview_thrown(copied);
    let k = copied.throw_distance(copied.shadow, Direction::Down);
    lemma_throw_rests(copied, copied.shadow, Direction::Down);
    let dropped = copied.thrown(GHOST_INDEX as int, Direction::Down);
    let after = s.ghost_updated(try_remove);
    assert(dropped.shadow == slid(copied.shadow, Direction::Down, k));
    assert(dropped.holds(dropped.shadow));
    assert forall|m: int| 0 <= m < 4 implies after.at(#[trigger] s.faller.points[m])
        == s.faller.cell_value by {
        let own = s.faller.points[m];
        lemma_index_in_range(s.width as int, s.height as int, own);
        assert(s.at(own) == s.faller.cell_value);
        assert(wiped.at(own) == s.faller.cell_value);
        let w = s.width as int;
        if index_of(w, dropped.shadow.points[0]) == index_of(w, own) {
            lemma_index_injective(w, dropped.shadow.points[0], own);
        }
        if index_of(w, dropped.shadow.points[1]) == index_of(w, own) {
            lemma_index_injective(w, dropped.shadow.points[1], own);
        }
        if index_of(w, dropped.shadow.points[2]) == index_of(w, own) {
            lemma_index_injective(w, dropped.shadow.points[2], own);
        }
        if index_of(w, dropped.shadow.points[3]) == index_of(w, own) {
            lemma_index_injective(w, dropped.shadow.points[3], own);
        }
    }
}

proof fn lemma_ghost_drawn_keeps_full(s: State)
    requires
        s.shadow.cell_value is Shadow,
        s.lands_free(s.faller, s.shadow),
    ensures
        full_kept(s.cells, s.ghost_drawn().cells),
{
    let after = s.ghost_drawn().cells;
    assert forall|i: int| 0 <= i < s.cells.len() implies (s.cells[i] is Full ==> after[i]
        == s.cells[i]) && (after[i] is Full ==> s.cells[i] is Full) by {
        assert(s.free_at(s.faller, s.shadow, 0));
        assert(s.free_at(s.faller, s.shadow, 1));
        assert(s.free_at(s.faller, s.shadow, 2));
        assert(s.free_at(s.faller, s.shadow, 3));
    }
}

/// Bringing the landing preview up to date leaves every occupied cell as it
/// is and occupies no other, and the game can be played on afterwards.
pub proof fn lemma_ghost_updated_keeps_full(s: State, try_remove: bool)
    requires
        s.playable(),
    ensures
        full_kept(s.cells, s.ghost_updated(try_remove).cells),
        s.ghost_updated(try_remove).playable(),
{
    reveal(State::ghost_updated);
    reveal(State::thrown);
    let wiped = if try_remove {
        s.ghost_removed()
    } else {
        s
    };
    assert(full_kept(s.cells, wiped.cells));
    let copied = wiped.with_piece(
        GHOST_INDEX as int,
        wiped.faller.with_cell(Cell::Shadow(wiped.faller.cell_value.shape())),
    );
    lemma_preview_thrown(copied);
    lemma_throw_rests(copied, copied.shadow, Direction::Down);
    let k = copied.throw_distance(copied.shadow, Direction::Down);
    let dropped = copied.thrown(GHOST_INDEX as int, Direction::Down);
    assert(dropped.shadow == slid(copied.shadow, Direction::Down, k));
    assert(dropped.playable());
    if dropped.shadow.pos != dropped.faller.pos {
        lemma_ghost_drawn_keeps_full(dropped);
    }
}

/// When the cells where the next piece appears are free, locking the
/// faller and calling in that piece leaves every cell that is occupied
/// after the locking as it is, and occupies besides them only the cells of
/// the new faller. The new faller is at the top centre in its first
/// rotation state, drawn and with its landing preview in place.
pub proof fn lemma_respawn_keeps_locked_cells(s: State, shape: Shape)
    requires
        s.playable(),
        !s.spawn_fails(FALLER_INDEX as int, shape),
        s.locked(FALLER_INDEX as int).score <= u32::MAX,
    ensures
        full_kept_but(
            s.locked(FALLER_INDEX as int).cells,
            s.respawned(shape).cells,
            s.width as int,
            s.newcomer(shape).points,
        ),
        s.respawned(shape).faller == s.newcomer(shape),
        s.respawned(shape).score == s.locked(FALLER_INDEX as int).score,
        s.respawned(shape).drawn(),
        s.respawned(shape).synced(),
{
    reveal(State::respawned);
    reveal(State::spawned);
    let locked = s.locked(FALLER_INDEX as int);
    lemma_locked_frame(s, FALLER_INDEX as int);
    assert(locked.playable());
    let newcomer = locked.newcomer(shape);
    lemma_spawn_on_board(locked, shape);
    let placed = locked.with_piece(FALLER_INDEX as int, newcomer);
    assert(placed.playable());
    let previewed = placed.ghost_updated(false);
    lemma_ghost_updated_keeps_full(placed, false);
    lemma_ghost_updated_frame(placed, false);
    lemma_ghost_updated_synced(placed, false);
    let inserted = previewed.piece_inserted(FALLER_INDEX as int);
    lemma_insert_draws(previewed);
    lemma_insert_keeps_sync(previewed);
    let w = s.width as int;
    assert(full_kept_but(locked.cells, inserted.cells, w, newcomer.points)) by {
        assert forall|i: int| 0 <= i < locked.cells.len() implies (locked.cells[i] is Full
            ==> inserted.cells[i] == locked.cells[i]) && (inserted.cells[i] is Full
            ==> locked.cells[i] is Full || covers(w, newcomer.points, i)) by {
            assert(!locked.covers_full(newcomer));
        }
    }
    let spawned = inserted.gravity_reset();
    assert(s.spawned(FALLER_INDEX as int, shape) == spawned);
    lemma_synced_same_board(inserted, spawned);
    assert(spawned.playable());
    lemma_ghost_updated_keeps_full(spawned, false);
    lemma_ghost_updated_frame(spawned, false);
    lemma_ghost_updated_synced(spawned, false);
    lemma_ghost_updated_keeps_drawn(spawned, false);
}

/// When the faller has come to rest and has filled no row, and the cells
/// where the next piece appears are free, a step of gravity locks the
/// faller where it is: its cells stay occupied with its shape. The next
/// piece is the faller then, at the top centre in its first rotation state,
/// drawn and with its landing preview in place, and the display counts as
/// changed.
pub proof fn lemma_gravity_locks_in_place(s: State, shape: Shape)
    requires
        s.playable(),
        s.drawn(),
        !s.can_move(s.faller, Direction::Down),
        forall|i: int|
            0 <= i < 4 ==> !row_full(s.cells, s.width as int, (#[trigger] s.faller.points[i]).y as int),
        !s.gravity_fails(shape),
        s.after_gravity(shape).score <= u32::MAX,
    ensures
        forall|i: int|
            0 <= i < 4 ==> s.after_gravity(shape).at(#[trigger] s.faller.points[i])
                == s.faller.cell_value,
        full_kept_but(
            s.cells,
            s.after_gravity(shape).cells,
            s.width as int,
            s.newcomer(shape).points,
        ),
        s.after_gravity(shape).faller == s.newcomer(shape),
        s.after_gravity(shape).display_changed,
        s.after_gravity(shape).drawn(),
        s.after_gravity(shape).synced(),
{
    reveal(State::after_gravity);
    reveal(State::swept);
    let marked = State { display_changed: true, ..s };
    lemma_can_move_by_fullness(s, marked, s.faller, s.faller, Direction::Down);
    lemma_after_gravity_frame(s, shape);
    lemma_sweep_idle(marked.cells, marked.width as int, marked.faller.points, 4);
    assert(marked.locked(FALLER_INDEX as int).cells == s.cells);
    lemma_respawn_keeps_locked_cells(marked, shape);
    let after = s.after_gravity(shape);
    assert forall|i: int| 0 <= i < 4 implies after.at(#[trigger] s.faller.points[i])
        == s.faller.cell_value by {
        lemma_index_in_range(s.width as int, s.height as int, s.faller.points[i]);
        assert(s.at(s.faller.points[i]) == s.faller.cell_value);
    }
}

/// When the faller has come to rest, is no wedged T, and has filled just
/// one row, and the cells where the next piece appears are free, a step of
/// gravity pays a hundred points and takes that row out: every cell that is
/// occupied once the rows above it have moved down by one is as it is then,
/// and besides them only the cells of the new faller are occupied.
pub proof fn lemma_gravity_clears_one_row(s: State, shape: Shape, y: int)
    requires
        s.playable(),
        !s.can_move(s.faller, Direction::Down),
        !s.t_spin(),
        0 <= y < s.height,
        row_full(s.cells, s.width as int, y),
        touches_row(s.faller.points, 4, y),
        forall|i: int|
            0 <= i < 4 && (#[trigger] s.faller.points[i]).y != y ==> !row_full(
                s.cells,
                s.width as int,
                s.faller.points[i].y as int,
            ),
        !s.gravity_fails(shape),
        s.after_gravity(shape).score <= u32::MAX,
    ensures
        s.after_gravity(shape).score == s.score + 100,
        full_kept_but(
            rows_cleared(s.cells, s.width as int, y, 1),
            s.after_gravity(shape).cells,
            s.width as int,
            s.newcomer(shape).points,
        ),
        s.after_gravity(shape).faller == s.newcomer(shape),
{
    reveal(State::after_gravity);
    reveal(State::swept);
    let marked = State { display_changed: true, ..s };
    lemma_can_move_by_fullness(s, marked, s.faller, s.faller, Direction::Down);
    lemma_after_gravity_frame(s, shape);
    lemma_piece_points_rising(s.faller);
    lemma_sweep_one_row(s.cells, s.width as int, s.height as int, s.faller.points, y, 4);
    assert(marked.locked(FALLER_INDEX as int).cells == rows_cleared(s.cells, s.width as int, y, 1));
    lemma_respawn_keeps_locked_cells(marked, shape);
}

/// When the faller has come to rest, is no wedged T and has filled no row,
/// and the next piece finds a spawn cell occupied, then locking the faller
/// and calling in that piece changes neither the grid nor the faller nor
/// the score, and the landing preview lies on the faller.
pub proof fn lemma_failed_respawn_changes_nothing(s: State, shape: Shape)
    requires
        s.playable(),
        !s.can_move(s.faller, Direction::Down),
        !s.t_spin(),
        forall|i: int|
            0 <= i < 4 ==> !row_full(s.cells, s.width as int, (#[trigger] s.faller.points[i]).y as int),
        s.spawn_fails(FALLER_INDEX as int, shape),
    ensures
        s.respawned(shape).cells == s.cells,
        s.respawned(shape).faller == s.faller,
        s.respawned(shape).score == s.score,
        s.respawned(shape).shadow.pos == s.faller.pos,
{
    reveal(State::respawned);
    lemma_failed_spawn_places_nothing(s, FALLER_INDEX as int, shape);
    assert(s.spawned(FALLER_INDEX as int, shape) == s);
    let after = s.ghost_updated(false);
    lemma_ghost_updated_synced(s, false);
    lemma_ghost_updated_frame(s, false);
    lemma_can_move_by_fullness(s, after, s.faller, s.faller, Direction::Down);
    lemma_synced_preview(after);
    assert(after.shadow.pos == s.faller.pos);
    reveal(State::ghost_updated);
    reveal(State::thrown);
}

} // verus!

