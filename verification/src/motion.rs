//! Laws of movement: where a piece can go, where it stays on the board, and
//! where it comes to rest.

use crate::cell::Cell;
use crate::direction::Direction;
use crate::grid::{
    among,
    index_of,
    lemma_index_in_range,
    lemma_index_injective,
    painted,
    same_fullness,
};
use crate::model::{MIN_HEIGHT, MIN_WIDTH, State, slid};
use crate::piece::{Piece, can_place};
use crate::tetromino::{Shape, Side, push_back};
use crate::tetromino::data::Flags;
use crate::v2::V2;
use vstd::prelude::*;

verus! {

/// On a board, the anchor of a piece lies at most one cell outside the
/// cells that the piece covers.
pub proof fn lemma_anchor_near(state: State, piece: Piece)
    requires
        piece.wf(),
        state.holds(piece),
    ensures
        -1 <= piece.pos.x <= state.width - 1,
        -1 <= piece.pos.y <= state.height - 1,
{
    crate::tetromino::lemma_layout_extent(piece.data);
}

/// A cell that is not looked at before a step arrives where another cell
/// of the piece was.
pub proof fn lemma_hidden_cell_follows(piece: Piece, d: Direction, i: int)
    requires
        piece.wf(),
        0 <= i < 4,
        piece.points[i].can_add(d.delta()),
        !piece.data.masks()[i].contains(Flags(d.bit())),
    ensures
        among(piece.points, piece.points[i].plus(d.delta())),
{
    crate::tetromino::lemma_mask_marks_rim(piece.data, i, d);
    let o = piece.data.offsets().0;
    let beside = V2 { x: (o[i].x + d.delta().x) as i32, y: (o[i].y + d.delta().y) as i32 };
    assert(piece.data.offsets().occupies(beside));
    crate::tetromino::lemma_layout_extent(piece.data);
    assert(-1 <= o[i].x <= 2 && -1 <= o[i].y <= 2);
    assert(piece.points[0] == piece.pos.plus(o[0]));
    assert(piece.points[1] == piece.pos.plus(o[1]));
    assert(piece.points[2] == piece.pos.plus(o[2]));
    assert(piece.points[3] == piece.pos.plus(o[3]));
    assert(piece.points[i] == piece.pos.plus(o[i]));
}

/// When a piece on the board can take a step, each of its cells arrives on
/// the board: a cell that was not looked at arrives where another cell of
/// the piece was.
pub proof fn lemma_cell_lands_on_board(state: State, piece: Piece, d: Direction, i: int)
    requires
        state.width <= i32::MAX,
        state.height <= i32::MAX,
        piece.wf(),
        state.holds(piece),
        state.can_move(piece, d),
        0 <= i < 4,
    ensures
        piece.points[i].can_add(d.delta()),
        state.in_bounds(piece.points[i].plus(d.delta())),
{
    reveal(State::can_move);
    crate::tetromino::lemma_mask_marks_rim(piece.data, i, d);
    crate::tetromino::lemma_layout_extent(piece.data);
    assert(state.cell_clear(piece, d, i));
}

/// A piece on the board that can take a step is on the board after it, one
/// cell nearer to the wall it moves towards.
pub proof fn lemma_move_stays_on_board(state: State, piece: Piece, d: Direction)
    requires
        state.width <= i32::MAX,
        state.height <= i32::MAX,
        piece.wf(),
        state.holds(piece),
        state.can_move(piece, d),
    ensures
        piece.can_translate(d.delta()),
        piece.translated_by(d.delta()).wf(),
        state.holds(piece.translated_by(d.delta())),
        state.room(piece.translated_by(d.delta()), d) == state.room(piece, d) - 1,
        state.room(piece, d) >= 1,
{
    reveal(State::can_move);
    lemma_anchor_near(state, piece);
    lemma_cell_lands_on_board(state, piece, d, 0);
    lemma_cell_lands_on_board(state, piece, d, 1);
    lemma_cell_lands_on_board(state, piece, d, 2);
    lemma_cell_lands_on_board(state, piece, d, 3);
    crate::piece::lemma_translated_wf(piece, d.delta());
    lemma_anchor_near(state, piece.translated_by(d.delta()));
}

/// A piece that lies on free cells or on the cells of `own`, and that can
/// take a step, lies on such cells after the step as well.
pub proof fn lemma_step_lands_free(state: State, own: Piece, piece: Piece, d: Direction)
    requires
        state.width <= i32::MAX,
        state.height <= i32::MAX,
        piece.wf(),
        state.holds(piece),
        state.lands_free(own, piece),
        state.can_move(piece, d),
    ensures
        state.lands_free(own, piece.translated_by(d.delta())),
{
    reveal(State::can_move);
    let after = piece.translated_by(d.delta());
    assert forall|i: int| 0 <= i < 4 implies state.free_at(own, after, i) by {
        lemma_cell_lands_on_board(state, piece, d, i);
        let target = piece.points[i].plus(d.delta());
        assert(after.points[i] == target);
        if piece.data.masks()[i].contains(Flags(d.bit())) {
            assert(state.cell_clear(piece, d, i));
        } else {
            lemma_hidden_cell_follows(piece, d, i);
            assert(state.free_at(own, piece, 0));
            assert(state.free_at(own, piece, 1));
            assert(state.free_at(own, piece, 2));
            assert(state.free_at(own, piece, 3));
        }
    }
}

/// A piece after `k` steps down is the piece moved by `k` rows.
pub proof fn lemma_slid_down(piece: Piece, k: int)
    ensures
        slid(piece, Direction::Down, k) == piece.translated_by(V2 { x: 0, y: k as i32 }),
{
    reveal(slid);
}

/// A piece moved `k` steps and then one more has moved `k + 1` steps.
pub proof fn lemma_slid_step(state: State, piece: Piece, d: Direction, k: int)
    requires
        0 <= k < i32::MAX,
        piece.wf(),
        slid(piece, d, k).wf(),
        state.room(slid(piece, d, k), d) + k == state.room(piece, d),
        slid(piece, d, k).can_translate(d.delta()),
    ensures
        slid(piece, d, k).translated_by(d.delta()) == slid(piece, d, k + 1),
{
    reveal(slid);
    let m = slid(piece, d, k);
    let a = m.translated_by(d.delta());
    let b = slid(piece, d, k + 1);
    assert(m.data == piece.data);
    match d {
        Direction::Up => {
            assert(m.pos.y == piece.pos.y - k);
            assert(m.pos.x == piece.pos.x);
        },
        Direction::Down => {
            assert(m.pos.y == piece.pos.y + k);
            assert(m.pos.x == piece.pos.x);
        },
        Direction::Left => {
            assert(m.pos.x == piece.pos.x - k);
            assert(m.pos.y == piece.pos.y);
        },
        Direction::Right => {
            assert(m.pos.x == piece.pos.x + k);
            assert(m.pos.y == piece.pos.y);
        },
    }
    assert(a.pos == b.pos);
    assert(a.points[0] == b.points[0]);
    assert(a.points[1] == b.points[1]);
    assert(a.points[2] == b.points[2]);
    assert(a.points[3] == b.points[3]);
    assert(a.points =~= b.points);
}

/// On a board of at least the smallest size, a new piece of any shape lies
/// within the walls.
pub proof fn lemma_spawn_on_board(state: State, shape: Shape)
    requires
        MIN_WIDTH <= state.width < i32::MAX,
        MIN_HEIGHT <= state.height < i32::MAX,
    ensures
        can_place(state.spawn_point(), (crate::tetromino::Tetromino { shape, state: 0 }).offsets()),
        state.newcomer(shape).wf(),
        state.holds(state.newcomer(shape)),
{
    crate::tetromino::lemma_first_layout_extent(shape);
    let offsets = (crate::tetromino::Tetromino { shape, state: 0 }).offsets();
    assert(-1 <= offsets.0[0].x <= 2 && 0 <= offsets.0[0].y <= 1);
    assert(-1 <= offsets.0[1].x <= 2 && 0 <= offsets.0[1].y <= 1);
    assert(-1 <= offsets.0[2].x <= 2 && 0 <= offsets.0[2].y <= 1);
    assert(-1 <= offsets.0[3].x <= 2 && 0 <= offsets.0[3].y <= 1);
}

/// On a board of at least the smallest size, a piece on the board that is
/// turned and pushed back lies within the walls again.
pub proof fn lemma_spin_on_board(state: State, side: Side)
    requires
        MIN_WIDTH <= state.width < i32::MAX,
        MIN_HEIGHT <= state.height < i32::MAX,
        state.faller.wf(),
        state.holds(state.faller),
        state.faller.data.shape != Shape::O,
    ensures
        can_place(state.faller.pos, state.faller.data.rotated(side).offsets()),
        state.faller.turned(side).wf(),
        state.faller.turned(side).can_translate(state.kick(state.faller.turned(side).points)),
        state.spin_target(side).wf(),
        state.holds(state.spin_target(side)),
{
    let faller = state.faller;
    let pos = faller.pos;
    let (w, h) = (state.width as int, state.height as int);
    let o = faller.data.offsets().0;
    let r = faller.data.rotated(side).offsets().0;
    lemma_anchor_near(state, faller);
    crate::tetromino::lemma_rotate_there_and_back(faller.data);
    crate::tetromino::lemma_layout_extent(faller.data.rotated(side));
    assert(-1 <= r[0].x <= 2 && -1 <= r[0].y <= 2);
    assert(-1 <= r[1].x <= 2 && -1 <= r[1].y <= 2);
    assert(-1 <= r[2].x <= 2 && -1 <= r[2].y <= 2);
    assert(-1 <= r[3].x <= 2 && -1 <= r[3].y <= 2);
    assert(can_place(pos, faller.data.rotated(side).offsets()));
    crate::piece::lemma_turned_wf(faller, side);
    assert forall|i: int| 0 <= i < 4 implies 0 <= pos.x + (#[trigger] o[i]).x < w && 0 <= pos.y
        + o[i].y < h by {
        assert(faller.points[i] == pos.plus(o[i]));
        assert(state.in_bounds(faller.points[i]));
    }
    crate::tetromino::lemma_turn_fits(faller.data, side, pos, w, h);
    let turned = faller.turned(side);
    assert(turned.points[0] == pos.plus(r[0]));
    assert(turned.points[1] == pos.plus(r[1]));
    assert(turned.points[2] == pos.plus(r[2]));
    assert(turned.points[3] == pos.plus(r[3]));
    let v = state.kick(turned.points);
    let kx = push_back(w, pos.x + r[0].x) + push_back(w, pos.x + r[1].x) + push_back(
        w,
        pos.x + r[2].x,
    ) + push_back(w, pos.x + r[3].x);
    let ky = push_back(h, pos.y + r[0].y) + push_back(h, pos.y + r[1].y) + push_back(
        h,
        pos.y + r[2].y,
    ) + push_back(h, pos.y + r[3].y);
    assert(v.x == kx && v.y == ky);
    assert(0 <= pos.x + r[0].x + kx < w && 0 <= pos.y + r[0].y + ky < h);
    assert(0 <= pos.x + r[1].x + kx < w && 0 <= pos.y + r[1].y + ky < h);
    assert(0 <= pos.x + r[2].x + kx < w && 0 <= pos.y + r[2].y + ky < h);
    assert(0 <= pos.x + r[3].x + kx < w && 0 <= pos.y + r[3].y + ky < h);
    assert(turned.can_translate(v));
    crate::piece::lemma_translated_wf(turned, v);
}

/// Whether a piece can take a step depends on where it is and how it is
/// turned, on the size of the board and on which cells are occupied, and on
/// nothing else.
pub proof fn lemma_can_move_by_fullness(a: State, b: State, p: Piece, q: Piece, d: Direction)
    requires
        a.width == b.width,
        a.height == b.height,
        a.cells.len() == a.width * a.height,
        same_fullness(a.cells, b.cells),
        p.points == q.points,
        p.data == q.data,
    ensures
        a.can_move(p, d) == b.can_move(q, d),
{
    reveal(State::can_move);
    assert forall|i: int| 0 <= i < 4 implies a.cell_clear(p, d, i) == b.cell_clear(q, d, i) by {
        let target = p.points[i].plus(d.delta());
        if a.in_bounds(target) {
            lemma_index_in_range(a.width as int, a.height as int, target);
        }
    }
}

/// Whether a piece comes to rest after a given number of steps depends on
/// where it is and how it is turned, on the size of the board and on which
/// cells are occupied, and on nothing else.
pub proof fn lemma_rests_by_fullness(a: State, b: State, p: Piece, q: Piece, d: Direction, k: int)
    requires
        a.width == b.width,
        a.height == b.height,
        a.cells.len() == a.width * a.height,
        same_fullness(a.cells, b.cells),
        p.points == q.points,
        p.data == q.data,
    ensures
        a.rests_after(p, d, k) == b.rests_after(q, d, k),
{
    reveal(slid);
    assert forall|j: int| a.can_move(#[trigger] slid(p, d, j), d) == b.can_move(slid(q, d, j), d) by {
        lemma_can_move_by_fullness(a, b, slid(p, d, j), slid(q, d, j), d);
    }
    if a.slides(p, d, k) {
        assert forall|j: int| 0 <= j < k implies b.can_move(#[trigger] slid(q, d, j), d) by {
            assert(a.can_move(slid(p, d, j), d));
        }
    }
    if b.slides(q, d, k) {
        assert forall|j: int| 0 <= j < k implies a.can_move(#[trigger] slid(p, d, j), d) by {
            assert(b.can_move(slid(q, d, j), d));
        }
    }
}

/// Writing on four cells of the board does not change whether a piece can
/// take a step, if none of the cells that are looked at for the step is
/// among them.
pub proof fn lemma_can_move_after_paint(
    s: State,
    points: [V2; 4],
    value: Cell,
    piece: Piece,
    d: Direction,
)
    requires
        0 < s.width,
        s.cells.len() == s.width * s.height,
        s.in_bounds(points[0]),
        s.in_bounds(points[1]),
        s.in_bounds(points[2]),
        s.in_bounds(points[3]),
        forall|i: int|
            0 <= i < 4 && (#[trigger] piece.data.masks()[i]).contains(Flags(d.bit())) ==> !among(
                points,
                piece.points[i].plus(d.delta()),
            ),
    ensures
        s.with_cells(painted(s.cells, s.width as int, points, value)).can_move(piece, d)
            == s.can_move(piece, d),
{
    reveal(State::can_move);
    let after = s.with_cells(painted(s.cells, s.width as int, points, value));
    assert forall|i: int| 0 <= i < 4 implies after.cell_clear(piece, d, i) == s.cell_clear(
        piece,
        d,
        i,
    ) by {
        if piece.data.masks()[i].contains(Flags(d.bit())) {
            let target = piece.points[i].plus(d.delta());
            if s.in_bounds(target) {
                lemma_index_in_range(s.width as int, s.height as int, target);
                if index_of(s.width as int, points[0]) == index_of(s.width as int, target) {
                    lemma_index_injective(s.width as int, points[0], target);
                }
                if index_of(s.width as int, points[1]) == index_of(s.width as int, target) {
                    lemma_index_injective(s.width as int, points[1], target);
                }
                if index_of(s.width as int, points[2]) == index_of(s.width as int, target) {
                    lemma_index_injective(s.width as int, points[2], target);
                }
                if index_of(s.width as int, points[3]) == index_of(s.width as int, target) {
                    lemma_index_injective(s.width as int, points[3], target);
                }
            }
        }
    }
}

/// A piece that comes to rest after `k` steps is thrown exactly `k` steps.
pub proof fn lemma_throw_distance(state: State, piece: Piece, d: Direction, k: int)
    requires
        state.rests_after(piece, d, k),
    ensures
        state.throw_distance(piece, d) == k,
{
    let n = state.throw_distance(piece, d);
    assert(state.rests_after(piece, d, n));
    if n < k {
        assert(state.can_move(slid(piece, d, n), d));
    } else if k < n {
        assert(state.can_move(slid(piece, d, k), d));
    }
}

/// Whether, after `n` steps in direction `d`, `start` is still a piece on
/// the board that lies on free cells or on its own first cells.
pub open spec fn on_its_way(s: State, start: Piece, d: Direction, n: int) -> bool {
    &&& 0 <= n < i32::MAX
    &&& slid(start, d, n).wf()
    &&& s.holds(slid(start, d, n))
    &&& n + s.room(slid(start, d, n), d) == s.room(start, d)
    &&& s.lands_free(start, slid(start, d, n))
}

proof fn lemma_rest_exists(s: State, start: Piece, d: Direction, n: int) -> (k: int)
    requires
        s.width < i32::MAX,
        s.height < i32::MAX,
        start.wf(),
        s.holds(start),
        s.slides(start, d, n),
        on_its_way(s, start, d, n),
    ensures
        n <= k,
        s.rests_after(start, d, k),
        on_its_way(s, start, d, k),
    decreases s.room(slid(start, d, n), d),
{
    let here = slid(start, d, n);
    lemma_anchor_near(s, start);
    lemma_anchor_near(s, here);
    if s.can_move(here, d) {
        lemma_move_stays_on_board(s, here, d);
        lemma_step_lands_free(s, start, here, d);
        lemma_slid_step(s, start, d, n);
        assert forall|j: int| 0 <= j < n + 1 implies s.can_move(#[trigger] slid(start, d, j), d) by {
            if j == n {
                assert(slid(start, d, j) == here);
            }
        }
        lemma_rest_exists(s, start, d, n + 1)
    } else {
        n
    }
}

/// A piece on the board that is pushed in one direction comes to rest after
/// as many steps as its throw distance says. It is then still on the board,
/// and it lies on cells that are free or were its own.
pub proof fn lemma_throw_rests(s: State, piece: Piece, d: Direction)
    requires
        s.width < i32::MAX,
        s.height < i32::MAX,
        piece.wf(),
        s.holds(piece),
    ensures
        s.rests_after(piece, d, s.throw_distance(piece, d)),
        on_its_way(s, piece, d, s.throw_distance(piece, d)),
{
    reveal(slid);
    assert(slid(piece, d, 0).points =~= piece.points);
    assert(slid(piece, d, 0) == piece);
    lemma_anchor_near(s, piece);
    let k = lemma_rest_exists(s, piece, d, 0);
    lemma_throw_distance(s, piece, d, k);
}

/// On its way down to where it comes to rest, a piece stays well-formed and
/// on the board, in its column, and one row lower with every step.
pub proof fn lemma_fall_position(s: State, start: Piece, j: int, k: int)
    requires
        s.width < i32::MAX,
        s.height < i32::MAX,
        start.wf(),
        s.holds(start),
        on_its_way(s, start, Direction::Down, k),
        0 <= j <= k,
    ensures
        slid(start, Direction::Down, j).wf(),
        s.holds(slid(start, Direction::Down, j)),
        slid(start, Direction::Down, j).data == start.data,
        slid(start, Direction::Down, j).cell_value == start.cell_value,
        slid(start, Direction::Down, j).pos.x == start.pos.x,
        slid(start, Direction::Down, j).pos.y == start.pos.y + j,
{
    lemma_slid_down(start, j);
    lemma_slid_down(start, k);
    let end = slid(start, Direction::Down, k);
    let here = slid(start, Direction::Down, j);
    let o = start.data.offsets().0;
    assert(end.pos.y == start.pos.y + k);
    assert(end.data == start.data);
    assert forall|i: int| 0 <= i < 4 implies (#[trigger] end.points[i]).y == start.points[i].y + k
        && end.points[i].x == start.points[i].x by {
        assert(start.points[i] == start.pos.plus(o[i]));
        assert(end.points[i] == end.pos.plus(o[i]));
    }
    assert(end.points[0].y == start.points[0].y + k);
    assert(end.points[1].y == start.points[1].y + k);
    assert(end.points[2].y == start.points[2].y + k);
    assert(end.points[3].y == start.points[3].y + k);
    let v = V2 { x: 0, y: j as i32 };
    assert(start.can_translate(v));
    crate::piece::lemma_translated_wf(start, v);
    assert(here == start.translated_by(v));
}

/// The cell below a cell on the lower rim of a piece is not a cell of the
/// same piece where it is, nor where it was any number of rows higher up.
pub proof fn lemma_rim_target_off(higher: Piece, piece: Piece, n: int, i: int)
    requires
        higher.wf(),
        piece.wf(),
        piece.data == higher.data,
        piece.pos.x == higher.pos.x,
        piece.pos.y == higher.pos.y + n,
        n >= 0,
        0 <= i < 4,
        piece.points[i].can_add(Direction::Down.delta()),
        piece.data.masks()[i].contains(Flags(Direction::Down.bit())),
    ensures
        !among(higher.points, piece.points[i].plus(Direction::Down.delta())),
{
    crate::tetromino::lemma_nothing_below_rim(piece.data, i, 0, n + 1);
    crate::tetromino::lemma_nothing_below_rim(piece.data, i, 1, n + 1);
    crate::tetromino::lemma_nothing_below_rim(piece.data, i, 2, n + 1);
    crate::tetromino::lemma_nothing_below_rim(piece.data, i, 3, n + 1);
    crate::tetromino::lemma_layout_extent(piece.data);
    let o = piece.data.offsets().0;
    assert(higher.points[0] == higher.pos.plus(o[0]) && piece.points[0] == piece.pos.plus(o[0]));
    assert(higher.points[1] == higher.pos.plus(o[1]) && piece.points[1] == piece.pos.plus(o[1]));
    assert(higher.points[2] == higher.pos.plus(o[2]) && piece.points[2] == piece.pos.plus(o[2]));
    assert(higher.points[3] == higher.pos.plus(o[3]) && piece.points[3] == piece.pos.plus(o[3]));
    assert(piece.points[i] == piece.pos.plus(o[i]));
}

/// Writing on the cells of a piece does not change whether the same piece,
/// there or further down, can take a step down.
pub proof fn lemma_can_fall_past(s: State, value: Cell, higher: Piece, piece: Piece, n: int)
    requires
        0 < s.width,
        s.height < i32::MAX,
        s.cells.len() == s.width * s.height,
        s.holds(higher),
        s.holds(piece),
        higher.wf(),
        piece.wf(),
        piece.data == higher.data,
        piece.pos.x == higher.pos.x,
        piece.pos.y == higher.pos.y + n,
        n >= 0,
    ensures
        s.with_cells(painted(s.cells, s.width as int, higher.points, value)).can_move(
            piece,
            Direction::Down,
        ) == s.can_move(piece, Direction::Down),
{
    assert forall|i: int|
        0 <= i < 4 && (#[trigger] piece.data.masks()[i]).contains(
            Flags(Direction::Down.bit()),
        ) implies !among(higher.points, piece.points[i].plus(Direction::Down.delta())) by {
        lemma_rim_target_off(higher, piece, n, i);
    }
    lemma_can_move_after_paint(s, higher.points, value, piece, Direction::Down);
}

} // verus!
