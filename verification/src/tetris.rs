//! The engine: the grid, the falling piece and its landing preview, the
//! score, and the timers of the game loop.

mod pieces;
mod play;
mod rows;
mod spawn;
mod spin;
mod turn;

use crate::cell::Cell;
use crate::grid::{index_of, lemma_index_in_range};
use crate::model::{MIN_HEIGHT, MIN_WIDTH, State};
use crate::piece::Piece;
use crate::preview::lemma_synced_same_board;
use crate::render::{decimal, decimal_string, frame, frame_text, lemma_decimal_len};
use crate::tetromino::Shape;
use crate::v2::V2;
use vstd::prelude::*;
use vstd::string::StrSliceExecFns;

verus! {

/// A game in progress or about to start.
pub struct Tetris {
    width: usize,
    height: usize,
    map: Vec<Cell>,
    score: u32,
    game_over: bool,
    faller: Piece,
    shadow: Piece,
    display_changed: bool,
    now: u64,
    next_frame_time: u64,
    next_gravity_time: u64,
    next_input_time: u64,
}

impl View for Tetris {
    type V = State;

    closed spec fn view(&self) -> State {
        State {
            width: self.width as nat,
            height: self.height as nat,
            cells: self.map@,
            score: self.score as nat,
            game_over: self.game_over,
            faller: self.faller,
            shadow: self.shadow,
            display_changed: self.display_changed,
            now: self.now as nat,
            next_frame_time: self.next_frame_time as nat,
            next_gravity_time: self.next_gravity_time as nat,
            next_input_time: self.next_input_time as nat,
        }
    }
}

impl Tetris {
    /// The invariant of the engine, stated on its model.
    pub open spec fn wf(&self) -> bool {
        self@.wf()
    }

    /// The invariant of the engine together with what play asks for: a
    /// board with room for every shape, and both pieces inside its walls.
    pub open spec fn playable(&self) -> bool {
        self@.playable()
    }

    /// A board of the given size with an empty grid, no points, the game
    /// over, and a horizontal bar waiting at the top centre. On a board of
    /// at least the smallest size for play the bar lies inside the walls and
    /// the game can be played; on a smaller one the grid can still be read,
    /// written and drawn.
    pub fn new(width: usize, height: usize) -> (game: Tetris)
        requires
            0 < width < i32::MAX,
            0 < height < i32::MAX,
            width * height <= usize::MAX,
        ensures
            game.wf(),
            MIN_WIDTH <= width && MIN_HEIGHT <= height ==> game.playable(),
            game@ == (State {
                width: width as nat,
                height: height as nat,
                cells: Seq::new((width * height) as nat, |i: int| Cell::Empty),
                score: 0,
                game_over: true,
                faller: Piece::fresh(V2 { x: (width / 2) as i32, y: 0 }, Cell::Full(Shape::I)),
                shadow: Piece::fresh(V2 { x: (width / 2) as i32, y: 0 }, Cell::Shadow(Shape::I)),
                display_changed: true,
                now: 0,
                next_frame_time: 0,
                next_gravity_time: 0,
                next_input_time: 0,
            }),
    {
        proof {
            crate::tetromino::lemma_first_layout_extent(Shape::I);
        }
        let temp = Piece::new(V2::new((width / 2) as i32, 0), Cell::Full(Shape::I));
        let temp_ghost = temp.clone_as_ghost();
        let map = vec![Cell::Empty; width * height];
        assert(map@ =~= Seq::new((width * height) as nat, |i: int| Cell::Empty));
        Tetris {
            width,
            height,
            map,
            score: 0,
            game_over: true,
            faller: temp,
            shadow: temp_ghost,
            display_changed: true,
            now: 0,
            next_frame_time: 0,
            next_gravity_time: 0,
            next_input_time: 0,
        }
    }

    /// The number of columns of the board.
    pub fn width(&self) -> (width: usize)
        ensures
            width == self@.width,
    {
        self.width
    }

    /// The number of rows of the board.
    pub fn height(&self) -> (height: usize)
        ensures
            height == self@.height,
    {
        self.height
    }

    /// Whether something on the display has changed since the last frame.
    pub fn display_changed(&self) -> (changed: bool)
        ensures
            changed == self@.display_changed,
    {
        self.display_changed
    }

    /// The piece under the player's control.
    pub fn faller(&self) -> (piece: &Piece)
        ensures
            *piece == self@.faller,
    {
        &self.faller
    }

    /// The landing preview of the faller.
    pub fn ghost(&self) -> (piece: &Piece)
        ensures
            *piece == self@.shadow,
    {
        &self.shadow
    }

    /// The current score.
    pub fn score(&self) -> (points: u32)
        ensures
            points == self@.score,
    {
        self.score
    }

    /// Whether the game is over: before the first piece, after a lost game
    /// and after the player has quit.
    pub fn is_over(&self) -> (over: bool)
        ensures
            over == self@.game_over,
    {
        self.game_over
    }

    /// Whether the board has room for every shape and both pieces lie inside
    /// its walls, so that the game can be played on it.
    pub fn is_playable(&self) -> (ok: bool)
        requires
            self.wf(),
        ensures
            ok == self.playable(),
    {
        MIN_WIDTH <= self.width && MIN_HEIGHT <= self.height && self.bounds_contain(
            self.faller.points[0],
        ) && self.bounds_contain(self.faller.points[1]) && self.bounds_contain(
            self.faller.points[2],
        ) && self.bounds_contain(self.faller.points[3]) && self.bounds_contain(
            self.shadow.points[0],
        ) && self.bounds_contain(self.shadow.points[1]) && self.bounds_contain(
            self.shadow.points[2],
        ) && self.bounds_contain(self.shadow.points[3])
    }

    /// Whether `p` is a cell of the board.
    pub fn bounds_contain(&self, p: V2) -> (inside: bool)
        requires
            self.wf(),
        ensures
            inside == self@.in_bounds(p),
    {
        p.x < self.width as i32 && p.x >= 0 && p.y >= 0 && p.y < self.height as i32
    }

    fn index(&self, p: V2) -> (i: usize)
        requires
            self.wf(),
            self@.in_bounds(p),
        ensures
            i == index_of(self@.width as int, p),
            i < self@.cells.len(),
    {
        proof {
            lemma_index_in_range(self.width as int, self.height as int, p);
        }
        p.x as usize + p.y as usize * self.width
    }

    /// The cell at `p`.
    pub fn at(&self, p: V2) -> (cell: &Cell)
        requires
            self.wf(),
            self@.in_bounds(p),
        ensures
            *cell == self@.at(p),
    {
        let i = self.index(p);
        &self.map[i]
    }

    /// Writes `value` at `p`.
    pub fn set_at(&mut self, p: V2, value: Cell)
        requires
            old(self).wf(),
            old(self)@.in_bounds(p),
        ensures
            final(self).wf(),
            old(self).playable() ==> final(self).playable(),
            final(self)@ == old(self)@.with_cell(p, value),
    {
        let i = self.index(p);
        self.map[i] = value;
    }

    /// Marks the game as over.
    pub fn end_game(&mut self)
        ensures
            final(self)@ == (State { game_over: true, ..old(self)@ }),
            old(self)@.synced() ==> final(self)@.synced(),
            old(self)@.drawn() ==> final(self)@.drawn(),
    {
        self.game_over = true;
        proof {
            lemma_synced_same_board(old(self)@, self@);
        }
    }

    /// Empties the grid, takes the points back to zero and marks the game
    /// as over.
    pub fn reset(&mut self)
        requires
            old(self).wf(),
        ensures
            final(self).wf(),
            old(self).playable() ==> final(self).playable(),
            final(self)@ == old(self)@.cleared(),
    {
        self.game_over = true;
        self.score = 0;
        let len = self.map.len();
        shift_cells_down(&mut self.map, len, len);
        assert(self.map@ =~= old(self)@.cleared().cells);
    }

    /// One flag per cell of the grid, row by row: whether the cell is
    /// occupied.
    pub fn serialize(&self) -> (flags: Vec<bool>)
        ensures
            flags@ == Seq::new(self@.cells.len(), |i: int| self@.cells[i] is Full),
    {
        let mut flags: Vec<bool> = Vec::new();
        let mut i: usize = 0;
        while i < self.map.len()
            invariant
                i <= self.map.len(),
                flags@.len() == i,
                forall|j: int| 0 <= j < i ==> flags@[j] == (self.map@[j] is Full),
            decreases self.map.len() - i,
        {
            flags.push(self.map[i].is_full());
            i += 1;
        }
        assert(flags@ =~= Seq::new(self@.cells.len(), |i: int| self@.cells[i] is Full));
        flags
    }

    /// Whether the frame can be drawn: the digits of the score are not wider
    /// than the grid, which is two characters a cell. On a board five cells
    /// wide or wider every score fits.
    pub fn can_display(&self) -> (ok: bool)
        requires
            self.wf(),
        ensures
            ok == (decimal(self@.score).len() <= 2 * self@.width),
            self@.width >= 5 ==> ok,
    {
        proof {
            lemma_decimal_len(self.score as nat);
        }
        decimal_string(self.score).as_str().unicode_len() <= 2 * self.width
    }

    /// The text of the current frame: the grid in a border, each cell two
    /// glyphs wide and in the colour of its kind, and under it the score
    /// between two runs of dashes.
    pub fn display(&self) -> (text: String)
        requires
            self.wf(),
            decimal(self@.score).len() <= 2 * self@.width,
        ensures
            text@ == frame_text(self@.cells, self@.width, self@.height, self@.score),
    {
        frame(&self.map, self.width, self.height, self.score)
    }
}

/// Moves the first `end - thickness` cells up by `thickness` places, and
/// empties the first `thickness` cells.
fn shift_cells_down(map: &mut Vec<Cell>, thickness: usize, end: usize)
    requires
        thickness <= end <= old(map)@.len(),
    ensures
        final(map)@.len() == old(map)@.len(),
        forall|i: int| 0 <= i < thickness ==> final(map)@[i] == Cell::Empty,
        forall|i: int| thickness <= i < end ==> final(map)@[i] == old(map)@[i - thickness],
        forall|i: int| end <= i < old(map)@.len() ==> final(map)@[i] == old(map)@[i],
{
    let mut i: usize = end;
    while i > thickness
        invariant
            thickness <= i <= end <= map@.len(),
            map@.len() == old(map)@.len(),
            forall|j: int| 0 <= j < i ==> map@[j] == old(map)@[j],
            forall|j: int| i <= j < end ==> map@[j] == old(map)@[j - thickness],
            forall|j: int| end <= j < map@.len() ==> map@[j] == old(map)@[j],
        decreases i,
    {
        i -= 1;
        let cell = map[i - thickness];
        map[i] = cell;
    }
    let mut i: usize = 0;
    while i < thickness
        invariant
            i <= thickness <= end <= map@.len(),
            map@.len() == old(map)@.len(),
            forall|j: int| 0 <= j < i ==> map@[j] == Cell::Empty,
            forall|j: int| thickness <= j < end ==> map@[j] == old(map)@[j - thickness],
            forall|j: int| end <= j < map@.len() ==> map@[j] == old(map)@[j],
        decreases thickness - i,
    {
        map[i] = Cell::Empty;
        i += 1;
    }
}

} // verus!
