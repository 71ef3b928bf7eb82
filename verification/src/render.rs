//! Text: the colours of the cells, the frame with its bordered grid and
//! score line, and vectors and pieces written out.

use crate::cell::Cell;
use crate::grid::lemma_position_in_range;
use crate::piece::Piece;
use crate::tetromino::Shape;
use crate::v2::V2;
use vstd::prelude::*;
use vstd::string::StrSliceExecFns;
use vstd::string::StringExecFns;

verus! {

/// The escape sequence that selects the foreground colour with the given
/// number, written in decimal digits.
pub open spec fn fg_code(number: Seq<char>) -> Seq<char> {
    seq!['\u{1b}', '[', '3', '8', ';', '5', ';'] + number + seq!['m']
}

/// The number of the colour that a shape is drawn in.
pub open spec fn shape_color(shape: Shape) -> Seq<char> {
    match shape {
        Shape::I => seq!['6'],
        Shape::O => seq!['3'],
        Shape::T => seq!['5'],
        Shape::L => seq!['1', '2'],
        Shape::J => seq!['4'],
        Shape::S => seq!['2'],
        Shape::Z => seq!['1'],
    }
}

/// The text of one cell: its colour and two glyphs. An occupied cell is a
/// solid block in the colour of its shape, a preview cell is shaded white,
/// and an empty cell is a solid block in black.
pub open spec fn cell_text(cell: Cell) -> Seq<char> {
    match cell {
        Cell::Full(shape) => fg_code(shape_color(shape)) + seq!['\u{2588}', '\u{2588}'],
        Cell::Shadow(_) => fg_code(seq!['7']) + seq!['\u{2591}', '\u{2592}'],
        Cell::Empty => fg_code(seq!['0']) + seq!['\u{2588}', '\u{2588}'],
    }
}

/// The colour of the border.
pub open spec fn border_code() -> Seq<char> {
    fg_code(seq!['8'])
}

/// `n` copies of `text` in a row.
pub open spec fn repeated(text: Seq<char>, n: nat) -> Seq<char>
    decreases n,
{
    if n == 0 {
        Seq::empty()
    } else {
        repeated(text, (n - 1) as nat) + text
    }
}

/// The text of `n` cells of the grid, from position `from` on.
pub open spec fn cells_text(cells: Seq<Cell>, from: int, n: nat) -> Seq<char>
    decreases n,
{
    if n == 0 {
        Seq::empty()
    } else {
        cells_text(cells, from, (n - 1) as nat) + cell_text(cells[from + n - 1])
    }
}

/// The text of row `y`: its cells between two border glyphs, and a line end.
pub open spec fn row_text(cells: Seq<Cell>, width: nat, y: int) -> Seq<char> {
    border_code() + seq!['\u{2593}'] + cells_text(cells, y * width, width) + border_code()
        + seq!['\u{2593}', '\n', '\r']
}

/// The text of the first `n` rows.
pub open spec fn rows_text(cells: Seq<Cell>, width: nat, n: nat) -> Seq<char>
    decreases n,
{
    if n == 0 {
        Seq::empty()
    } else {
        rows_text(cells, width, (n - 1) as nat) + row_text(cells, width, n - 1)
    }
}

/// The character of a decimal digit.
pub open spec fn digit(d: int) -> char {
    if d == 0 {
        '0'
    } else if d == 1 {
        '1'
    } else if d == 2 {
        '2'
    } else if d == 3 {
        '3'
    } else if d == 4 {
        '4'
    } else if d == 5 {
        '5'
    } else if d == 6 {
        '6'
    } else if d == 7 {
        '7'
    } else if d == 8 {
        '8'
    } else {
        '9'
    }
}

/// A number in decimal digits, without leading zeros.
pub open spec fn decimal(n: nat) -> Seq<char>
    decreases n,
{
    if n < 10 {
        seq![digit(n as int)]
    } else {
        decimal(n / 10) + seq![digit((n % 10) as int)]
    }
}

/// A whole number in decimal digits, with a minus sign if it is negative.
pub open spec fn signed_decimal(n: int) -> Seq<char> {
    if n < 0 {
        seq!['-'] + decimal((-n) as nat)
    } else {
        decimal(n as nat)
    }
}

/// A vector as text: its two coordinates in round brackets.
pub open spec fn v2_text(v: V2) -> Seq<char> {
    seq!['('] + signed_decimal(v.x as int) + seq![',', ' '] + signed_decimal(v.y as int) + seq![')']
}

/// A piece as text: the word `Points` and, in square brackets, its four
/// cells one after another.
pub open spec fn piece_text(piece: Piece) -> Seq<char> {
    seq!['P', 'o', 'i', 'n', 't', 's', ':', ' ', '['] + v2_text(piece.points[0]) + v2_text(
        piece.points[1],
    ) + v2_text(piece.points[2]) + v2_text(piece.points[3]) + seq![']']
}

/// The score between two runs of dashes. Were the dashes twice as wide as a
/// cell is, the two runs and the digits would be as wide as the grid, or one
/// character short of it.
pub open spec fn score_line(width: nat, score: nat) -> Seq<char> {
    let digits = decimal(score);
    let dashes = repeated(seq!['-'], ((width * 2 - digits.len()) / 2) as nat);
    dashes + digits + dashes
}

/// The text of a whole frame: a top border, the rows of the grid between
/// side borders, a bottom border, and the score line.
pub open spec fn frame_text(cells: Seq<Cell>, width: nat, height: nat, score: nat) -> Seq<char> {
    border_code() + repeated(seq!['\u{2580}', '\u{2584}'], width + 1) + seq!['\n', '\r'] + rows_text(
        cells,
        width,
        height,
    ) + border_code() + repeated(seq!['\u{2584}', '\u{2580}'], width + 1) + seq!['\n', '\r']
        + score_line(width, score) + seq!['\n', '\r']
}

/// A number below ten to the tenth has at most ten digits.
pub proof fn lemma_decimal_len(n: nat)
    ensures
        1 <= decimal(n).len(),
        n < 10 ==> decimal(n).len() == 1,
        n < 100 ==> decimal(n).len() <= 2,
        n < 1000 ==> decimal(n).len() <= 3,
        n < 10000 ==> decimal(n).len() <= 4,
        n < 100000 ==> decimal(n).len() <= 5,
        n < 1000000 ==> decimal(n).len() <= 6,
        n < 10000000 ==> decimal(n).len() <= 7,
        n < 100000000 ==> decimal(n).len() <= 8,
        n < 1000000000 ==> decimal(n).len() <= 9,
        n < 10000000000 ==> decimal(n).len() <= 10,
    decreases n,
{
    if n >= 10 {
        lemma_decimal_len(n / 10);
    }
}

/// Black, from `termion::color::Black::fg_str`, which returns the fixed text
/// that selects colour 0.
#[verifier::external_body]
fn black() -> (code: &'static str)
    ensures
        code@ == fg_code(seq!['0']),
{
    termion::color::Black.fg_str()
}

/// Red, from `termion::color::Red::fg_str`, which returns the fixed text that
/// selects colour 1.
#[verifier::external_body]
fn red() -> (code: &'static str)
    ensures
        code@ == fg_code(seq!['1']),
{
    termion::color::Red.fg_str()
}

/// Green, from `termion::color::Green::fg_str`, which returns the fixed text
/// that selects colour 2.
#[verifier::external_body]
fn green() -> (code: &'static str)
    ensures
        code@ == fg_code(seq!['2']),
{
    termion::color::Green.fg_str()
}

/// Yellow, from `termion::color::Yellow::fg_str`, which returns the fixed
/// text that selects colour 3.
#[verifier::external_body]
fn yellow() -> (code: &'static str)
    ensures
        code@ == fg_code(seq!['3']),
{
    termion::color::Yellow.fg_str()
}

/// Blue, from `termion::color::Blue::fg_str`, which returns the fixed text
/// that selects colour 4.
#[verifier::external_body]
fn blue() -> (code: &'static str)
    ensures
        code@ == fg_code(seq!['4']),
{
    termion::color::Blue.fg_str()
}

/// Magenta, from `termion::color::Magenta::fg_str`, which returns the fixed
/// text that selects colour 5.
#[verifier::external_body]
fn magenta() -> (code: &'static str)
    ensures
        code@ == fg_code(seq!['5']),
{
    termion::color::Magenta.fg_str()
}

/// Cyan, from `termion::color::Cyan::fg_str`, which returns the fixed text
/// that selects colour 6.
#[verifier::external_body]
fn cyan() -> (code: &'static str)
    ensures
        code@ == fg_code(seq!['6']),
{
    termion::color::Cyan.fg_str()
}

/// White, from `termion::color::White::fg_str`, which returns the fixed text
/// that selects colour 7.
#[verifier::external_body]
fn white() -> (code: &'static str)
    ensures
        code@ == fg_code(seq!['7']),
{
    termion::color::White.fg_str()
}

/// Light black, from `termion::color::LightBlack::fg_str`, which returns the
/// fixed text that selects colour 8.
#[verifier::external_body]
fn light_black() -> (code: &'static str)
    ensures
        code@ == fg_code(seq!['8']),
{
    termion::color::LightBlack.fg_str()
}

/// Light blue, from `termion::color::LightBlue::fg_str`, which returns the
/// fixed text that selects colour 12.
#[verifier::external_body]
fn light_blue() -> (code: &'static str)
    ensures
        code@ == fg_code(seq!['1', '2']),
{
    termion::color::LightBlue.fg_str()
}

impl Shape {
    /// The escape sequence that selects the colour of the shape.
    pub fn fg_color_str(&self) -> (code: &'static str)
        ensures
            code@ == fg_code(shape_color(*self)),
    {
        match self {
            Shape::I => cyan(),
            Shape::O => yellow(),
            Shape::T => magenta(),
            Shape::L => light_blue(),
            Shape::J => blue(),
            Shape::S => green(),
            Shape::Z => red(),
        }
    }
}

impl Cell {
    /// The text that the cell is drawn with.
    pub fn to_string(&self) -> (text: String)
        ensures
            text@ == cell_text(*self),
    {
        let mut text = String::new();
        match self {
            Cell::Full(shape) => {
                proof {
                    reveal_strlit("██");
                }
                text.append(shape.fg_color_str());
                text.append("██");
            },
            Cell::Shadow(_) => {
                proof {
                    reveal_strlit("░▒");
                }
                text.append(white());
                text.append("░▒");
            },
            Cell::Empty => {
                proof {
                    reveal_strlit("██");
                }
                text.append(black());
                text.append("██");
            },
        }
        assert(text@ =~= cell_text(*self));
        text
    }
}

fn push_repeated(out: &mut String, text: &str, n: usize)
    ensures
        final(out)@ == old(out)@ + repeated(text@, n as nat),
{
    let mut i: usize = 0;
    assert(out@ =~= old(out)@ + repeated(text@, 0));
    while i < n
        invariant
            i <= n,
            out@ == old(out)@ + repeated(text@, i as nat),
        decreases n - i,
    {
        out.append(text);
        i += 1;
        assert(out@ =~= old(out)@ + repeated(text@, i as nat));
    }
}

fn digit_str(d: u32) -> (text: &'static str)
    requires
        d < 10,
    ensures
        text@ == seq![digit(d as int)],
{
    proof {
        reveal_strlit("0");
        reveal_strlit("1");
        reveal_strlit("2");
        reveal_strlit("3");
        reveal_strlit("4");
        reveal_strlit("5");
        reveal_strlit("6");
        reveal_strlit("7");
        reveal_strlit("8");
        reveal_strlit("9");
    }
    let text = if d == 0 {
        "0"
    } else if d == 1 {
        "1"
    } else if d == 2 {
        "2"
    } else if d == 3 {
        "3"
    } else if d == 4 {
        "4"
    } else if d == 5 {
        "5"
    } else if d == 6 {
        "6"
    } else if d == 7 {
        "7"
    } else if d == 8 {
        "8"
    } else {
        "9"
    };
    assert(text@ =~= seq![digit(d as int)]);
    text
}

fn push_decimal(out: &mut String, n: u32)
    ensures
        final(out)@ == old(out)@ + decimal(n as nat),
    decreases n,
{
    if n >= 10 {
        push_decimal(out, n / 10);
    }
    out.append(digit_str(n % 10));
    assert(out@ =~= old(out)@ + decimal(n as nat));
}

fn push_signed_decimal(out: &mut String, n: i32)
    ensures
        final(out)@ == old(out)@ + signed_decimal(n as int),
{
    if n < 0 {
        proof {
            reveal_strlit("-");
        }
        out.append("-");
        let magnitude: u32 = if n == i32::MIN {
            2147483648
        } else {
            (-n) as u32
        };
        push_decimal(out, magnitude);
        assert(out@ =~= old(out)@ + signed_decimal(n as int));
    } else {
        push_decimal(out, n as u32);
    }
}

impl V2 {
    /// The vector as text: its two coordinates in round brackets.
    pub fn to_string(&self) -> (text: String)
        ensures
            text@ == v2_text(*self),
    {
        proof {
            reveal_strlit("(");
            reveal_strlit(", ");
            reveal_strlit(")");
        }
        let mut text = String::new();
        text.append("(");
        push_signed_decimal(&mut text, self.x);
        text.append(", ");
        push_signed_decimal(&mut text, self.y);
        text.append(")");
        assert(text@ =~= v2_text(*self));
        text
    }
}

impl Piece {
    /// The piece as text: the word `Points` and, in square brackets, its
    /// four cells one after another.
    pub fn to_string(&self) -> (text: String)
        ensures
            text@ == piece_text(*self),
    {
        proof {
            reveal_strlit("Points: [");
            reveal_strlit("]");
        }
        let mut text = String::new();
        text.append("Points: [");
        text.append(self.points[0].to_string().as_str());
        text.append(self.points[1].to_string().as_str());
        text.append(self.points[2].to_string().as_str());
        text.append(self.points[3].to_string().as_str());
        text.append("]");
        assert(text@ =~= piece_text(*self));
        text
    }
}

/// A number in decimal digits.
pub fn decimal_string(n: u32) -> (text: String)
    ensures
        text@ == decimal(n as nat),
{
    let mut text = String::new();
    push_decimal(&mut text, n);
    assert(text@ =~= decimal(n as nat));
    text
}

fn push_row(out: &mut String, cells: &Vec<Cell>, width: usize, height: usize, y: usize)
    requires
        cells@.len() == width * height,
        y < height,
        0 < width,
    ensures
        final(out)@ == old(out)@ + row_text(cells@, width as nat, y as int),
{
    proof {
        reveal_strlit("▓");
        reveal_strlit("▓\n\r");
        lemma_position_in_range(width as int, height as int, 0, y as int);
    }
    let total = cells.len();
    let start = y * width;
    out.append(light_black());
    out.append("▓");
    let ghost head = out@;
    assert(out@ =~= head + cells_text(cells@, start as int, 0));
    let mut x: usize = 0;
    while x < width
        invariant
            x <= width,
            cells@.len() == width * height,
            y < height,
            start == y * width,
            total == cells@.len(),
            out@ == head + cells_text(cells@, start as int, x as nat),
        decreases width - x,
    {
        proof {
            lemma_position_in_range(width as int, height as int, x as int, y as int);
        }
        let text = cells[start + x].to_string();
        out.append(text.as_str());
        x += 1;
        assert(out@ =~= head + cells_text(cells@, start as int, x as nat));
    }
    out.append(light_black());
    out.append("▓\n\r");
    assert(out@ =~= old(out)@ + row_text(cells@, width as nat, y as int));
}

/// The text of a whole frame for a grid of the given size and a score. The
/// digits of the score must not be wider than the grid is drawn, which is
/// two characters a cell.
pub fn frame(cells: &Vec<Cell>, width: usize, height: usize, score: u32) -> (text: String)
    requires
        cells@.len() == width * height,
        2 * width <= usize::MAX,
        decimal(score as nat).len() <= 2 * width,
    ensures
        text@ == frame_text(cells@, width as nat, height as nat, score as nat),
{
    proof {
        reveal_strlit("▀▄");
        reveal_strlit("▄▀");
        reveal_strlit("\n\r");
        reveal_strlit("-");
        lemma_decimal_len(score as nat);
        assert("▀▄"@ =~= seq!['\u{2580}', '\u{2584}']);
        assert("▄▀"@ =~= seq!['\u{2584}', '\u{2580}']);
        assert("\n\r"@ =~= seq!['\n', '\r']);
        assert("-"@ =~= seq!['-']);
    }
    let mut out = String::new();
    out.append(light_black());
    push_repeated(&mut out, "▀▄", width + 1);
    out.append("\n\r");
    let ghost top = out@;
    assert(top =~= border_code() + repeated(seq!['\u{2580}', '\u{2584}'], (width + 1) as nat)
        + seq!['\n', '\r']);
    assert(out@ =~= top + rows_text(cells@, width as nat, 0));
    let mut y: usize = 0;
    while y < height
        invariant
            y <= height,
            0 < width,
            cells@.len() == width * height,
            out@ == top + rows_text(cells@, width as nat, y as nat),
        decreases height - y,
    {
        push_row(&mut out, cells, width, height, y);
        y += 1;
        assert(out@ =~= top + rows_text(cells@, width as nat, y as nat));
    }
    let ghost body = out@;
    let digits = decimal_string(score);
    let dashes = (width * 2 - digits.as_str().unicode_len()) / 2;
    out.append(light_black());
    push_repeated(&mut out, "▄▀", width + 1);
    out.append("\n\r");
    let ghost bottom = out@;
    assert(bottom =~= body + border_code() + repeated(
        seq!['\u{2584}', '\u{2580}'],
        (width + 1) as nat,
    ) + seq!['\n', '\r']);
    push_repeated(&mut out, "-", dashes);
    out.append(digits.as_str());
    push_repeated(&mut out, "-", dashes);
    assert(out@ =~= bottom + score_line(width as nat, score as nat));
    out.append("\n\r");
    assert(out@ =~= frame_text(cells@, width as nat, height as nat, score as nat));
    out
}

} // verus!
