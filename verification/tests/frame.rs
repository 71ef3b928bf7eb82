use tetris::render::{decimal_string, frame};
use tetris::{Cell, Piece, Shape, Tetris, V2};

const BORDER: &str = "\x1b[38;5;8m";
const EMPTY: &str = "\x1b[38;5;0m██";

#[test]
fn shapes_have_their_colours() {
    assert_eq!(Shape::I.fg_color_str(), "\x1b[38;5;6m");
    assert_eq!(Shape::O.fg_color_str(), "\x1b[38;5;3m");
    assert_eq!(Shape::T.fg_color_str(), "\x1b[38;5;5m");
    assert_eq!(Shape::L.fg_color_str(), "\x1b[38;5;12m");
    assert_eq!(Shape::J.fg_color_str(), "\x1b[38;5;4m");
    assert_eq!(Shape::S.fg_color_str(), "\x1b[38;5;2m");
    assert_eq!(Shape::Z.fg_color_str(), "\x1b[38;5;1m");
    assert_eq!(Shape::I.fg_color_str(), termion::color::Cyan.fg_str());
    assert_eq!(Shape::L.fg_color_str(), termion::color::LightBlue.fg_str());
}

#[test]
fn cells_are_drawn_by_kind() {
    assert_eq!(Cell::Full(Shape::L).to_string(), "\x1b[38;5;12m██");
    assert_eq!(Cell::Full(Shape::Z).to_string(), "\x1b[38;5;1m██");
    assert_eq!(Cell::Shadow(Shape::Z).to_string(), "\x1b[38;5;7m░▒");
    assert_eq!(Cell::Empty.to_string(), EMPTY);
}

#[test]
fn numbers_in_decimal() {
    assert_eq!(decimal_string(0), "0");
    assert_eq!(decimal_string(7), "7");
    assert_eq!(decimal_string(10), "10");
    assert_eq!(decimal_string(1234567890), "1234567890");
    assert_eq!(decimal_string(u32::MAX), "4294967295");
    for n in [9, 99, 100, 101, 4096, 65535, 999999] {
        assert_eq!(decimal_string(n), format!("{}", n));
    }
}

#[test]
fn frame_of_a_small_board() {
    let mut game = Tetris::new(5, 4);
    game.set_at(V2::new(0, 0), Cell::Full(Shape::I));
    game.set_at(V2::new(4, 3), Cell::Shadow(Shape::T));
    game.set_at(V2::new(2, 1), Cell::Full(Shape::L));
    let mut expected = String::new();
    expected += BORDER;
    expected += &"▀▄".repeat(6);
    expected += "\n\r";
    let rows = [
        ["\x1b[38;5;6m██", EMPTY, EMPTY, EMPTY, EMPTY],
        [EMPTY, EMPTY, "\x1b[38;5;12m██", EMPTY, EMPTY],
        [EMPTY, EMPTY, EMPTY, EMPTY, EMPTY],
        [EMPTY, EMPTY, EMPTY, EMPTY, "\x1b[38;5;7m░▒"],
    ];
    for row in rows {
        expected += BORDER;
        expected += "▓";
        for cell in row {
            expected += cell;
        }
        expected += BORDER;
        expected += "▓\n\r";
    }
    expected += BORDER;
    expected += &"▄▀".repeat(6);
    expected += "\n\r----0----\n\r";
    assert_eq!(game.display(), expected);
}

#[test]
fn score_line_is_centred_between_dashes() {
    let cells = vec![Cell::Empty; 50];
    let text = frame(&cells, 10, 5, 1234);
    assert!(text.ends_with("\n\r--------1234--------\n\r"));
    let text = frame(&cells, 10, 5, 123);
    assert!(text.ends_with("\n\r--------123--------\n\r"));
    let text = frame(&cells, 5, 10, u32::MAX);
    assert!(text.ends_with("\n\r4294967295\n\r"));
    let text = frame(&cells, 5, 10, 999999999);
    assert!(text.ends_with("\n\r999999999\n\r"));
    let text = frame(&cells, 5, 10, 99999999);
    assert!(text.ends_with("\n\r-99999999-\n\r"));
}

#[test]
fn frame_shows_the_game() {
    let mut game = Tetris::new(10, 20);
    game.reset();
    game.spawn_piece(0, Shape::T).unwrap();
    let text = game.display();
    assert_eq!(text.matches("\x1b[38;5;5m██").count(), 4);
    assert_eq!(text.matches("\x1b[38;5;7m░▒").count(), 4);
    assert_eq!(text.matches(EMPTY).count(), 192);
    assert_eq!(text.matches("▓\n\r").count(), 20);
    let top = format!("{}{}\n\r", BORDER, "▀▄".repeat(11));
    assert!(text.starts_with(&top));
    let bottom = format!("{}{}\n\r", BORDER, "▄▀".repeat(11));
    assert_eq!(text.matches(&bottom).count(), 1);
    assert!(text.ends_with("\n\r---------0---------\n\r"));
}

#[test]
fn vectors_as_text() {
    assert_eq!(V2::new(0, 0).to_string(), "(0, 0)");
    assert_eq!(V2::new(-1, 12).to_string(), "(-1, 12)");
    assert_eq!(V2::new(i32::MIN, i32::MAX).to_string(), "(-2147483648, 2147483647)");
}

#[test]
fn pieces_as_text() {
    let piece = Piece::new(V2::new(0, 0), Cell::Full(Shape::T));
    assert_eq!(piece.to_string(), "Points: [(-1, 0)(0, 0)(1, 0)(0, 1)]");
}

#[test]
fn frame_of_the_smallest_board() {
    let game = Tetris::new(1, 1);
    assert!(game.can_display());
    let expected = format!("{b}▀▄▀▄\n\r{b}▓{e}{b}▓\n\r{b}▄▀▄▀\n\r0\n\r", b = BORDER, e = EMPTY);
    assert_eq!(game.display(), expected);
    let cells = vec![Cell::Empty; 2];
    assert!(frame(&cells, 2, 1, 9999).ends_with("\n\r9999\n\r"));
    assert!(frame(&cells, 2, 1, 12).ends_with("\n\r-12-\n\r"));
}

#[test]
fn every_score_fits_a_board_five_wide() {
    let mut game = Tetris::new(5, 4);
    assert!(game.can_display());
    game.spawn_piece(0, Shape::O).unwrap();
    assert!(game.can_display());
}
