use tetris::cell::Cell;
use tetris::direction::Direction;
use tetris::input::GameInput;
use tetris::model::{SpawningError, Turn};
use tetris::piece::Piece;
use tetris::random::{random_shape, roll_die};
use tetris::tetris::Tetris;
use tetris::tetromino::Shape;
use tetris::v2::V2;

const FALLER: usize = 0;
const GHOST: usize = 1;
const MS: u64 = 1_000_000;

fn board() -> Tetris {
    let mut game = Tetris::new(10, 20);
    game.reset();
    game
}

fn cells_of(piece: &Piece) -> Vec<(i32, i32)> {
    piece.points.iter().map(|p| (p.x, p.y)).collect()
}

fn full_cells(game: &Tetris) -> Vec<(i32, i32)> {
    let width = game.width() as i32;
    let mut cells = Vec::new();
    for (i, full) in game.serialize().iter().enumerate() {
        if *full {
            cells.push((i as i32 % width, i as i32 / width));
        }
    }
    cells
}

fn cells_with(game: &Tetris, value: Cell) -> Vec<(i32, i32)> {
    let mut cells = Vec::new();
    for y in 0..game.height() as i32 {
        for x in 0..game.width() as i32 {
            if *game.at(V2::new(x, y)) == value {
                cells.push((x, y));
            }
        }
    }
    cells
}

fn fill_row_but(game: &mut Tetris, y: i32, gap: i32) {
    for x in 0..game.width() as i32 {
        if x != gap {
            game.set_at(V2::new(x, y), Cell::Full(Shape::L));
        }
    }
}

/// A bar standing in the rightmost column at the top of a fresh board.
fn bar_in_last_column(game: &mut Tetris) {
    assert_eq!(game.spawn_piece(FALLER, Shape::I), Ok(()));
    assert!(game.spin(false));
    for _ in 0..4 {
        assert!(game.try_move_piece_and_update(FALLER, Direction::Right));
    }
    assert_eq!(cells_of(game.faller()), vec![(9, 0), (9, 1), (9, 2), (9, 3)]);
}

fn fall_until_landed(game: &mut Tetris) -> usize {
    let mut steps = 0;
    while game.try_move_piece_and_update(FALLER, Direction::Down) {
        steps += 1;
    }
    steps
}

fn fall_until_locked(game: &mut Tetris, next: Shape) -> usize {
    let mut steps = 0;
    loop {
        let before = game.faller().pos;
        assert_eq!(game.apply_gravity_with(next), Ok(()));
        if game.faller().pos != V2::new(before.x, before.y + 1) {
            return steps;
        }
        steps += 1;
    }
}

#[test]
fn new_board_is_empty_and_over() {
    let game = Tetris::new(10, 20);
    assert_eq!(game.width(), 10);
    assert_eq!(game.height(), 20);
    assert_eq!(game.score(), 0);
    assert!(game.is_over());
    assert!(game.display_changed());
    assert_eq!(game.serialize(), vec![false; 200]);
    assert_eq!(cells_of(game.faller()), vec![(4, 0), (5, 0), (6, 0), (7, 0)]);
    assert_eq!(game.faller().cell_value, Cell::Full(Shape::I));
    assert_eq!(cells_of(game.ghost()), vec![(4, 0), (5, 0), (6, 0), (7, 0)]);
    assert_eq!(game.ghost().cell_value, Cell::Shadow(Shape::I));
    assert_eq!(game.time_to_sleep(0), 0);
}

#[test]
fn smallest_board_takes_every_shape() {
    for shape in [Shape::I, Shape::O, Shape::T, Shape::L, Shape::J, Shape::S, Shape::Z] {
        let mut game = Tetris::new(5, 4);
        assert_eq!(game.spawn_piece(FALLER, shape), Ok(()));
        assert_eq!(game.faller().pos, V2::new(2, 0));
        for p in game.faller().points {
            assert!(game.bounds_contain(p));
        }
        for _ in 0..8 {
            game.spin(true);
            for p in game.faller().points {
                assert!(game.bounds_contain(p));
            }
        }
    }
}

#[test]
fn reset_clears_grid_and_score() {
    let mut game = board();
    assert_eq!(game.spawn_piece(FALLER, Shape::T), Ok(()));
    assert_eq!(game.handle_user_input_with(GameInput::MoveDown, Shape::T), Ok(()));
    game.end_game();
    assert!(game.score() > 0);
    assert!(!full_cells(&game).is_empty());
    game.reset();
    assert_eq!(game.score(), 0);
    assert!(game.is_over());
    assert_eq!(game.serialize(), vec![false; 200]);
    assert_eq!(cells_with(&game, Cell::Empty).len(), 200);
}

#[test]
fn bounds_contain_the_board_only() {
    let game = board();
    assert!(game.bounds_contain(V2::new(0, 0)));
    assert!(game.bounds_contain(V2::new(9, 19)));
    assert!(!game.bounds_contain(V2::new(-1, 0)));
    assert!(!game.bounds_contain(V2::new(0, -1)));
    assert!(!game.bounds_contain(V2::new(10, 0)));
    assert!(!game.bounds_contain(V2::new(0, 20)));
}

#[test]
fn set_at_writes_one_cell_in_row_major_order() {
    let mut game = board();
    game.set_at(V2::new(3, 2), Cell::Full(Shape::S));
    assert_eq!(*game.at(V2::new(3, 2)), Cell::Full(Shape::S));
    let flags = game.serialize();
    for (i, full) in flags.iter().enumerate() {
        assert_eq!(*full, i == 3 + 2 * 10);
    }
}

#[test]
fn fill_remove_and_insert_piece() {
    let mut game = board();
    game.fill_piece_cells_with(FALLER, Cell::Full(Shape::Z));
    assert_eq!(cells_with(&game, Cell::Full(Shape::Z)), vec![(4, 0), (5, 0), (6, 0), (7, 0)]);
    game.remove_piece(FALLER);
    assert_eq!(cells_with(&game, Cell::Empty).len(), 200);
    game.insert_piece(FALLER);
    assert_eq!(cells_with(&game, Cell::Full(Shape::I)), vec![(4, 0), (5, 0), (6, 0), (7, 0)]);
    game.remove_piece(FALLER);
    game.insert_piece(GHOST);
    assert_eq!(cells_with(&game, Cell::Shadow(Shape::I)), vec![(4, 0), (5, 0), (6, 0), (7, 0)]);
}

#[test]
fn spawn_places_piece_and_preview() {
    let mut game = board();
    assert_eq!(game.spawn_piece(FALLER, Shape::T), Ok(()));
    assert_eq!(game.faller().pos, V2::new(5, 0));
    assert_eq!(cells_of(game.faller()), vec![(4, 0), (5, 0), (6, 0), (5, 1)]);
    assert_eq!(game.ghost().pos, V2::new(5, 18));
    assert_eq!(cells_of(game.ghost()), vec![(4, 18), (5, 18), (6, 18), (5, 19)]);
    assert_eq!(full_cells(&game), vec![(4, 0), (5, 0), (6, 0), (5, 1)]);
    assert_eq!(cells_with(&game, Cell::Shadow(Shape::T)), vec![(4, 18), (5, 18), (6, 18), (5, 19)]);
    assert_eq!(game.score(), 0);
}

#[test]
fn t_piece_falls_locks_and_scores() {
    let mut game = board();
    assert_eq!(game.spawn_piece(FALLER, Shape::T), Ok(()));
    let mut steps = 0;
    loop {
        let before = game.faller().pos;
        assert_eq!(game.handle_user_input_with(GameInput::MoveDown, Shape::O), Ok(()));
        if game.faller().pos == before {
            assert!(!game.display_changed());
            break;
        }
        assert!(game.display_changed());
        steps += 1;
        assert_eq!(game.score(), steps);
    }
    assert_eq!(steps, 18);
    assert_eq!(game.score(), 18);
    let last = cells_of(game.faller());
    assert_eq!(last, vec![(4, 18), (5, 18), (6, 18), (5, 19)]);
    assert_eq!(game.apply_gravity_with(Shape::O), Ok(()));
    assert_eq!(game.score(), 18);
    assert_eq!(cells_with(&game, Cell::Full(Shape::T)), last);
    assert_eq!(cells_of(game.faller()), vec![(5, 0), (6, 0), (5, 1), (6, 1)]);
    assert_eq!(cells_with(&game, Cell::Full(Shape::O)), vec![(5, 0), (6, 0), (5, 1), (6, 1)]);
    assert_eq!(cells_with(&game, Cell::Shadow(Shape::O)), vec![(5, 16), (6, 16), (5, 17), (6, 17)]);
    assert_eq!(cells_with(&game, Cell::Empty).len(), 200 - 12);
}

#[test]
fn filling_the_gap_clears_the_row_for_a_hundred() {
    let mut game = board();
    fill_row_but(&mut game, 19, 9);
    bar_in_last_column(&mut game);
    assert_eq!(game.score(), 0);
    assert_eq!(fall_until_locked(&mut game, Shape::T), 16);
    assert_eq!(game.score(), 100);
    assert_eq!(cells_with(&game, Cell::Full(Shape::L)), vec![]);
    assert_eq!(cells_with(&game, Cell::Full(Shape::I)), vec![(9, 17), (9, 18), (9, 19)]);
    assert_eq!(cells_of(game.faller()), vec![(4, 0), (5, 0), (6, 0), (5, 1)]);
}

#[test]
fn four_rows_at_once_pay_eight_hundred() {
    let mut game = board();
    for y in 16..20 {
        fill_row_but(&mut game, y, 9);
    }
    bar_in_last_column(&mut game);
    fall_until_locked(&mut game, Shape::T);
    assert_eq!(game.score(), 800);
    assert_eq!(full_cells(&game), vec![(4, 0), (5, 0), (6, 0), (5, 1)]);
}

#[test]
fn two_and_three_rows_pay_by_the_row() {
    for (rows, points) in [(2, 200), (3, 300)] {
        let mut game = board();
        for y in (20 - rows)..20 {
            fill_row_but(&mut game, y, 9);
        }
        bar_in_last_column(&mut game);
        fall_until_locked(&mut game, Shape::T);
        assert_eq!(game.score(), points);
        let left = 4 - rows as usize;
        assert_eq!(cells_with(&game, Cell::Full(Shape::I)).len(), left);
    }
}

#[test]
fn clear_score_table() {
    let game = board();
    assert_eq!(game.calc_clear_rows_score(0), 0);
    assert_eq!(game.calc_clear_rows_score(1), 100);
    assert_eq!(game.calc_clear_rows_score(2), 200);
    assert_eq!(game.calc_clear_rows_score(3), 300);
    assert_eq!(game.calc_clear_rows_score(4), 800);
}

#[test]
fn check_row_wants_every_cell_full() {
    let mut game = board();
    fill_row_but(&mut game, 7, 3);
    assert!(!game.check_row(7));
    game.set_at(V2::new(3, 7), Cell::Shadow(Shape::I));
    assert!(!game.check_row(7));
    game.set_at(V2::new(3, 7), Cell::Full(Shape::I));
    assert!(game.check_row(7));
    assert!(!game.check_row(6));
    assert!(!game.check_row(8));
}

#[test]
fn clearing_a_row_shifts_the_rows_above_by_one() {
    let mut game = board();
    fill_row_but(&mut game, 10, -1);
    game.set_at(V2::new(0, 0), Cell::Full(Shape::S));
    game.set_at(V2::new(2, 9), Cell::Full(Shape::T));
    game.set_at(V2::new(7, 5), Cell::Shadow(Shape::J));
    game.set_at(V2::new(4, 11), Cell::Full(Shape::Z));
    game.set_at(V2::new(9, 19), Cell::Full(Shape::O));
    assert!(game.check_row(10));
    game.clear_rows(10, 1);
    for x in 0..10 {
        assert_eq!(*game.at(V2::new(x, 0)), Cell::Empty);
    }
    assert_eq!(cells_with(&game, Cell::Full(Shape::S)), vec![(0, 1)]);
    assert_eq!(cells_with(&game, Cell::Full(Shape::T)), vec![(2, 10)]);
    assert_eq!(cells_with(&game, Cell::Shadow(Shape::J)), vec![(7, 6)]);
    assert_eq!(cells_with(&game, Cell::Full(Shape::Z)), vec![(4, 11)]);
    assert_eq!(cells_with(&game, Cell::Full(Shape::O)), vec![(9, 19)]);
    assert_eq!(cells_with(&game, Cell::Full(Shape::L)), vec![]);
    assert_eq!(cells_with(&game, Cell::Empty).len(), 195);
}

#[test]
fn clearing_two_rows_shifts_by_two() {
    let mut game = board();
    game.set_at(V2::new(1, 3), Cell::Full(Shape::S));
    game.set_at(V2::new(5, 8), Cell::Full(Shape::T));
    game.set_at(V2::new(5, 9), Cell::Full(Shape::T));
    game.set_at(V2::new(6, 10), Cell::Full(Shape::Z));
    game.clear_rows(8, 2);
    assert_eq!(full_cells(&game), vec![(1, 5), (6, 10)]);
}

#[test]
fn rows_are_looked_at_once_and_in_order() {
    let mut game = board();
    fill_row_but(&mut game, 19, -1);
    fill_row_but(&mut game, 18, -1);
    game.set_at(V2::new(3, 17), Cell::Full(Shape::S));
    let points = [V2::new(0, 18), V2::new(5, 18), V2::new(2, 19), V2::new(9, 19)];
    game.clear_rows_and_update_score(&points);
    assert_eq!(game.score(), 200);
    assert_eq!(full_cells(&game), vec![(3, 19)]);
}

#[test]
fn a_lower_row_first_lets_the_upper_full_row_slip() {
    let mut game = board();
    fill_row_but(&mut game, 19, -1);
    fill_row_but(&mut game, 18, -1);
    let points = [V2::new(0, 19), V2::new(0, 18), V2::new(1, 18), V2::new(1, 19)];
    game.clear_rows_and_update_score(&points);
    assert_eq!(game.score(), 100);
    assert!(game.check_row(19));
    assert!(!game.check_row(18));
}

#[test]
fn occupied_spawn_cell_ends_the_game_and_places_nothing() {
    let mut game = board();
    game.set_at(V2::new(5, 1), Cell::Full(Shape::Z));
    game.set_at(V2::new(2, 19), Cell::Full(Shape::Z));
    let grid = game.serialize();
    let faller = *game.faller();
    let ghost = *game.ghost();
    assert_eq!(game.spawn_piece(FALLER, Shape::T), Err(SpawningError::GameOver));
    assert_eq!(game.serialize(), grid);
    assert_eq!(cells_with(&game, Cell::Full(Shape::Z)), vec![(5, 1), (2, 19)]);
    assert_eq!(cells_with(&game, Cell::Empty).len(), 198);
    assert_eq!(*game.faller(), faller);
    assert_eq!(*game.ghost(), ghost);
    assert_eq!(game.score(), 0);
    assert_eq!(game.spawn_piece(FALLER, Shape::I), Ok(()));
}

#[test]
fn preview_cells_do_not_block_a_spawn() {
    let mut game = board();
    game.set_at(V2::new(5, 0), Cell::Shadow(Shape::Z));
    assert_eq!(game.spawn_piece(FALLER, Shape::T), Ok(()));
    assert_eq!(*game.at(V2::new(5, 0)), Cell::Full(Shape::T));
}

#[test]
fn a_rejected_move_changes_nothing() {
    let mut game = board();
    assert_eq!(game.spawn_piece(FALLER, Shape::T), Ok(()));
    for _ in 0..4 {
        assert!(game.try_move_piece_and_update(FALLER, Direction::Left));
    }
    assert_eq!(cells_of(game.faller()), vec![(0, 0), (1, 0), (2, 0), (1, 1)]);
    let grid: Vec<Cell> =
        (0..200).map(|i| *game.at(V2::new(i % 10, i / 10))).collect();
    let faller = *game.faller();
    let ghost = *game.ghost();
    let score = game.score();
    assert!(!game.try_move_piece_and_update(FALLER, Direction::Left));
    assert!(!game.try_move_piece_and_update(FALLER, Direction::Up));
    let mut piece = faller;
    assert!(!game.try_move_piece(&mut piece, Direction::Left));
    assert_eq!(piece, faller);
    let after: Vec<Cell> = (0..200).map(|i| *game.at(V2::new(i % 10, i / 10))).collect();
    assert_eq!(after, grid);
    assert_eq!(*game.faller(), faller);
    assert_eq!(*game.ghost(), ghost);
    assert_eq!(game.score(), score);
}

#[test]
fn an_occupied_cell_blocks_a_move() {
    let mut game = board();
    assert_eq!(game.spawn_piece(FALLER, Shape::T), Ok(()));
    game.set_at(V2::new(7, 0), Cell::Full(Shape::Z));
    assert!(!game.try_move_piece_and_update(FALLER, Direction::Right));
    game.set_at(V2::new(7, 0), Cell::Shadow(Shape::Z));
    assert!(game.try_move_piece_and_update(FALLER, Direction::Right));
    assert_eq!(cells_of(game.faller()), vec![(5, 0), (6, 0), (7, 0), (6, 1)]);
}

#[test]
fn try_move_piece_moves_the_copy_only() {
    let mut game = board();
    assert_eq!(game.spawn_piece(FALLER, Shape::O), Ok(()));
    let mut piece = *game.faller();
    assert!(game.try_move_piece(&mut piece, Direction::Down));
    assert_eq!(cells_of(&piece), vec![(5, 1), (6, 1), (5, 2), (6, 2)]);
    assert_eq!(piece.pos, V2::new(5, 1));
    assert_eq!(cells_of(game.faller()), vec![(5, 0), (6, 0), (5, 1), (6, 1)]);
}

#[test]
fn sideways_moves_refresh_the_preview() {
    let mut game = board();
    assert_eq!(game.spawn_piece(FALLER, Shape::O), Ok(()));
    assert!(game.try_move_piece_and_update(FALLER, Direction::Left));
    assert_eq!(cells_of(game.ghost()), vec![(4, 18), (5, 18), (4, 19), (5, 19)]);
    assert_eq!(cells_with(&game, Cell::Shadow(Shape::O)), vec![(4, 18), (5, 18), (4, 19), (5, 19)]);
    assert!(game.try_move_piece_and_update(FALLER, Direction::Down));
    assert_eq!(cells_of(game.ghost()), vec![(4, 18), (5, 18), (4, 19), (5, 19)]);
    assert_eq!(full_cells(&game), vec![(4, 1), (5, 1), (4, 2), (5, 2)]);
}

#[test]
fn preview_lands_below_the_faller() {
    let mut game = board();
    assert_eq!(game.spawn_piece(FALLER, Shape::L), Ok(()));
    loop {
        game.update_ghost(true);
        let mut probe = *game.faller();
        let can_fall = game.try_move_piece(&mut probe, Direction::Down);
        assert_eq!(game.ghost().pos.x, game.faller().pos.x);
        assert!(game.ghost().pos.y >= game.faller().pos.y);
        assert_eq!(game.ghost().pos.y > game.faller().pos.y, can_fall);
        if !game.try_move_piece_and_update(FALLER, Direction::Down) {
            break;
        }
    }
    assert_eq!(game.ghost().pos, game.faller().pos);
    assert_eq!(cells_with(&game, Cell::Shadow(Shape::L)), vec![]);
}

#[test]
fn preview_leaves_the_cells_of_the_faller_alone() {
    let mut game = board();
    assert_eq!(game.spawn_piece(FALLER, Shape::T), Ok(()));
    game.set_at(V2::new(5, 3), Cell::Full(Shape::Z));
    game.update_ghost(true);
    assert_eq!(game.ghost().pos, V2::new(5, 1));
    assert_eq!(cells_with(&game, Cell::Full(Shape::T)), vec![(4, 0), (5, 0), (6, 0), (5, 1)]);
    assert_eq!(cells_with(&game, Cell::Shadow(Shape::T)), vec![(4, 1), (6, 1), (5, 2)]);
}

#[test]
fn throw_counts_the_steps() {
    let mut game = board();
    assert_eq!(game.spawn_piece(FALLER, Shape::T), Ok(()));
    game.remove_piece(FALLER);
    assert_eq!(game.throw_piece(FALLER, Direction::Down), 18);
    assert_eq!(game.faller().pos, V2::new(5, 18));
    assert_eq!(game.throw_piece(FALLER, Direction::Down), 0);
    assert_eq!(game.throw_piece(FALLER, Direction::Left), 4);
    assert_eq!(game.throw_piece(FALLER, Direction::Right), 7);
    assert_eq!(game.throw_piece(FALLER, Direction::Up), 18);
    assert_eq!(game.faller().pos, V2::new(8, 0));
}

#[test]
fn bar_at_the_left_wall_is_pushed_back_inside() {
    let mut game = board();
    assert_eq!(game.spawn_piece(FALLER, Shape::I), Ok(()));
    assert!(game.spin(false));
    assert_eq!(game.faller().pos, V2::new(5, 1));
    assert_eq!(cells_of(game.faller()), vec![(5, 0), (5, 1), (5, 2), (5, 3)]);
    for _ in 0..5 {
        assert!(game.try_move_piece_and_update(FALLER, Direction::Left));
    }
    assert!(!game.try_move_piece_and_update(FALLER, Direction::Left));
    assert_eq!(cells_of(game.faller()), vec![(0, 0), (0, 1), (0, 2), (0, 3)]);
    assert!(game.spin(false));
    assert_eq!(game.faller().data.state, 2);
    assert_eq!(game.faller().pos, V2::new(1, 1));
    assert_eq!(cells_of(game.faller()), vec![(0, 2), (1, 2), (2, 2), (3, 2)]);
    for p in game.faller().points {
        assert!(0 <= p.x && p.x < 10);
    }
    assert_eq!(full_cells(&game), vec![(0, 2), (1, 2), (2, 2), (3, 2)]);
}

#[test]
fn two_cells_outside_push_twice() {
    let mut game = board();
    assert_eq!(game.spawn_piece(FALLER, Shape::I), Ok(()));
    assert!(game.spin(true));
    assert_eq!(game.faller().data.state, 3);
    assert_eq!(cells_of(game.faller()), vec![(6, 0), (6, 1), (6, 2), (6, 3)]);
    for _ in 0..6 {
        assert!(game.try_move_piece_and_update(FALLER, Direction::Left));
    }
    assert_eq!(game.faller().pos, V2::new(-1, 1));
    assert!(game.spin(false));
    assert_eq!(game.faller().data.state, 0);
    assert_eq!(game.faller().pos, V2::new(1, 1));
    assert_eq!(cells_of(game.faller()), vec![(0, 1), (1, 1), (2, 1), (3, 1)]);
}

#[test]
fn the_sum_of_the_pushes_is_not_cut_off() {
    let mut game = board();
    assert_eq!(game.spawn_piece(FALLER, Shape::J), Ok(()));
    assert!(game.spin(false));
    assert_eq!(game.faller().data.state, 1);
    while game.try_move_piece_and_update(FALLER, Direction::Left) {}
    assert_eq!(game.faller().pos.x, 0);
    assert!(game.spin(false));
    assert_eq!(game.faller().data.state, 2);
    assert_eq!(game.faller().pos.x, 2);
    let xs: Vec<i32> = game.faller().points.iter().map(|p| p.x).collect();
    assert_eq!(xs, vec![1, 1, 2, 3]);
}

#[test]
fn the_square_never_turns() {
    let mut game = board();
    assert_eq!(game.spawn_piece(FALLER, Shape::O), Ok(()));
    let faller = *game.faller();
    assert!(!game.spin(true));
    assert!(!game.spin(false));
    assert_eq!(*game.faller(), faller);
    assert_eq!(game.handle_user_input_with(GameInput::SpinLeft, Shape::T), Ok(()));
    assert!(!game.display_changed());
}

#[test]
fn a_turn_onto_occupied_cells_is_rejected() {
    let mut game = board();
    assert_eq!(game.spawn_piece(FALLER, Shape::T), Ok(()));
    assert!(game.try_move_piece_and_update(FALLER, Direction::Down));
    game.set_at(V2::new(5, 0), Cell::Full(Shape::Z));
    let faller = *game.faller();
    let grid = game.serialize();
    assert!(!game.spin(false));
    assert_eq!(*game.faller(), faller);
    assert_eq!(game.serialize(), grid);
    game.set_at(V2::new(5, 0), Cell::Empty);
    assert!(game.spin(false));
    assert_eq!(cells_of(game.faller()), vec![(5, 0), (5, 1), (6, 1), (5, 2)]);
}

#[test]
fn wedged_t_earns_the_bonus() {
    let mut game = board();
    assert_eq!(game.spawn_piece(FALLER, Shape::T), Ok(()));
    assert!(game.try_move_piece_and_update(FALLER, Direction::Down));
    assert_eq!(game.faller().pos, V2::new(5, 1));
    game.set_at(V2::new(4, 0), Cell::Full(Shape::Z));
    game.set_at(V2::new(6, 0), Cell::Full(Shape::Z));
    game.check_t_spin();
    assert_eq!(game.score(), 0);
    game.set_at(V2::new(4, 2), Cell::Full(Shape::Z));
    game.check_t_spin();
    assert_eq!(game.score(), 400);
    game.set_at(V2::new(6, 2), Cell::Full(Shape::Z));
    game.check_t_spin();
    assert_eq!(game.score(), 800);
}

#[test]
fn wedged_t_is_paid_when_it_is_locked() {
    let mut game = board();
    assert_eq!(game.spawn_piece(FALLER, Shape::T), Ok(()));
    assert_eq!(fall_until_landed(&mut game), 18);
    assert_eq!(game.faller().pos, V2::new(5, 18));
    for (x, y) in [(4, 17), (6, 17), (6, 19)] {
        game.set_at(V2::new(x, y), Cell::Full(Shape::Z));
    }
    assert_eq!(game.score(), 0);
    assert_eq!(game.apply_gravity_with(Shape::O), Ok(()));
    assert_eq!(game.score(), 400);
    assert_eq!(game.faller().cell_value, Cell::Full(Shape::O));
}

#[test]
fn wedged_t_that_fills_a_row_is_paid_for_both() {
    let mut game = board();
    fill_row_but(&mut game, 19, 5);
    assert_eq!(game.spawn_piece(FALLER, Shape::T), Ok(()));
    assert_eq!(fall_until_landed(&mut game), 18);
    game.set_at(V2::new(4, 17), Cell::Full(Shape::Z));
    assert_eq!(game.apply_gravity_with(Shape::O), Ok(()));
    assert_eq!(game.score(), 500);
    assert_eq!(cells_with(&game, Cell::Full(Shape::T)), vec![(4, 19), (5, 19), (6, 19)]);
    assert_eq!(cells_with(&game, Cell::Full(Shape::Z)), vec![(4, 18)]);
}

#[test]
fn corners_outside_the_board_do_not_count() {
    let mut game = board();
    assert_eq!(game.spawn_piece(FALLER, Shape::T), Ok(()));
    game.set_at(V2::new(4, 1), Cell::Full(Shape::Z));
    game.set_at(V2::new(6, 1), Cell::Full(Shape::Z));
    game.check_t_spin();
    assert_eq!(game.score(), 0);
}

#[test]
fn only_a_t_earns_the_bonus() {
    let mut game = board();
    assert_eq!(game.spawn_piece(FALLER, Shape::L), Ok(()));
    assert!(game.try_move_piece_and_update(FALLER, Direction::Down));
    for (x, y) in [(4, 0), (6, 0), (6, 2)] {
        game.set_at(V2::new(x, y), Cell::Full(Shape::Z));
    }
    game.set_at(V2::new(4, 3), Cell::Full(Shape::Z));
    game.check_t_spin();
    assert_eq!(game.score(), 0);
}

#[test]
fn a_drop_pays_two_points_a_row() {
    let mut game = board();
    assert_eq!(game.spawn_piece(FALLER, Shape::T), Ok(()));
    assert_eq!(game.handle_user_input_with(GameInput::DropDown, Shape::S), Ok(()));
    assert_eq!(game.score(), 36);
    assert!(game.display_changed());
    assert_eq!(cells_with(&game, Cell::Full(Shape::T)), vec![(4, 18), (5, 18), (6, 18), (5, 19)]);
    assert_eq!(game.faller().cell_value, Cell::Full(Shape::S));
    assert_eq!(game.faller().pos, V2::new(5, 0));
}

#[test]
fn a_drop_onto_a_full_board_loses() {
    let mut game = board();
    assert_eq!(game.spawn_piece(FALLER, Shape::O), Ok(()));
    game.set_at(V2::new(5, 2), Cell::Full(Shape::Z));
    game.update_ghost(true);
    game.handle_user_input_with(GameInput::SpinLeft, Shape::T).unwrap();
    let changed = game.display_changed();
    assert_eq!(
        game.handle_user_input_with(GameInput::DropDown, Shape::T),
        Err(SpawningError::GameOver)
    );
    assert_eq!(game.display_changed(), changed);
    assert_eq!(game.score(), 0);
    assert_eq!(cells_with(&game, Cell::Full(Shape::O)), vec![(5, 0), (6, 0), (5, 1), (6, 1)]);
}

#[test]
fn gravity_moves_or_locks() {
    let mut game = board();
    assert_eq!(game.spawn_piece(FALLER, Shape::O), Ok(()));
    assert_eq!(game.apply_gravity_with(Shape::T), Ok(()));
    assert!(game.display_changed());
    assert_eq!(game.faller().pos, V2::new(5, 1));
    assert_eq!(game.score(), 0);
    game.set_at(V2::new(5, 3), Cell::Full(Shape::Z));
    assert_eq!(game.apply_gravity_with(Shape::T), Err(SpawningError::GameOver));
    assert_eq!(game.faller().pos, V2::new(5, 1));
}

#[test]
fn die_stays_in_range_and_shows_every_shape() {
    let mut seen = [false; 7];
    for _ in 0..2000 {
        assert!(roll_die() < 24);
        let shape = random_shape();
        let all = [Shape::I, Shape::O, Shape::T, Shape::L, Shape::J, Shape::S, Shape::Z];
        seen[all.iter().position(|s| *s == shape).unwrap()] = true;
    }
    assert_eq!(seen, [true; 7]);
}

#[test]
fn random_spawn_brings_a_piece() {
    let mut game = board();
    assert_eq!(game.spawn_random_piece(FALLER), Ok(()));
    assert_eq!(full_cells(&game).len(), 4);
    assert_eq!(game.faller().pos, V2::new(5, 0));
    assert_eq!(game.faller().data.state, 0);
    assert!(game.faller().cell_value.is_full());
    let mut other = board();
    assert_eq!(other.spawn_piece_and_update_ghost(), Ok(()));
    assert_eq!(full_cells(&other).len(), 4);
    assert_eq!(other.apply_gravity(), Ok(()));
    assert_eq!(other.faller().pos, V2::new(5, 1));
    assert_eq!(other.handle_user_input(GameInput::MoveDown), Ok(()));
    assert_eq!(other.faller().pos, V2::new(5, 2));
    assert_eq!(other.score(), 1);
}

#[test]
fn start_brings_the_first_piece_and_arms_the_timers() {
    let mut game = board();
    assert_eq!(game.start_with(7 * MS, Shape::T), Ok(()));
    assert!(!game.is_over());
    assert_eq!(full_cells(&game), vec![(4, 0), (5, 0), (6, 0), (5, 1)]);
    assert_eq!(cells_with(&game, Cell::Shadow(Shape::T)), vec![(4, 18), (5, 18), (6, 18), (5, 19)]);
    assert_eq!(game.time_to_sleep(0), 7 * MS);
    assert_eq!(game.time_to_sleep(7 * MS), 0);
    assert!(game.input_due(7 * MS));
    assert!(!game.input_due(7 * MS - 1));
    let mut random = board();
    assert_eq!(random.start(0), Ok(()));
    assert!(!random.is_over());
}

#[test]
fn start_on_a_taken_spawn_is_over_at_once() {
    let mut game = board();
    game.set_at(V2::new(5, 0), Cell::Full(Shape::Z));
    assert_eq!(game.start_with(0, Shape::T), Err(SpawningError::GameOver));
    assert!(game.is_over());
    assert_eq!(full_cells(&game), vec![(5, 0)]);
}

#[test]
fn each_timer_moves_on_by_its_own_interval() {
    let mut game = board();
    let t0 = 1000 * MS;
    assert_eq!(game.start_with(t0, Shape::O), Ok(()));
    assert_eq!(game.advance_with(t0, 0, Shape::T, Shape::T), Turn::Continue { redraw: true });
    assert_eq!(game.faller().pos, V2::new(5, 1));
    assert_eq!(game.score(), 0);
    assert!(!game.display_changed());
    assert_eq!(game.time_to_sleep(t0), 5 * MS);
    assert!(!game.input_due(t0 + 5 * MS - 1));
    assert!(game.input_due(t0 + 5 * MS));

    let t1 = t0 + 5 * MS;
    assert_eq!(game.advance_with(t1, b's', Shape::T, Shape::T), Turn::Continue { redraw: false });
    assert_eq!(game.faller().pos, V2::new(5, 2));
    assert_eq!(game.score(), 1);
    assert!(game.display_changed());
    assert_eq!(game.time_to_sleep(t1), 5 * MS);

    let t2 = t0 + 41 * MS;
    assert_eq!(game.advance_with(t2, 0, Shape::T, Shape::T), Turn::Continue { redraw: true });
    assert!(!game.display_changed());
    assert!(game.input_due(t0 + 15 * MS));
    assert!(!game.input_due(t0 + 15 * MS - 1));
    assert_eq!(game.time_to_sleep(t0 + 15 * MS), 0);
    assert_eq!(game.time_to_sleep(t0 + 14 * MS), MS);

    let t3 = t1 + 1000 * MS - 1;
    assert_eq!(game.advance_with(t3, 0, Shape::T, Shape::T), Turn::Continue { redraw: false });
    assert_eq!(game.faller().pos, V2::new(5, 2));
    let t4 = t1 + 1000 * MS;
    assert_eq!(game.advance_with(t4, 0, Shape::T, Shape::T), Turn::Continue { redraw: true });
    assert_eq!(game.faller().pos, V2::new(5, 3));
}

#[test]
fn a_key_is_acted_on_only_when_the_input_is_due() {
    let mut game = board();
    assert_eq!(game.start_with(0, Shape::O), Ok(()));
    assert_eq!(game.advance_with(0, b'a', Shape::T, Shape::T), Turn::Continue { redraw: true });
    assert_eq!(game.faller().pos, V2::new(4, 1));
    assert_eq!(game.advance_with(MS, b'a', Shape::T, Shape::T), Turn::Continue { redraw: false });
    assert_eq!(game.faller().pos, V2::new(4, 1));
    assert_eq!(game.advance_with(5 * MS, b'A', Shape::T, Shape::T), Turn::Continue { redraw: false });
    assert_eq!(game.faller().pos, V2::new(3, 1));
    assert!(game.display_changed());
}

#[test]
fn quitting_ends_the_game_without_a_loss() {
    let mut game = board();
    assert_eq!(game.start_with(0, Shape::O), Ok(()));
    assert_eq!(game.advance_with(0, b'x', Shape::T, Shape::T), Turn::Continue { redraw: true });
    assert!(game.is_over());
    assert_eq!(game.faller().pos, V2::new(5, 1));
}

#[test]
fn a_lost_turn_ends_at_once() {
    let mut game = board();
    assert_eq!(game.start_with(0, Shape::O), Ok(()));
    game.set_at(V2::new(5, 2), Cell::Full(Shape::Z));
    game.update_ghost(true);
    assert_eq!(game.advance_with(0, b' ', Shape::T, Shape::T), Turn::Lost);
    assert!(game.is_over());
    assert_eq!(game.faller().pos, V2::new(5, 0));
    assert!(game.input_due(0));
}

#[test]
fn gravity_that_cannot_bring_a_piece_loses() {
    let mut game = board();
    assert_eq!(game.start_with(0, Shape::O), Ok(()));
    game.set_at(V2::new(5, 2), Cell::Full(Shape::Z));
    assert_eq!(game.advance_with(0, 0, Shape::T, Shape::T), Turn::Lost);
    assert!(game.is_over());
    assert!(!game.input_due(5 * MS - 1));
    assert!(game.input_due(5 * MS));
}

#[test]
fn random_turn_goes_on() {
    let mut game = board();
    assert_eq!(game.start(0), Ok(()));
    assert_eq!(game.advance(0, b'd'), Turn::Continue { redraw: true });
    assert_eq!(game.faller().pos, V2::new(6, 1));
}

#[test]
fn piece_constructors_and_copies() {
    let piece = Piece::new(V2::new(5, 0), Cell::Full(Shape::T));
    assert_eq!(piece.pos, V2::new(5, 0));
    assert_eq!(cells_of(&piece), vec![(4, 0), (5, 0), (6, 0), (5, 1)]);
    assert_eq!(piece.data.state, 0);
    assert_eq!(piece.cell_value, Cell::Full(Shape::T));
    let ghost = piece.clone_as_ghost();
    assert_eq!(ghost.cell_value, Cell::Shadow(Shape::T));
    assert_eq!(ghost.points, piece.points);
    assert_eq!(ghost.clone_as_full(), piece);
    let moved = piece.translated(V2::new(-2, 3));
    assert_eq!(moved.pos, V2::new(3, 3));
    assert_eq!(cells_of(&moved), vec![(2, 3), (3, 3), (4, 3), (3, 4)]);
    let mut other = piece;
    other.translate(V2::new(-2, 3));
    assert_eq!(other, moved);
    let right = piece.rotated_right();
    assert_eq!(right.pos, piece.pos);
    assert_eq!(right.data.state, 1);
    assert_eq!(cells_of(&right), vec![(5, -1), (5, 0), (6, 0), (5, 1)]);
    let left = piece.rotated_left();
    assert_eq!(left.data.state, 3);
    assert_eq!(cells_of(&left), vec![(5, -1), (4, 0), (5, 0), (5, 1)]);
    assert_eq!(left.rotated_right(), piece);
    let square = Piece::new(V2::new(0, 0), Cell::Shadow(Shape::O));
    assert_eq!(square.rotated_left(), square);
    let idle = Piece::default();
    assert_eq!(idle.pos, V2::new(0, 0));
    assert_eq!(idle.points, [V2::new(0, 0); 4]);
    assert_eq!(idle.cell_value, Cell::Shadow(Shape::I));
}

#[test]
fn preview_stays_below_the_faller_through_a_game() {
    let keys = b"adsqwaasddwsqqaadsw s dda qqs wwa ";
    let shapes = [Shape::I, Shape::O, Shape::T, Shape::L, Shape::J, Shape::S, Shape::Z];
    let mut game = board();
    assert_eq!(game.start_with(0, Shape::T), Ok(()));
    let mut now = 0;
    let mut turns = 0usize;
    while !game.is_over() && turns < 20_000 {
        let key = if game.input_due(now) { keys[turns % keys.len()] } else { 0 };
        let first = shapes[turns % 7];
        let second = shapes[(turns / 7) % 7];
        assert!(game.can_advance(now));
        let turn = game.advance_with(now, key, first, second);
        assert_eq!(game.ghost().pos.x, game.faller().pos.x);
        assert!(game.ghost().pos.y >= game.faller().pos.y);
        assert_eq!(game.ghost().data.state, game.faller().data.state);
        let mut probe = *game.faller();
        let can_fall = game.try_move_piece(&mut probe, Direction::Down);
        assert_eq!(game.ghost().pos.y > game.faller().pos.y, can_fall);
        if turn == Turn::Lost {
            assert!(game.is_over());
            break;
        }
        for p in game.faller().points {
            assert_eq!(*game.at(p), game.faller().cell_value);
        }
        now += game.time_to_sleep(now).max(1);
        turns += 1;
    }
    assert!(turns > 1000 || game.is_over());
    assert!(game.score() > 0);
}

#[test]
fn guards_say_when_a_counter_would_run_out() {
    let game = board();
    assert!(game.can_start(0));
    assert!(game.can_start(u64::MAX - 2_000_000_000));
    assert!(!game.can_start(u64::MAX - 1_999_999_999));
    assert!(game.can_advance(0));
    assert!(game.can_advance(u64::MAX - 2_000_000_000));
    assert!(!game.can_advance(u64::MAX - 1_999_999_999));
}

#[test]
fn a_board_of_any_size_can_be_built() {
    for (width, height) in [(1, 1), (1, 7), (4, 3), (3, 20), (5, 4), (10, 20)] {
        let mut game = Tetris::new(width, height);
        assert_eq!(game.width(), width);
        assert_eq!(game.height(), height);
        assert_eq!(game.score(), 0);
        assert!(game.is_over());
        assert_eq!(game.serialize(), vec![false; width * height]);
        assert_eq!(game.is_playable(), width >= 5 && height >= 4);
        let last = V2::new(width as i32 - 1, height as i32 - 1);
        assert!(game.bounds_contain(last));
        assert!(!game.bounds_contain(V2::new(width as i32, 0)));
        game.set_at(last, Cell::Full(Shape::S));
        assert_eq!(*game.at(last), Cell::Full(Shape::S));
        assert_eq!(game.check_row(height - 1), width == 1);
        game.clear_rows(height - 1, 1);
        assert_eq!(game.serialize(), vec![false; width * height]);
        game.set_at(last, Cell::Full(Shape::S));
        game.reset();
        assert_eq!(game.serialize(), vec![false; width * height]);
        assert!(game.is_over());
    }
}

#[test]
fn a_piece_off_the_board_makes_it_unplayable() {
    let game = Tetris::new(5, 4);
    assert!(game.is_playable());
    assert!(!Tetris::new(4, 4).is_playable());
    assert!(!Tetris::new(5, 3).is_playable());
}

#[test]
fn each_full_row_taken_out_frees_a_row_of_cells() {
    let mut game = board();
    fill_row_but(&mut game, 19, -1);
    fill_row_but(&mut game, 18, 4);
    fill_row_but(&mut game, 17, -1);
    game.set_at(V2::new(2, 3), Cell::Full(Shape::S));
    let before = full_cells(&game).len();
    assert_eq!(before, 30);
    let points = [V2::new(0, 17), V2::new(1, 17), V2::new(0, 18), V2::new(0, 19)];
    game.clear_rows_and_update_score(&points);
    assert_eq!(game.score(), 200);
    assert_eq!(full_cells(&game).len(), before - 2 * 10);
    assert_eq!(game.serialize().len(), 200);
    assert!(!game.check_row(19));
    assert_eq!(full_cells(&game).len(), 10);
    assert_eq!(*game.at(V2::new(2, 5)), Cell::Full(Shape::S));
    assert_eq!(*game.at(V2::new(4, 19)), Cell::Empty);
}

#[test]
fn a_step_down_that_fails_only_takes_the_mark_off() {
    let mut game = board();
    assert_eq!(game.start_with(0, Shape::O), Ok(()));
    while game.try_move_piece_and_update(FALLER, Direction::Down) {}
    let grid = game.serialize();
    let faller = *game.faller();
    let ghost = *game.ghost();
    let sleep = game.time_to_sleep(0);
    assert_eq!(game.handle_user_input_with(GameInput::MoveDown, Shape::T), Ok(()));
    assert!(!game.display_changed());
    assert_eq!(game.score(), 0);
    assert_eq!(game.serialize(), grid);
    assert_eq!(*game.faller(), faller);
    assert_eq!(*game.ghost(), ghost);
    assert_eq!(game.time_to_sleep(0), sleep);
}
