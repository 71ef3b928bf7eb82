use tetris::cell::Cell;
use tetris::direction::Direction;
use tetris::input::{Command, GameInput};
use tetris::tetris::Tetris;
use tetris::tetromino::data::{
    Flags, MovementFlags, ShapeData, ALL, DOWN, HORIZONTAL, LEFT, RIGHT, UNMOVING, UP, VERTICAL,
};
use tetris::tetromino::offsets::Offsets;
use tetris::tetromino::{Shape, Tetromino};
use tetris::v2::V2;

const SHAPES: [Shape; 7] =
    [Shape::I, Shape::O, Shape::T, Shape::L, Shape::J, Shape::S, Shape::Z];

fn coordinates(offsets: Offsets) -> Vec<(i32, i32)> {
    offsets.0.iter().map(|v| (v.x, v.y)).collect()
}

#[test]
fn v2_new_keeps_coordinates() {
    let v = V2::new(3, -4);
    assert_eq!(v.x, 3);
    assert_eq!(v.y, -4);
    assert_eq!(V2::default(), V2::new(0, 0));
}

#[test]
fn v2_add_and_sub_work_by_component() {
    assert_eq!(V2::new(3, -4) + V2::new(-1, 10), V2::new(2, 6));
    assert_eq!(V2::new(3, -4) - V2::new(-1, 10), V2::new(4, -14));
}

#[test]
fn v2_mul_scales_both_components() {
    assert_eq!(V2::new(3, -4) * 5, V2::new(15, -20));
    assert_eq!(V2::new(3, -4) * -1, V2::new(-3, 4));
}

#[test]
fn v2_div_rounds_toward_zero() {
    assert_eq!(V2::new(7, -7) / 2, V2::new(3, -3));
    assert_eq!(V2::new(7, -7) / -2, V2::new(-3, 3));
    assert_eq!(V2::new(9, 12) / 3, V2::new(3, 4));
}

#[test]
fn direction_becomes_unit_step() {
    assert_eq!(V2::from(Direction::Up), V2::new(0, -1));
    assert_eq!(V2::from(Direction::Down), V2::new(0, 1));
    assert_eq!(V2::from(Direction::Left), V2::new(-1, 0));
    assert_eq!(V2::from(Direction::Right), V2::new(1, 0));
}

#[test]
fn direction_becomes_single_flag() {
    assert_eq!(Flags::from(Direction::Up).0, UP);
    assert_eq!(Flags::from(Direction::Down).0, DOWN);
    assert_eq!(Flags::from(Direction::Left).0, LEFT);
    assert_eq!(Flags::from(Direction::Right).0, RIGHT);
}

#[test]
fn flag_constants_have_their_bits() {
    assert_eq!(UNMOVING, 0);
    assert_eq!(DOWN, 1);
    assert_eq!(LEFT, 2);
    assert_eq!(RIGHT, 4);
    assert_eq!(UP, 8);
    assert_eq!(HORIZONTAL, LEFT | RIGHT);
    assert_eq!(VERTICAL, UP | DOWN);
    assert_eq!(ALL, 15);
}

#[test]
fn flags_collide_when_every_asked_bit_is_set() {
    let mask = Flags(LEFT | VERTICAL);
    assert!(mask.can_collide(Flags(LEFT)));
    assert!(mask.can_collide(Flags(UP)));
    assert!(mask.can_collide(Flags(DOWN)));
    assert!(mask.can_collide(Flags(VERTICAL)));
    assert!(!mask.can_collide(Flags(RIGHT)));
    assert!(!mask.can_collide(Flags(HORIZONTAL)));
    assert!(mask.can_collide(Flags(UNMOVING)));
}

#[test]
fn flags_union_holds_both() {
    let both = Flags(LEFT) | Flags(UP);
    assert_eq!(both.0, LEFT | UP);
}

#[test]
fn movement_flags_round_trip() {
    let packed = MovementFlags::new(&[LEFT | VERTICAL, UP, VERTICAL | RIGHT, HORIZONTAL | DOWN]);
    assert_eq!(packed.at(0).0, 11);
    assert_eq!(packed.at(1).0, 8);
    assert_eq!(packed.at(2).0, 13);
    assert_eq!(packed.at(3).0, 7);
    let all: Vec<u8> = packed.decompress().iter().map(|f| f.0).collect();
    assert_eq!(all, vec![11, 8, 13, 7]);
}

#[test]
fn movement_flags_keep_low_four_bits_only() {
    let packed = MovementFlags::new(&[0xF1, 0x2F, 0x30, 0xFF]);
    assert_eq!(packed.at(0).0, 1);
    assert_eq!(packed.at(1).0, 15);
    assert_eq!(packed.at(2).0, 0);
    assert_eq!(packed.at(3).0, 15);
}

#[test]
fn shape_tables_have_one_or_four_states() {
    for shape in SHAPES {
        let data = ShapeData::of(shape);
        let expected = if shape == Shape::O { 1 } else { 4 };
        assert_eq!(data.rotations.len(), expected);
        assert_eq!(data.directions.len(), expected);
    }
}

#[test]
fn bar_table_is_as_drawn() {
    let data = ShapeData::of(Shape::I);
    assert_eq!(coordinates(data.rotations[0]), vec![(-1, 0), (0, 0), (1, 0), (2, 0)]);
    assert_eq!(coordinates(data.rotations[1]), vec![(0, -1), (0, 0), (0, 1), (0, 2)]);
    assert_eq!(coordinates(data.rotations[2]), vec![(-1, 1), (0, 1), (1, 1), (2, 1)]);
    assert_eq!(coordinates(data.rotations[3]), vec![(1, -1), (1, 0), (1, 1), (1, 2)]);
}

#[test]
fn masks_mark_the_rim_of_every_layout() {
    let steps = [(UP, 0, -1), (DOWN, 0, 1), (LEFT, -1, 0), (RIGHT, 1, 0)];
    for shape in SHAPES {
        let data = ShapeData::of(shape);
        for state in 0..data.rotations.len() {
            let cells = coordinates(data.rotations[state]);
            for (i, (x, y)) in cells.iter().enumerate() {
                for (bit, dx, dy) in steps {
                    let beside = cells.contains(&(x + dx, y + dy));
                    let marked = data.directions[state].at(i).can_collide(Flags(bit));
                    assert_eq!(marked, !beside);
                }
            }
        }
    }
}

#[test]
fn current_offsets_follow_the_state() {
    let mut t = Tetromino::from(Shape::T);
    assert_eq!(t.state, 0);
    assert_eq!(coordinates(t.current_offsets()), vec![(-1, 0), (0, 0), (1, 0), (0, 1)]);
    t.rotate_right();
    assert_eq!(t.state, 1);
    assert_eq!(coordinates(t.current_offsets()), vec![(0, -1), (0, 0), (1, 0), (0, 1)]);
    t.rotate_left();
    t.rotate_left();
    assert_eq!(t.state, 3);
    assert_eq!(coordinates(t.current_offsets()), vec![(0, -1), (-1, 0), (0, 0), (0, 1)]);
}

#[test]
fn left_then_right_gives_back_the_offsets() {
    for shape in SHAPES {
        let count = ShapeData::of(shape).rotations.len();
        let mut t = Tetromino::from(shape);
        for _ in 0..count {
            let before = coordinates(t.current_offsets());
            assert_eq!(before.len(), 4);
            let state = t.state;
            t.rotate_left();
            t.rotate_right();
            assert_eq!(t.state, state);
            assert_eq!(coordinates(t.current_offsets()), before);
            t.rotate_right();
            t.rotate_left();
            assert_eq!(t.state, state);
            assert_eq!(coordinates(t.current_offsets()), before);
            t.rotate_right();
        }
    }
}

#[test]
fn a_full_turn_gives_back_the_state() {
    for shape in SHAPES {
        let count = ShapeData::of(shape).rotations.len();
        for start in 0..count {
            let mut t = Tetromino { shape, state: start as i8 };
            for _ in 0..count {
                t.rotate_left();
            }
            assert_eq!(t.state, start as i8);
            for _ in 0..count {
                t.rotate_right();
            }
            assert_eq!(t.state, start as i8);
        }
    }
}

#[test]
fn the_square_stays_in_its_only_state() {
    let mut t = Tetromino::from(Shape::O);
    t.rotate_left();
    assert_eq!(t.state, 0);
    t.rotate_right();
    assert_eq!(t.state, 0);
    assert_eq!(coordinates(t.current_offsets()), vec![(0, 0), (1, 0), (0, 1), (1, 1)]);
}

#[test]
fn tetromino_equality_looks_at_the_state() {
    let a = Tetromino { shape: Shape::T, state: 2 };
    let b = Tetromino { shape: Shape::L, state: 2 };
    let c = Tetromino { shape: Shape::T, state: 1 };
    assert!(a == b);
    assert!(a != c);
}

#[test]
fn colliding_cells_of_the_t() {
    let t = Tetromino::from(Shape::T);
    assert_eq!(t.indexes_of_cells_colliding(Flags(DOWN)), vec![0, 2, 3]);
    assert_eq!(t.indexes_of_cells_colliding(Flags(UP)), vec![0, 1, 2]);
    assert_eq!(t.indexes_of_cells_colliding(Flags(LEFT)), vec![0, 3]);
    assert_eq!(t.indexes_of_cells_colliding(Flags(RIGHT)), vec![2, 3]);
    assert_eq!(t.indexes_of_cells_colliding(Flags(HORIZONTAL)), vec![3]);
    assert_eq!(t.indexes_of_cells_colliding(Flags(UNMOVING)), vec![0, 1, 2, 3]);
    assert_eq!(t.indexes_of_cells_colliding(Flags(ALL)), Vec::<usize>::new());
}

#[test]
fn current_directions_of_the_square() {
    let t = Tetromino::from(Shape::O);
    let masks: Vec<u8> = t.current_directions().decompress().iter().map(|f| f.0).collect();
    assert_eq!(masks, vec![LEFT | UP, UP | RIGHT, LEFT | DOWN, DOWN | RIGHT]);
}

#[test]
fn offsets_have_four_cells() {
    let offsets = Tetromino::from(Shape::S).current_offsets();
    assert_eq!(offsets.len(), 4);
    assert_eq!(offsets.get(2), V2::new(-1, 1));
}

#[test]
fn cell_kinds() {
    let mut cell = Cell::Full(Shape::J);
    assert!(cell.is_full() && !cell.is_ghost() && !cell.is_empty());
    assert_eq!(cell.unwrap(), Shape::J);
    cell.to_ghost();
    assert_eq!(cell, Cell::Shadow(Shape::J));
    assert!(!cell.is_full() && cell.is_ghost() && !cell.is_empty());
    cell.to_full();
    assert_eq!(cell, Cell::Full(Shape::J));
    cell.empty();
    assert_eq!(cell, Cell::Empty);
    assert!(!cell.is_full() && !cell.is_ghost() && cell.is_empty());
    assert_eq!(Cell::default(), Cell::Empty);
}

#[test]
fn keys_and_what_they_stand_for() {
    for (keys, command) in [
        ("wW", Command::Play(GameInput::SpinLeft)),
        ("qQ", Command::Play(GameInput::SpinRight)),
        ("aA", Command::Play(GameInput::MoveLeft)),
        ("dD", Command::Play(GameInput::MoveRight)),
        ("sS", Command::Play(GameInput::MoveDown)),
        (" ", Command::Play(GameInput::DropDown)),
        ("xX", Command::Quit),
    ] {
        for key in keys.bytes() {
            assert_eq!(Tetris::decode_key(key), command);
        }
    }
    let known = "wWqQaAdDsS xX";
    for key in 0..=255u8 {
        if !known.bytes().any(|k| k == key) {
            assert_eq!(Tetris::decode_key(key), Command::Idle);
        }
    }
}

#[test]
fn die_has_twenty_four_weighted_faces() {
    let mut count = [0usize; 7];
    for roll in 0..24 {
        let shape = Shape::from_roll(roll);
        let i = SHAPES.iter().position(|s| *s == shape).unwrap();
        count[i] += 1;
    }
    assert_eq!(count, [1, 2, 3, 4, 4, 5, 5]);
    assert_eq!(Shape::from_roll(0), Shape::I);
    assert_eq!(Shape::from_roll(1), Shape::O);
    assert_eq!(Shape::from_roll(2), Shape::O);
    assert_eq!(Shape::from_roll(3), Shape::T);
    assert_eq!(Shape::from_roll(5), Shape::T);
    assert_eq!(Shape::from_roll(6), Shape::L);
    assert_eq!(Shape::from_roll(9), Shape::L);
    assert_eq!(Shape::from_roll(10), Shape::J);
    assert_eq!(Shape::from_roll(13), Shape::J);
    assert_eq!(Shape::from_roll(14), Shape::S);
    assert_eq!(Shape::from_roll(18), Shape::S);
    assert_eq!(Shape::from_roll(19), Shape::Z);
    assert_eq!(Shape::from_roll(23), Shape::Z);
}
