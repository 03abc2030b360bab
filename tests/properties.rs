use puzzle_cube::movement::AxisInner;
use puzzle_cube::{Axis, Cube, Cubit, Error, Layer, Mat3, Move, MoveType, Vec3};

fn offset(sides: i64) -> i64 {
    if sides % 2 == 0 {
        sides - 1
    } else {
        sides / 2
    }
}

fn on_shell(sides: i64, p: &Vec3) -> bool {
    let o = offset(sides);
    let coords = [p.x, p.y, p.z];
    let on_lattice = coords
        .iter()
        .all(|&c| -o <= c && c <= o && (sides % 2 != 0 || c % 2 != 0));
    on_lattice && coords.iter().any(|&c| c == o || c == -o)
}

fn positions(cube: &Cube) -> Vec<(i64, i64, i64)> {
    let mut v: Vec<(i64, i64, i64)> = cube
        .cubits()
        .iter()
        .map(|c| (c.position.x, c.position.y, c.position.z))
        .collect();
    v.sort();
    v
}

#[test]
fn construct_counts_shell_pieces() {
    for sides in 2..=9usize {
        let cube = Cube::with_number_sides(sides).unwrap();
        let s = sides as i64;
        let expected = s * s * s - (s - 2) * (s - 2) * (s - 2);
        assert_eq!(cube.cubits().len() as i64, expected);
        for c in cube.cubits() {
            assert!(on_shell(s, &c.position));
            assert_eq!(c.x_axis, Vec3::new(1, 0, 0));
            assert_eq!(c.y_axis, Vec3::new(0, 1, 0));
            assert_eq!(c.z_axis, Vec3::new(0, 0, 1));
        }
        let mut p = positions(&cube);
        p.dedup();
        assert_eq!(p.len() as i64, expected);
    }
}

#[test]
fn construct_rejects_too_few_sides() {
    for sides in 0..2usize {
        match Cube::with_number_sides(sides) {
            Ok(_) => panic!("a cube needs two sides"),
            Err(e) => assert_eq!(e, Error::InvalidNumberSides(sides)),
        }
    }
}

#[test]
fn construct_two_gives_the_corners() {
    let cube = Cube::with_number_sides(2).unwrap();
    let mut expected = Vec::new();
    for x in [-1, 1] {
        for y in [-1, 1] {
            for z in [-1, 1] {
                expected.push((x, y, z));
            }
        }
    }
    assert_eq!(positions(&cube), expected);
}

#[test]
fn construct_three_leaves_out_the_centre() {
    let cube = Cube::with_number_sides(3).unwrap();
    let mut expected = Vec::new();
    for x in -1..=1 {
        for y in -1..=1 {
            for z in -1..=1 {
                if (x, y, z) != (0, 0, 0) {
                    expected.push((x, y, z));
                }
            }
        }
    }
    assert_eq!(cube.cubits().len(), 26);
    assert_eq!(positions(&cube), expected);
}

fn all_moves(sides: usize) -> Vec<Move> {
    let mut moves = Vec::new();
    let turns = [MoveType::Clockwise, MoveType::CounterClockwise, MoveType::Twice];
    for t in turns {
        for l in 0..sides {
            moves.push(Move::rotate_top(Layer::Single(l), t));
            moves.push(Move::rotate_bottom(Layer::Single(l), t));
            moves.push(Move::rotate_left(Layer::Single(l), t));
            moves.push(Move::rotate_right(Layer::Single(l), t));
            moves.push(Move::rotate_front(Layer::Single(l), t));
            moves.push(Move::rotate_back(Layer::Single(l), t));
        }
        for n in 0..=sides {
            moves.push(Move::rotate_front(Layer::Multiple(n), t));
            moves.push(Move::rotate_back(Layer::Multiple(n), t));
            moves.push(Move::rotate_top(Layer::Multiple(n), t));
        }
        moves.push(Move::rotate_cube(Axis::X, t));
        moves.push(Move::rotate_cube(Axis::Y, t));
        moves.push(Move::rotate_cube(Axis::Z, t));
    }
    moves
}

fn reversed(mv: &Move) -> Move {
    Move {
        move_type: mv.move_type.opposite(),
        axis: mv.axis,
        affected_range: mv.affected_range,
    }
}

#[test]
fn move_then_reverse_restores() {
    for sides in [2usize, 3, 4, 5] {
        for mv in all_moves(sides) {
            let mut cube = Cube::with_number_sides(sides).unwrap();
            cube.rotate(&Move::rotate_front(Layer::Single(0), MoveType::Clockwise)).unwrap();
            cube.rotate(&Move::rotate_top(Layer::Single(0), MoveType::Clockwise)).unwrap();
            let before = cube.cubits().clone();
            cube.rotate(&mv).unwrap();
            cube.rotate(&reversed(&mv)).unwrap();
            assert_eq!(cube.cubits(), &before);
        }
    }
}

#[test]
fn four_quarter_turns_restore() {
    let mut cube = Cube::with_number_sides(3).unwrap();
    let before = cube.cubits().clone();
    let mv = Move::rotate_right(Layer::Single(0), MoveType::Clockwise);
    cube.rotate(&mv).unwrap();
    assert_ne!(cube.cubits(), &before);
    cube.rotate(&mv).unwrap();
    cube.rotate(&mv).unwrap();
    assert_ne!(cube.cubits(), &before);
    cube.rotate(&mv).unwrap();
    assert_eq!(cube.cubits(), &before);
}

#[test]
fn two_half_turns_restore() {
    let mut cube = Cube::with_number_sides(4).unwrap();
    let before = cube.cubits().clone();
    let mv = Move::rotate_back(Layer::Single(0), MoveType::Twice);
    cube.rotate(&mv).unwrap();
    assert_ne!(cube.cubits(), &before);
    cube.rotate(&mv).unwrap();
    assert_eq!(cube.cubits(), &before);
}

#[test]
fn bottom_clockwise_is_top_counter_clockwise() {
    for sides in [2usize, 3, 4, 5] {
        for l in 0..sides {
            let mut a = Cube::with_number_sides(sides).unwrap();
            let mut b = Cube::with_number_sides(sides).unwrap();
            a.rotate(&Move::rotate_bottom(Layer::Single(l), MoveType::Clockwise)).unwrap();
            b.rotate(&Move::rotate_top(Layer::Single(sides - 1 - l), MoveType::CounterClockwise))
                .unwrap();
            assert_eq!(a.cubits(), b.cubits());
        }
    }
}

#[test]
fn top_clockwise_on_two_moves_corner() {
    let mut cube = Cube::new2x2x2();
    let before = cube.cubits().clone();
    cube.rotate(&Move::rotate_top(Layer::Single(0), MoveType::Clockwise)).unwrap();
    let i = before.iter().position(|c| c.position == Vec3::new(1, 1, 1)).unwrap();
    assert_eq!(cube.cubits()[i].position, Vec3::new(1, -1, 1));
    assert_eq!(cube.cubits()[i].x_axis, Vec3::new(0, -1, 0));
    assert_eq!(cube.cubits()[i].y_axis, Vec3::new(1, 0, 0));
    assert_eq!(cube.cubits()[i].z_axis, Vec3::new(0, 0, 1));
    for (j, c) in before.iter().enumerate() {
        if c.position.z == -1 {
            assert_eq!(&cube.cubits()[j], c);
        }
    }
}

#[test]
fn layer_out_of_range_is_refused() {
    let mut cube = Cube::new3x3x3();
    let before = cube.cubits().clone();
    let r = cube.rotate(&Move::rotate_top(Layer::Single(3), MoveType::Clockwise));
    assert_eq!(r, Err(Error::InvalidMoveLayer));
    assert_eq!(cube.cubits(), &before);
    let r = cube.rotate(&Move::rotate_left(Layer::Multiple(4), MoveType::Twice));
    assert_eq!(r, Err(Error::InvalidMoveLayer));
    assert_eq!(cube.cubits(), &before);
    assert_eq!(cube.rotate(&Move::rotate_top(Layer::Single(2), MoveType::Clockwise)), Ok(()));
    assert_eq!(cube.rotate(&Move::rotate_left(Layer::Multiple(3), MoveType::Twice)), Ok(()));
}

#[test]
fn middle_layer_moves_only_middle() {
    let mut cube = Cube::new3x3x3();
    let before = cube.cubits().clone();
    cube.rotate(&Move::rotate_front(Layer::Single(1), MoveType::Clockwise)).unwrap();
    for (j, c) in before.iter().enumerate() {
        let after = cube.cubits()[j];
        if c.position.x == 0 {
            let p = c.position;
            assert_eq!(after.position, Vec3::new(0, p.z, -p.y));
        } else {
            assert_eq!(&after, c);
        }
    }
}

#[test]
fn multiple_layers_from_the_back() {
    let mut cube = Cube::with_number_sides(4).unwrap();
    let before = cube.cubits().clone();
    cube.rotate(&Move::rotate_back(Layer::Multiple(2), MoveType::Clockwise)).unwrap();
    for (j, c) in before.iter().enumerate() {
        let after = cube.cubits()[j];
        let p = c.position;
        if p.x <= -1 {
            assert_eq!(after.position, Vec3::new(p.x, -p.z, p.y));
        } else {
            assert_eq!(&after, c);
        }
    }
}

#[test]
fn whole_cube_turn_moves_everything() {
    let mut cube = Cube::with_number_sides(3).unwrap();
    let before = cube.cubits().clone();
    cube.rotate(&Move::rotate_cube(Axis::Y, MoveType::Clockwise)).unwrap();
    for (j, c) in before.iter().enumerate() {
        let p = c.position;
        assert_eq!(cube.cubits()[j].position, Vec3::new(-p.z, p.y, p.x));
    }
}

#[test]
fn construction_is_reproducible() {
    for sides in [2usize, 3, 6, 7] {
        let a = Cube::with_number_sides(sides).unwrap();
        let b = Cube::with_number_sides(sides).unwrap();
        assert_eq!(a.sides(), b.sides());
        assert_eq!(a.cubits(), b.cubits());
    }
}

#[test]
fn negative_axis_does_not_narrow() {
    assert_eq!(Axis::try_from(AxisInner::NegX), Err(Error::AxisConvert));
    assert_eq!(Axis::try_from(AxisInner::NegZ), Err(Error::AxisConvert));
    assert_eq!(Axis::try_from(AxisInner::Y), Ok(Axis::Y));
}

#[test]
fn opposite_turns() {
    assert_eq!(MoveType::Clockwise.opposite(), MoveType::CounterClockwise);
    assert_eq!(MoveType::CounterClockwise.opposite(), MoveType::Clockwise);
    assert_eq!(MoveType::Twice.opposite(), MoveType::Twice);
}

#[test]
fn normalisation_inverts_negative_faces() {
    let back = Move::rotate_back(Layer::Single(0), MoveType::Clockwise);
    assert_eq!(back.normalize_axis_move_type(), (Axis::X, MoveType::CounterClockwise));
    let right = Move::rotate_right(Layer::Single(1), MoveType::Twice);
    assert_eq!(right.normalize_axis_move_type(), (Axis::Y, MoveType::Twice));
}

#[test]
fn cubit_rotation_turns_position_and_axes() {
    let mut c = Cubit::std_from_position(Vec3::new(2, -1, 3));
    c.rotate(&Mat3::new(0, 1, 0, -1, 0, 0, 0, 0, 1));
    assert_eq!(c.get_position(), Vec3::new(-1, -2, 3));
    assert_eq!(c.x_axis, Vec3::new(0, -1, 0));
    assert_eq!(c.y_axis, Vec3::new(1, 0, 0));
    assert_eq!(c.z_axis, Vec3::new(0, 0, 1));
}

#[test]
fn matrix_times_vector() {
    let m = Mat3::new(1, 0, -1, 0, 1, 1, -1, -1, 0);
    assert_eq!(m.mul_vec(&Vec3::new(3, 5, 7)), Vec3::new(-4, 12, -8));
}
