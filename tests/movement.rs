use puzzle_cube::{Axis, Layer, Mat3, Move, MoveType};

#[test]
fn test_rotation_matrix() {
    let rot_mat_z_cw = Mat3::new(0, 1, 0, -1, 0, 0, 0, 0, 1);
    let rot_mat_z_ccw = Mat3::new(0, -1, 0, 1, 0, 0, 0, 0, 1);
    let rot_mat_z_2 = Mat3::new(-1, 0, 0, 0, -1, 0, 0, 0, 1);

    let rot_mat_y_cw = Mat3::new(0, 0, -1, 0, 1, 0, 1, 0, 0);
    let rot_mat_y_ccw = Mat3::new(0, 0, 1, 0, 1, 0, -1, 0, 0);
    let rot_mat_y_2 = Mat3::new(-1, 0, 0, 0, 1, 0, 0, 0, -1);

    let rot_mat_x_cw = Mat3::new(1, 0, 0, 0, 0, 1, 0, -1, 0);
    let rot_mat_x_ccw = Mat3::new(1, 0, 0, 0, 0, -1, 0, 1, 0);
    let rot_mat_x_2 = Mat3::new(1, 0, 0, 0, -1, 0, 0, 0, -1);

    let top_cw = Move::rotate_top(Layer::Single(0), MoveType::Clockwise);
    let top_ccw = Move::rotate_top(Layer::Single(0), MoveType::CounterClockwise);
    let top_2 = Move::rotate_top(Layer::Single(0), MoveType::Twice);

    let btm_cw = Move::rotate_bottom(Layer::Single(0), MoveType::Clockwise);
    let btm_ccw = Move::rotate_bottom(Layer::Single(0), MoveType::CounterClockwise);
    let btm_2 = Move::rotate_bottom(Layer::Single(0), MoveType::Twice);

    let left_cw = Move::rotate_left(Layer::Single(0), MoveType::Clockwise);
    let left_ccw = Move::rotate_left(Layer::Single(0), MoveType::CounterClockwise);
    let left_2 = Move::rotate_left(Layer::Single(0), MoveType::Twice);

    let right_cw = Move::rotate_right(Layer::Single(0), MoveType::Clockwise);
    let right_ccw = Move::rotate_right(Layer::Single(0), MoveType::CounterClockwise);
    let right_2 = Move::rotate_right(Layer::Single(0), MoveType::Twice);

    let front_cw = Move::rotate_front(Layer::Single(0), MoveType::Clockwise);
    let front_ccw = Move::rotate_front(Layer::Single(0), MoveType::CounterClockwise);
    let front_2 = Move::rotate_front(Layer::Single(0), MoveType::Twice);

    let back_cw = Move::rotate_back(Layer::Single(0), MoveType::Clockwise);
    let back_ccw = Move::rotate_back(Layer::Single(0), MoveType::CounterClockwise);
    let back_2 = Move::rotate_back(Layer::Single(0), MoveType::Twice);

    let cube_x_cw = Move::rotate_cube(Axis::X, MoveType::Clockwise);
    let cube_x_ccw = Move::rotate_cube(Axis::X, MoveType::CounterClockwise);
    let cube_x_2 = Move::rotate_cube(Axis::X, MoveType::Twice);

    let cube_y_cw = Move::rotate_cube(Axis::Y, MoveType::Clockwise);
    let cube_y_ccw = Move::rotate_cube(Axis::Y, MoveType::CounterClockwise);
    let cube_y_2 = Move::rotate_cube(Axis::Y, MoveType::Twice);

    let cube_z_cw = Move::rotate_cube(Axis::Z, MoveType::Clockwise);
    let cube_z_ccw = Move::rotate_cube(Axis::Z, MoveType::CounterClockwise);
    let cube_z_2 = Move::rotate_cube(Axis::Z, MoveType::Twice);

    assert_eq!(rot_mat_z_cw, top_cw.rotation_matrix());
    assert_eq!(rot_mat_z_cw, btm_ccw.rotation_matrix());
    assert_eq!(rot_mat_z_cw, cube_z_cw.rotation_matrix());

    assert_eq!(rot_mat_z_ccw, top_ccw.rotation_matrix());
    assert_eq!(rot_mat_z_ccw, btm_cw.rotation_matrix());
    assert_eq!(rot_mat_z_ccw, cube_z_ccw.rotation_matrix());

    assert_eq!(rot_mat_z_2, top_2.rotation_matrix());
    assert_eq!(rot_mat_z_2, btm_2.rotation_matrix());
    assert_eq!(rot_mat_z_2, cube_z_2.rotation_matrix());

    assert_eq!(rot_mat_y_cw, right_cw.rotation_matrix());
    assert_eq!(rot_mat_y_cw, left_ccw.rotation_matrix());
    assert_eq!(rot_mat_y_cw, cube_y_cw.rotation_matrix());

    assert_eq!(rot_mat_y_ccw, right_ccw.rotation_matrix());
    assert_eq!(rot_mat_y_ccw, left_cw.rotation_matrix());
    assert_eq!(rot_mat_y_ccw, cube_y_ccw.rotation_matrix());

    assert_eq!(rot_mat_y_2, right_2.rotation_matrix());
    assert_eq!(rot_mat_y_2, left_2.rotation_matrix());
    assert_eq!(rot_mat_y_2, cube_y_2.rotation_matrix());

    assert_eq!(rot_mat_x_cw, front_cw.rotation_matrix());
    assert_eq!(rot_mat_x_cw, back_ccw.rotation_matrix());
    assert_eq!(rot_mat_x_cw, cube_x_cw.rotation_matrix());

    assert_eq!(rot_mat_x_ccw, front_ccw.rotation_matrix());
    assert_eq!(rot_mat_x_ccw, back_cw.rotation_matrix());
    assert_eq!(rot_mat_x_ccw, cube_x_ccw.rotation_matrix());

    assert_eq!(rot_mat_x_2, front_2.rotation_matrix());
    assert_eq!(rot_mat_x_2, back_2.rotation_matrix());
    assert_eq!(rot_mat_x_2, cube_x_2.rotation_matrix());
}
