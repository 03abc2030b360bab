use puzzle_cube::{Cube, Cubit, Error, Vec3};

#[test]
fn test_invalid_side() {
    let maybe_cube = Cube::with_number_sides(1);
    match maybe_cube {
        Ok(_) => panic!("expected to get an error but didn't"),
        Err(e) => assert_eq!(e, Error::InvalidNumberSides(1)),
    }
}

#[test]
fn test_2x2x2() {
    let cube = Cube::new2x2x2();
    let mut cubits = Vec::new();
    for z in -1..=1 {
        if z % 2 == 0 {
            continue;
        }
        for x in -1..=1 {
            if x % 2 == 0 {
                continue;
            }
            for y in -1..=1 {
                if y % 2 == 0 {
                    continue;
                }
                cubits.push(Cubit::std_from_position(Vec3::new(x, y, z)))
            }
        }
    }
    assert_eq!(cube.sides(), 2);
    assert_eq!(cube.cubits(), &cubits);
}

#[test]
fn test_3x3x3() {
    let cube = Cube::new3x3x3();
    let mut cubits = Vec::new();
    for z in -1..=1 {
        for x in -1..=1 {
            for y in -1..=1 {
                if x == 0 && y == 0 && z == 0 {
                    continue;
                }
                cubits.push(Cubit::std_from_position(Vec3::new(x, y, z)))
            }
        }
    }
    assert_eq!(cube.sides(), 3);
    assert_eq!(cube.cubits(), &cubits);
}

#[test]
fn test_4x4x4() {
    let cube = Cube::with_number_sides(4).unwrap();
    let mut cubits = Vec::new();
    for z in -3..=3 {
        if z % 2 == 0 {
            continue;
        }
        for x in -3..=3 {
            if x % 2 == 0 {
                continue;
            }
            for y in -3..=3 {
                if y % 2 == 0 {
                    continue;
                }
                if x > -3 && x < 3 && y > -3 && y < 3 && z > -3 && z < 3 {
                    continue;
                }
                cubits.push(Cubit::std_from_position(Vec3::new(x, y, z)))
            }
        }
    }
    assert_eq!(cube.sides(), 4);
    assert_eq!(cube.cubits(), &cubits);
}

#[test]
fn test_5x5x5() {
    let cube = Cube::with_number_sides(5).unwrap();
    let mut cubits = Vec::new();
    for z in -2..=2 {
        for x in -2..=2 {
            for y in -2..=2 {
                if x > -2 && x < 2 && y > -2 && y < 2 && z > -2 && z < 2 {
                    continue;
                }
                cubits.push(Cubit::std_from_position(Vec3::new(x, y, z)))
            }
        }
    }
    assert_eq!(cube.sides(), 5);
    assert_eq!(cube.cubits(), &cubits);
}

#[test]
fn test_99x99x99() {
    let cube = Cube::with_number_sides(99).unwrap();
    let mut cubits = Vec::new();
    for z in -49..=49 {
        for x in -49..=49 {
            for y in -49..=49 {
                if x > -49 && x < 49 && y > -49 && y < 49 && z > -49 && z < 49 {
                    continue;
                }
                cubits.push(Cubit::std_from_position(Vec3::new(x, y, z)))
            }
        }
    }
    assert_eq!(cube.sides(), 99);
    assert_eq!(cube.cubits(), &cubits);
}

#[test]
fn test_100x100x100() {
    let cube = Cube::with_number_sides(100).unwrap();
    let mut cubits = Vec::new();
    for z in -99..=99 {
        if z % 2 == 0 {
            continue;
        }
        for x in -99..=99 {
            if x % 2 == 0 {
                continue;
            }
            for y in -99..=99 {
                if y % 2 == 0 {
                    continue;
                }
                if x > -99 && x < 99 && y > -99 && y < 99 && z > -99 && z < 99 {
                    continue;
                }
                cubits.push(Cubit::std_from_position(Vec3::new(x, y, z)))
            }
        }
    }
    assert_eq!(cube.sides(), 100);
    assert_eq!(cube.cubits(), &cubits);
}
