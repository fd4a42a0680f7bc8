use car_physics::fixed::{Vector, SCALE};
use car_physics::terrain::{
    steps, table_top, GridElement, GridTerrain, Interference, Mirror, Plane, Rotate, RotationDirection, Step,
    StepSlope,
};

fn up() -> Vector {
    Vector::new(0, 0, SCALE)
}

fn single(element: GridElement) -> GridTerrain {
    GridTerrain::new(vec![vec![element]], [10 * SCALE, 10 * SCALE])
}

#[test]
fn empty_grid_is_flat_ground() {
    let t = GridTerrain::new(Vec::new(), [10 * SCALE, 10 * SCALE]);
    let i = t.interference(Vector::new(3 * SCALE, 4 * SCALE, -20_000)).unwrap();
    assert_eq!(i, Interference { magnitude: 20_000, position: Vector::new(3 * SCALE, 4 * SCALE, 0), normal: up() });
    assert_eq!(t.interference(Vector::new(3 * SCALE, 4 * SCALE, 0)), None);
    assert_eq!(t.interference(Vector::new(3 * SCALE, 4 * SCALE, 5)), None);
}

#[test]
fn negative_coordinates_fall_back_to_flat_ground() {
    let t = single(GridElement::Step(Step { size: 10 * SCALE, height: SCALE, mirror: Mirror::NoMirror, rotate: Rotate::Zero }));
    let i = t.interference(Vector::new(-SCALE, 8 * SCALE, -7)).unwrap();
    assert_eq!(i.magnitude, 7);
    assert_eq!(i.normal, up());
    assert_eq!(i.position, Vector::new(-SCALE, 8 * SCALE, 0));
    assert_eq!(t.interference(Vector::new(5 * SCALE, -1, -3)).unwrap().magnitude, 3);
    assert_eq!(t.interference(Vector::new(-SCALE, -SCALE, 1)), None);
}

#[test]
fn beyond_the_grid_is_flat_ground() {
    let t = single(GridElement::Step(Step { size: 10 * SCALE, height: SCALE, mirror: Mirror::NoMirror, rotate: Rotate::Zero }));
    // Column 1 and row 1 hold no element.
    assert_eq!(t.interference(Vector::new(15 * SCALE, 2 * SCALE, -40)).unwrap().magnitude, 40);
    assert_eq!(t.interference(Vector::new(2 * SCALE, 15 * SCALE, 10)), None);
    // i64::MIN is held to the largest depth.
    assert_eq!(t.interference(Vector::new(-1, 0, i64::MIN)).unwrap().magnitude, i64::MAX);
}

#[test]
fn plane_element_touches_below_zero() {
    let t = single(GridElement::Plane(Plane { size: [10 * SCALE, 10 * SCALE], subdivisions: 1 }));
    let i = t.interference(Vector::new(2 * SCALE, 3 * SCALE, -5_000)).unwrap();
    assert_eq!(i, Interference { magnitude: 5_000, position: Vector::new(2 * SCALE, 3 * SCALE, 0), normal: up() });
    assert_eq!(t.interference(Vector::new(2 * SCALE, 3 * SCALE, 1)), None);
}

#[test]
fn step_rises_halfway_across() {
    let step = Step { size: 10 * SCALE, height: SCALE, mirror: Mirror::NoMirror, rotate: Rotate::Zero };
    let t = single(GridElement::Step(step));
    // Low half: ground at zero.
    assert_eq!(t.interference(Vector::new(2 * SCALE, 2 * SCALE, 500_000)), None);
    // High half: ground at one metre.
    let i = t.interference(Vector::new(7 * SCALE, 2 * SCALE, 500_000)).unwrap();
    assert_eq!(i, Interference { magnitude: 500_000, position: Vector::new(7 * SCALE, 2 * SCALE, SCALE), normal: up() });
}

#[test]
fn turned_step_rises_the_other_way() {
    let step = Step { size: 10 * SCALE, height: SCALE, mirror: Mirror::NoMirror, rotate: Rotate::OneEighty };
    let t = single(GridElement::Step(step));
    let i = t.interference(Vector::new(2 * SCALE, 2 * SCALE, 500_000)).unwrap();
    assert_eq!(i.magnitude, 500_000);
    assert_eq!(i.position, Vector::new(2 * SCALE, 2 * SCALE, SCALE));
    assert_eq!(i.normal, up());
    assert_eq!(t.interference(Vector::new(7 * SCALE, 2 * SCALE, 500_000)), None);
}

#[test]
fn mirrored_and_quarter_turned_steps() {
    let mirrored = single(GridElement::Step(Step { size: 10 * SCALE, height: SCALE, mirror: Mirror::YZ, rotate: Rotate::Zero }));
    assert!(mirrored.interference(Vector::new(2 * SCALE, 2 * SCALE, 500_000)).is_some());
    assert!(mirrored.interference(Vector::new(7 * SCALE, 2 * SCALE, 500_000)).is_none());
    let turned = single(GridElement::Step(Step { size: 10 * SCALE, height: SCALE, mirror: Mirror::NoMirror, rotate: Rotate::Ninety }));
    // A quarter turn makes the step rise along y.
    assert!(turned.interference(Vector::new(2 * SCALE, 7 * SCALE, 500_000)).is_some());
    assert!(turned.interference(Vector::new(7 * SCALE, 2 * SCALE, 500_000)).is_none());
}

#[test]
fn element_contact_is_moved_into_the_grid_frame() {
    let plane = GridElement::Plane(Plane { size: [10 * SCALE, 10 * SCALE], subdivisions: 1 });
    let t = GridTerrain::new(vec![vec![plane, plane], vec![plane, plane]], [10 * SCALE, 10 * SCALE]);
    let i = t.interference(Vector::new(13 * SCALE, 17 * SCALE, -1)).unwrap();
    assert_eq!(i.position, Vector::new(13 * SCALE, 17 * SCALE, 0));
    assert_eq!(i.magnitude, 1);
}

#[test]
fn interference_mirror() {
    let mut i = Interference { magnitude: 3, position: Vector::new(1, 2, 3), normal: Vector::new(4, 5, 6) };
    i.mirror(10, &Mirror::XZ);
    assert_eq!(i, Interference { magnitude: 3, position: Vector::new(1, 8, 3), normal: Vector::new(4, -5, 6) });
    i.mirror(10, &Mirror::YZ);
    assert_eq!(i, Interference { magnitude: 3, position: Vector::new(9, 8, 3), normal: Vector::new(-4, -5, 6) });
    i.mirror(10, &Mirror::NoMirror);
    assert_eq!(i.position, Vector::new(9, 8, 3));
}

#[test]
fn interference_rotate() {
    let base = Interference { magnitude: 3, position: Vector::new(1, 2, 3), normal: Vector::new(4, 5, 6) };
    let mut i = base;
    i.rotate(10, &Rotate::Ninety, RotationDirection::Forward);
    assert_eq!(i.position, Vector::new(8, 1, 3));
    assert_eq!(i.normal, Vector::new(-5, 4, 6));
    i.rotate(10, &Rotate::Ninety, RotationDirection::Reverse);
    assert_eq!(i, base);
    let mut j = base;
    j.rotate(10, &Rotate::OneEighty, RotationDirection::Forward);
    assert_eq!(j.position, Vector::new(9, 8, 3));
    assert_eq!(j.normal, Vector::new(-4, -5, 6));
    let mut k = base;
    k.rotate(10, &Rotate::TwoSeventy, RotationDirection::Forward);
    assert_eq!(k.position, Vector::new(2, 9, 3));
    assert_eq!(k.normal, Vector::new(5, -4, 6));
    k.rotate(10, &Rotate::Ninety, RotationDirection::Forward);
    assert_eq!(k, base);
    let mut z = base;
    z.rotate(10, &Rotate::Zero, RotationDirection::Reverse);
    assert_eq!(z, base);
}

#[test]
fn steps_layout() {
    let rows = steps(10 * SCALE, vec![SCALE, 2 * SCALE]);
    assert_eq!(rows.len(), 2);
    for (row, h) in rows.iter().zip([SCALE, 2 * SCALE]) {
        assert_eq!(row.len(), 3);
        match (&row[0], &row[1], &row[2]) {
            (GridElement::Step(a), GridElement::Step(b), GridElement::Plane(p)) => {
                assert_eq!(a.height, h);
                assert_eq!(a.rotate, Rotate::Zero);
                assert_eq!(b.rotate, Rotate::OneEighty);
                assert_eq!(p.size, [10 * SCALE, 10 * SCALE]);
            }
            _ => panic!("unexpected layout"),
        }
    }
    assert!(steps(SCALE, Vec::new()).is_empty());
    let t = GridTerrain::new(rows, [10 * SCALE, 10 * SCALE]);
    // Second row, first element: a two-metre step.
    assert_eq!(t.interference(Vector::new(8 * SCALE, 12 * SCALE, SCALE)).unwrap().magnitude, SCALE);
}

#[test]
fn slope_climbs_across_the_element() {
    let slope = StepSlope { size: 10 * SCALE, height: SCALE, mirror: Mirror::NoMirror, rotate: Rotate::Zero };
    let t = single(GridElement::StepSlope(slope));
    // A quarter of the way across the ground is 0.25 m high.
    let i = t.interference(Vector::new(2_500_000, SCALE, 100_000)).unwrap();
    assert_eq!(i.magnitude, 150_000);
    assert_eq!(i.position, Vector::new(2_500_000, SCALE, 250_000));
    // Normal of a 1 in 10 slope, of length SCALE.
    assert_eq!(i.normal, Vector::new(-99_503, 0, 995_037));
    assert_eq!(t.interference(Vector::new(2_500_000, SCALE, 300_000)), None);
    // At the start edge the ground is level at zero.
    assert_eq!(t.interference(Vector::new(0, SCALE, -1)).unwrap().normal, up());
}

#[test]
fn turned_slope_climbs_along_y() {
    let slope = StepSlope { size: 10 * SCALE, height: SCALE, mirror: Mirror::NoMirror, rotate: Rotate::Ninety };
    let t = single(GridElement::StepSlope(slope));
    let i = t.interference(Vector::new(SCALE, 7_500_000, 100_000)).unwrap();
    assert_eq!(i.magnitude, 650_000);
    assert_eq!(i.position.z, 750_000);
    assert_eq!(i.normal, Vector::new(0, -99_503, 995_037));
}

#[test]
fn table_top_layout() {
    let rows = table_top(10 * SCALE, SCALE);
    assert_eq!(rows.len(), 2);
    assert_eq!(rows[0].len(), 3);
    assert_eq!(rows[1].len(), 3);
    match (&rows[0][0], &rows[0][1], &rows[1][2]) {
        (GridElement::StepSlope(a), GridElement::Step(b), GridElement::StepSlope(c)) => {
            assert_eq!(a.rotate, Rotate::Ninety);
            assert_eq!(b.rotate, Rotate::Ninety);
            assert_eq!((c.mirror, c.rotate), (Mirror::NoMirror, Rotate::TwoSeventy));
        }
        _ => panic!("unexpected layout"),
    }
    let t = GridTerrain::new(rows, [10 * SCALE, 10 * SCALE]);
    assert!(t.interference(Vector::new(15 * SCALE, 10 * SCALE, SCALE / 2)).is_some());
}
