//! Terrain as a grid of surface patches: where a point lies below the ground,
//! how deep, and along which normal the ground pushes back.

use vstd::prelude::*;
use crate::fixed::{
    clamp64, div_trunc, floor_sqrt, fx_add, fx_sub, i128_div_trunc, isqrt, lemma_div_trunc_bounds,
    lemma_i64_product_bound, lemma_mul_le, Vector, SCALE,
};

verus! {

/// Reflection of a grid element.
#[derive(Clone, Copy, Debug, PartialEq, Eq, Structural)]
pub enum Mirror {
    NoMirror,
    XZ,
    YZ,
}

/// Rotation of a grid element about the vertical axis, in quarter turns.
#[derive(Clone, Copy, Debug, PartialEq, Eq, Structural)]
pub enum Rotate {
    Zero,
    Ninety,
    OneEighty,
    TwoSeventy,
}

/// Whether a rotation is applied or undone.
#[derive(Clone, Copy, Debug, PartialEq, Eq, Structural)]
pub enum RotationDirection {
    Forward,
    Reverse,
}

/// Contact with the ground: penetration depth, contact point on the surface,
/// and the surface normal (of length `SCALE`).
#[derive(Clone, Copy, Debug, PartialEq, Eq, Structural)]
pub struct Interference {
    pub magnitude: i64,
    pub position: Vector,
    pub normal: Vector,
}

/// `v` reflected within a square element of side `size`.
pub open spec fn mirror_vec(v: Vector, size: int, mirror: Mirror) -> Vector {
    match mirror {
        Mirror::NoMirror => v,
        Mirror::XZ => Vector { y: clamp64(size - v.y) as i64, ..v },
        Mirror::YZ => Vector { x: clamp64(size - v.x) as i64, ..v },
    }
}

/// `v` turned within a square element of side `size`.
pub open spec fn rotate_vec(v: Vector, size: int, rotate: Rotate, direction: RotationDirection) -> Vector {
    match (rotate, direction) {
        (Rotate::Zero, _) => v,
        (Rotate::Ninety, RotationDirection::Forward)
        | (Rotate::TwoSeventy, RotationDirection::Reverse) => Vector {
            x: clamp64(size - v.y) as i64,
            y: v.x,
            ..v
        },
        (Rotate::OneEighty, _) => Vector {
            x: clamp64(size - v.x) as i64,
            y: clamp64(size - v.y) as i64,
            ..v
        },
        (Rotate::TwoSeventy, RotationDirection::Forward)
        | (Rotate::Ninety, RotationDirection::Reverse) => Vector {
            x: v.y,
            y: clamp64(size - v.x) as i64,
            ..v
        },
    }
}

impl Vector {
    pub fn mirrored(&self, size: i64, mirror: &Mirror) -> (r: Vector)
        ensures
            r == mirror_vec(*self, size as int, *mirror),
    {
        match mirror {
            Mirror::NoMirror => *self,
            Mirror::XZ => Vector { y: fx_sub(size, self.y), ..*self },
            Mirror::YZ => Vector { x: fx_sub(size, self.x), ..*self },
        }
    }

    pub fn rotated(&self, size: i64, rotate: &Rotate, direction: RotationDirection) -> (r: Vector)
        ensures
            r == rotate_vec(*self, size as int, *rotate, direction),
    {
        match (rotate, direction) {
            (Rotate::Zero, _) => *self,
            (Rotate::Ninety, RotationDirection::Forward)
            | (Rotate::TwoSeventy, RotationDirection::Reverse) => Vector {
                x: fx_sub(size, self.y),
                y: self.x,
                ..*self
            },
            (Rotate::OneEighty, _) => Vector {
                x: fx_sub(size, self.x),
                y: fx_sub(size, self.y),
                ..*self
            },
            (Rotate::TwoSeventy, RotationDirection::Forward)
            | (Rotate::Ninety, RotationDirection::Reverse) => Vector {
                x: self.y,
                y: fx_sub(size, self.x),
                ..*self
            },
        }
    }
}

impl Interference {
    /// Reflects the contact within an element of side `size`: the position
    /// about the element's middle, the normal about the origin.
    pub fn mirror(&mut self, size: i64, mirror: &Mirror)
        ensures
            final(self).magnitude == old(self).magnitude,
            final(self).position == mirror_vec(old(self).position, size as int, *mirror),
            final(self).normal == mirror_vec(old(self).normal, 0, *mirror),
    {
        self.position = self.position.mirrored(size, mirror);
        self.normal = self.normal.mirrored(0, mirror);
    }

    /// Turns the contact within an element of side `size`.
    pub fn rotate(&mut self, size: i64, rotate: &Rotate, direction: RotationDirection)
        ensures
            final(self).magnitude == old(self).magnitude,
            final(self).position == rotate_vec(old(self).position, size as int, *rotate, direction),
            final(self).normal == rotate_vec(old(self).normal, 0, *rotate, direction),
    {
        self.position = self.position.rotated(size, rotate, direction);
        self.normal = self.normal.rotated(0, rotate, direction);
    }
}

/// The upward unit normal.
pub open spec fn up() -> Vector {
    Vector { x: 0, y: 0, z: SCALE }
}

/// Contact with level ground at height `surface`, or none above it.
pub open spec fn level_contact(p: Vector, surface: int) -> Option<Interference> {
    if p.z < surface {
        Some(
            Interference {
                magnitude: clamp64(surface - p.z) as i64,
                position: Vector { x: p.x, y: p.y, z: surface as i64 },
                normal: up(),
            },
        )
    } else {
        None
    }
}

/// Contact with the flat ground at height zero that lies outside the grid.
pub open spec fn flat_ground(p: Vector) -> Option<Interference> {
    level_contact(p, 0)
}

fn level_interference(p: Vector, surface: i64) -> (r: Option<Interference>)
    ensures
        r == level_contact(p, surface as int),
{
    if p.z < surface {
        Some(
            Interference {
                magnitude: fx_sub(surface, p.z),
                position: Vector::new(p.x, p.y, surface),
                normal: Vector::new(0, 0, SCALE),
            },
        )
    } else {
        None
    }
}

/// A flat patch at height zero.
#[derive(Clone, Copy, Debug)]
pub struct Plane {
    pub size: [i64; 2],
    pub subdivisions: u32,
}

impl Plane {
    pub fn interference(&self, point: Vector) -> (r: Option<Interference>)
        ensures
            r == flat_ground(point),
    {
        level_interference(point, 0)
    }
}

/// A square patch of side `size` whose ground rises from zero to `height`
/// halfway across, before reflection and rotation.
#[derive(Clone, Copy, Debug)]
pub struct Step {
    pub size: i64,
    pub height: i64,
    pub mirror: Mirror,
    pub rotate: Rotate,
}

/// Contact with a step in its own frame, before reflection and rotation.
pub open spec fn step_contact(size: int, height: int, p: Vector) -> Option<Interference> {
    if 2 * p.x >= size {
        level_contact(p, height)
    } else {
        level_contact(p, 0)
    }
}

/// A point of the grid's frame in the own frame of an element of side
/// `size`: the rotation undone, then the reflection.
pub open spec fn into_frame(p: Vector, size: int, mirror: Mirror, rotate: Rotate) -> Vector {
    mirror_vec(rotate_vec(p, size, rotate, RotationDirection::Reverse), size, mirror)
}

/// A contact found in an element's own frame, taken back to the grid's frame.
pub open spec fn out_of_frame(c: Option<Interference>, size: int, mirror: Mirror, rotate: Rotate) -> Option<Interference> {
    match c {
        Some(i) => Some(
            Interference {
                magnitude: i.magnitude,
                position: rotate_vec(mirror_vec(i.position, size, mirror), size, rotate, RotationDirection::Forward),
                normal: rotate_vec(mirror_vec(i.normal, 0, mirror), 0, rotate, RotationDirection::Forward),
            },
        ),
        None => None,
    }
}

fn back_out(c: Option<Interference>, size: i64, mirror: &Mirror, rotate: &Rotate) -> (r: Option<Interference>)
    ensures
        r == out_of_frame(c, size as int, *mirror, *rotate),
{
    match c {
        Some(mut i) => {
            i.mirror(size, mirror);
            i.rotate(size, rotate, RotationDirection::Forward);
            Some(i)
        },
        None => None,
    }
}

/// Contact with a step: the point is brought into the step's own frame and
/// the contact taken back out of it.
pub open spec fn step_interference(s: Step, p: Vector) -> Option<Interference> {
    out_of_frame(
        step_contact(s.size as int, s.height as int, into_frame(p, s.size as int, s.mirror, s.rotate)),
        s.size as int,
        s.mirror,
        s.rotate,
    )
}

impl Step {
    pub fn interference(&self, point: Vector) -> (r: Option<Interference>)
        ensures
            r == step_interference(*self, point),
    {
        let local = point.rotated(self.size, &self.rotate, RotationDirection::Reverse).mirrored(
            self.size,
            &self.mirror,
        );
        let surface = if 2 * (local.x as i128) >= self.size as i128 {
            self.height
        } else {
            0
        };
        back_out(level_interference(local, surface), self.size, &self.mirror, &self.rotate)
    }
}

/// A square patch of side `size` whose ground climbs evenly from zero at one
/// edge to `height` at the opposite edge, before reflection and rotation.
#[derive(Clone, Copy, Debug)]
pub struct StepSlope {
    pub size: i64,
    pub height: i64,
    pub mirror: Mirror,
    pub rotate: Rotate,
}

/// Ground height of a slope in its own frame at `x`: zero before the patch,
/// `height` beyond it, rising linearly (rounded toward zero) across it.
pub open spec fn ramp_height(size: int, height: int, x: int) -> int {
    if size <= 0 || x <= 0 {
        0
    } else if x >= size {
        height
    } else {
        div_trunc(height * x, size)
    }
}

/// Unit normal of a slope that climbs `height` over `size`: `(-height, 0,
/// size)` scaled to length `SCALE`, each entry rounded toward zero.
pub open spec fn ramp_normal(size: int, height: int) -> Vector {
    let len = floor_sqrt(height * height + size * size);
    Vector { x: (-div_trunc(height * SCALE, len)) as i64, y: 0, z: div_trunc(size * SCALE, len) as i64 }
}

/// Contact with a slope in its own frame: measured vertically, with the
/// slope's normal over the patch and the upward normal beyond it.
pub open spec fn slope_contact(size: int, height: int, p: Vector) -> Option<Interference> {
    let surface = ramp_height(size, height, p.x as int);
    if p.z < surface {
        Some(
            Interference {
                magnitude: clamp64(surface - p.z) as i64,
                position: Vector { x: p.x, y: p.y, z: surface as i64 },
                normal: if 0 < size && 0 < p.x < size {
                    ramp_normal(size, height)
                } else {
                    up()
                },
            },
        )
    } else {
        None
    }
}

/// Contact with a sloped step, through its own frame.
pub open spec fn step_slope_interference(s: StepSlope, p: Vector) -> Option<Interference> {
    out_of_frame(
        slope_contact(s.size as int, s.height as int, into_frame(p, s.size as int, s.mirror, s.rotate)),
        s.size as int,
        s.mirror,
        s.rotate,
    )
}

fn ramp_surface(size: i64, height: i64, x: i64) -> (r: i64)
    ensures
        r == ramp_height(size as int, height as int, x as int),
{
    if size <= 0 || x <= 0 {
        0
    } else if x >= size {
        height
    } else {
        proof {
            lemma_i64_product_bound(height, x);
            lemma_div_trunc_bounds(height * x, size as int);
            if height >= 0 {
                assert(0 <= height * x <= size * height) by (nonlinear_arith)
                    requires
                        0 < x < size,
                        height >= 0,
                ;
                assert((height * x) / (size as int) <= height) by (nonlinear_arith)
                    requires
                        0 <= height * x <= size * height,
                        size > 0,
                ;
            } else {
                assert(0 <= -(height * x) <= size * (-height)) by (nonlinear_arith)
                    requires
                        0 < x < size,
                        height < 0,
                ;
                assert((-(height * x)) / (size as int) <= -height) by (nonlinear_arith)
                    requires
                        0 <= -(height * x) <= size * (-height),
                        size > 0,
                ;
            }
        }
        i128_div_trunc((height as i128) * (x as i128), size as i128) as i64
    }
}

fn slope_normal(size: i64, height: i64) -> (r: Vector)
    requires
        size > 0,
    ensures
        r == ramp_normal(size as int, height as int),
{
    let h: u128 = if height >= 0 {
        height as u128
    } else {
        (-(height as i128)) as u128
    };
    proof {
        lemma_mul_le(h as int, h as int, 0x8000_0000_0000_0000, 0x8000_0000_0000_0000);
        lemma_mul_le(size as int, size as int, 0x8000_0000_0000_0000, 0x8000_0000_0000_0000);
        assert(h * h == height * height) by (nonlinear_arith)
            requires
                h == height || h == -height,
        ;
    }
    let len = isqrt(h * h + (size as u128) * (size as u128));
    proof {
        let n = height * height + size * size;
        assert(h <= len) by {
            if h > len {
                lemma_mul_le(len as int + 1, len as int + 1, h as int, h as int);
            }
        }
        assert(size <= len) by {
            if size > len {
                lemma_mul_le(len as int + 1, len as int + 1, size as int, size as int);
            }
        }
        lemma_i64_product_bound(height, SCALE);
        lemma_i64_product_bound(size, SCALE);
        lemma_div_trunc_bounds(height * SCALE, len as int);
        lemma_div_trunc_bounds(size * SCALE, len as int);
        assert((size * SCALE) / (len as int) <= SCALE) by (nonlinear_arith)
            requires
                0 < size <= len,
        ;
        if height >= 0 {
            assert((height * SCALE) / (len as int) <= SCALE) by (nonlinear_arith)
                requires
                    0 <= height <= len,
                    len > 0,
            ;
        } else {
            assert((-(height * SCALE)) / (len as int) <= SCALE) by (nonlinear_arith)
                requires
                    0 < -height <= len,
            ;
        }
    }
    let nx = i128_div_trunc((height as i128) * (SCALE as i128), len as i128);
    let nz = i128_div_trunc((size as i128) * (SCALE as i128), len as i128);
    Vector::new((-nx) as i64, 0, nz as i64)
}

impl StepSlope {
    pub fn interference(&self, point: Vector) -> (r: Option<Interference>)
        ensures
            r == step_slope_interference(*self, point),
    {
        let local = point.rotated(self.size, &self.rotate, RotationDirection::Reverse).mirrored(
            self.size,
            &self.mirror,
        );
        let surface = ramp_surface(self.size, self.height, local.x);
        let contact = if local.z < surface {
            let normal = if 0 < self.size && 0 < local.x && local.x < self.size {
                slope_normal(self.size, self.height)
            } else {
                Vector::new(0, 0, SCALE)
            };
            Some(Interference { magnitude: fx_sub(surface, local.z), position: Vector::new(local.x, local.y, surface), normal })
        } else {
            None
        };
        back_out(contact, self.size, &self.mirror, &self.rotate)
    }
}

/// One patch of the terrain grid.
#[derive(Clone, Copy, Debug)]
pub enum GridElement {
    Plane(Plane),
    Step(Step),
    StepSlope(StepSlope),
}

/// Contact of a point, given in the element's frame, with the element.
pub open spec fn element_interference(e: GridElement, p: Vector) -> Option<Interference> {
    match e {
        GridElement::Plane(_) => flat_ground(p),
        GridElement::Step(s) => step_interference(s, p),
        GridElement::StepSlope(s) => step_slope_interference(s, p),
    }
}

impl GridElement {
    pub fn interference(&self, point: Vector) -> (r: Option<Interference>)
        ensures
            r == element_interference(*self, point),
    {
        match self {
            GridElement::Plane(p) => p.interference(point),
            GridElement::Step(s) => s.interference(point),
            GridElement::StepSlope(s) => s.interference(point),
        }
    }
}

/// The rows of a grid as sequences of elements.
pub open spec fn rows_of(elements: Seq<Vec<GridElement>>) -> Seq<Seq<GridElement>> {
    elements.map_values(|row: Vec<GridElement>| row@)
}

/// Index of the grid cell along one axis that holds coordinate `c`.
pub open spec fn cell_index(c: int, step: int) -> int {
    c / step
}

/// Whether a grid element covers the point.
pub open spec fn covered(rows: Seq<Seq<GridElement>>, step_x: int, step_y: int, p: Vector) -> bool {
    &&& p.x >= 0
    &&& p.y >= 0
    &&& cell_index(p.y as int, step_y) < rows.len()
    &&& cell_index(p.x as int, step_x) < rows[cell_index(p.y as int, step_y)].len()
}

/// Contact of a point with the terrain: the covering element's contact,
/// moved from the element's frame to the grid's; the flat ground at height
/// zero wherever no element covers the point.
pub open spec fn terrain_interference(rows: Seq<Seq<GridElement>>, step_x: int, step_y: int, p: Vector) -> Option<Interference> {
    if covered(rows, step_x, step_y, p) {
        let xi = cell_index(p.x as int, step_x);
        let yi = cell_index(p.y as int, step_y);
        let ox = xi * step_x;
        let oy = yi * step_y;
        let local = Vector { x: (p.x - ox) as i64, y: (p.y - oy) as i64, z: p.z };
        match element_interference(rows[yi][xi], local) {
            Some(i) => Some(
                Interference {
                    position: Vector {
                        x: clamp64(i.position.x + ox) as i64,
                        y: clamp64(i.position.y + oy) as i64,
                        z: i.position.z,
                    },
                    ..i
                },
            ),
            None => None,
        }
    } else {
        flat_ground(p)
    }
}

/// A grid of surface patches, each `step[0]` by `step[1]`, with row `j` and
/// column `i` at `(i * step[0], j * step[1])`.
pub struct GridTerrain {
    pub elements: Vec<Vec<GridElement>>,
    pub step: [i64; 2],
}

impl GridTerrain {
    pub open spec fn wf(&self) -> bool {
        self.step[0] > 0 && self.step[1] > 0
    }

    pub open spec fn rows(&self) -> Seq<Seq<GridElement>> {
        rows_of(self.elements@)
    }

    pub fn new(elements: Vec<Vec<GridElement>>, step: [i64; 2]) -> (r: Self)
        requires
            step[0] > 0,
            step[1] > 0,
        ensures
            r.wf(),
            r.elements@ == elements@,
            r.step == step,
    {
        GridTerrain { elements, step }
    }

    /// Contact of `point` with the terrain.
    pub fn interference(&self, point: Vector) -> (r: Option<Interference>)
        requires
            self.wf(),
        ensures
            r == terrain_interference(self.rows(), self.step[0] as int, self.step[1] as int, point),
    {
        let sx = self.step[0];
        let sy = self.step[1];
        if point.x < 0 || point.y < 0 {
            return level_interference(point, 0);
        }
        let x_index: i64 = point.x / sx;
        let y_index: i64 = point.y / sy;
        let rows = Ghost(self.rows());
        if (y_index as i128) < (self.elements.len() as i128) {
            let row = &self.elements[y_index as usize];
            assert(rows@[y_index as int] == row@);
            if (x_index as i128) < (row.len() as i128) {
                proof {
                    lemma_cell_offset(point.x as int, sx as int);
                    lemma_cell_offset(point.y as int, sy as int);
                }
                let ox: i64 = x_index * sx;
                let oy: i64 = y_index * sy;
                let local = Vector::new(point.x - ox, point.y - oy, point.z);
                return match row[x_index as usize].interference(local) {
                    Some(i) => Some(
                        Interference {
                            position: Vector::new(fx_add(i.position.x, ox), fx_add(i.position.y, oy), i.position.z),
                            ..i
                        },
                    ),
                    None => None,
                };
            }
        }
        level_interference(point, 0)
    }
}

proof fn lemma_cell_offset(c: int, step: int)
    requires
        c >= 0,
        step > 0,
    ensures
        0 <= (c / step) * step <= c,
{
    assert(0 <= (c / step) * step <= c) by (nonlinear_arith)
        requires
            c >= 0,
            step > 0,
    ;
}

/// Where no grid element lies under a point, the terrain is flat ground at
/// height zero: a point below it touches with depth `-z` along the upward
/// normal, a point at or above it does not touch.
pub proof fn lemma_flat_ground_outside_grid(rows: Seq<Seq<GridElement>>, step_x: int, step_y: int, p: Vector)
    requires
        step_x > 0,
        step_y > 0,
        !covered(rows, step_x, step_y, p),
    ensures
        p.z < 0 && p.z > i64::MIN ==> terrain_interference(rows, step_x, step_y, p) == Some(
            Interference {
                magnitude: (-p.z) as i64,
                position: Vector { x: p.x, y: p.y, z: 0 },
                normal: Vector { x: 0, y: 0, z: SCALE },
            },
        ),
        p.z >= 0 ==> terrain_interference(rows, step_x, step_y, p) is None,
{
}

/// A column of stepped rows, one row per height: a step up, a step down and
/// a flat patch, each of side `size`.
pub fn steps(size: i64, heights: Vec<i64>) -> (r: Vec<Vec<GridElement>>)
    ensures
        r@.len() == heights@.len(),
        forall|j: int|
            0 <= j < r@.len() ==> (#[trigger] r@[j])@ == seq![
                GridElement::Step(Step { size, height: heights@[j], mirror: Mirror::NoMirror, rotate: Rotate::Zero }),
                GridElement::Step(Step { size, height: heights@[j], mirror: Mirror::NoMirror, rotate: Rotate::OneEighty }),
                GridElement::Plane(Plane { size: [size, size], subdivisions: 1 }),
            ],
{
    let mut grid_elements: Vec<Vec<GridElement>> = Vec::new();
    let mut k: usize = 0;
    while k < heights.len()
        invariant
            k <= heights@.len(),
            grid_elements@.len() == k,
            forall|j: int|
                0 <= j < k ==> (#[trigger] grid_elements@[j])@ == seq![
                    GridElement::Step(Step { size, height: heights@[j], mirror: Mirror::NoMirror, rotate: Rotate::Zero }),
                    GridElement::Step(Step { size, height: heights@[j], mirror: Mirror::NoMirror, rotate: Rotate::OneEighty }),
                    GridElement::Plane(Plane { size: [size, size], subdivisions: 1 }),
                ],
        decreases heights@.len() - k,
    {
        let height = heights[k];
        let mut row: Vec<GridElement> = Vec::new();
        row.push(GridElement::Step(Step { size, height, mirror: Mirror::NoMirror, rotate: Rotate::Zero }));
        row.push(GridElement::Step(Step { size, height, mirror: Mirror::NoMirror, rotate: Rotate::OneEighty }));
        row.push(GridElement::Plane(Plane { size: [size, size], subdivisions: 1 }));
        assert(row@ =~= seq![
            GridElement::Step(Step { size, height, mirror: Mirror::NoMirror, rotate: Rotate::Zero }),
            GridElement::Step(Step { size, height, mirror: Mirror::NoMirror, rotate: Rotate::OneEighty }),
            GridElement::Plane(Plane { size: [size, size], subdivisions: 1 }),
        ]);
        grid_elements.push(row);
        k = k + 1;
    }
    grid_elements
}

/// The elements of a raised table of side `3 * size` by `2 * size` and
/// height `height`: a step along the middle column, slopes at the four
/// corners, each turned to climb toward the table's top.
pub open spec fn table_top_spec(size: i64, height: i64) -> Seq<Seq<GridElement>> {
    seq![
        seq![
            GridElement::StepSlope(StepSlope { size, height, mirror: Mirror::NoMirror, rotate: Rotate::Ninety }),
            GridElement::Step(Step { size, height, mirror: Mirror::NoMirror, rotate: Rotate::Ninety }),
            GridElement::StepSlope(StepSlope { size, height, mirror: Mirror::YZ, rotate: Rotate::TwoSeventy }),
        ],
        seq![
            GridElement::StepSlope(StepSlope { size, height, mirror: Mirror::YZ, rotate: Rotate::Ninety }),
            GridElement::Step(Step { size, height, mirror: Mirror::NoMirror, rotate: Rotate::TwoSeventy }),
            GridElement::StepSlope(StepSlope { size, height, mirror: Mirror::NoMirror, rotate: Rotate::TwoSeventy }),
        ],
    ]
}

/// A raised table of elements of side `size` and height `height`.
pub fn table_top(size: i64, height: i64) -> (r: Vec<Vec<GridElement>>)
    ensures
        rows_of(r@) == table_top_spec(size, height),
{
    let mut first: Vec<GridElement> = Vec::new();
    first.push(GridElement::StepSlope(StepSlope { size, height, mirror: Mirror::NoMirror, rotate: Rotate::Ninety }));
    first.push(GridElement::Step(Step { size, height, mirror: Mirror::NoMirror, rotate: Rotate::Ninety }));
    first.push(GridElement::StepSlope(StepSlope { size, height, mirror: Mirror::YZ, rotate: Rotate::TwoSeventy }));
    let mut second: Vec<GridElement> = Vec::new();
    second.push(GridElement::StepSlope(StepSlope { size, height, mirror: Mirror::YZ, rotate: Rotate::Ninety }));
    second.push(GridElement::Step(Step { size, height, mirror: Mirror::NoMirror, rotate: Rotate::TwoSeventy }));
    second.push(GridElement::StepSlope(StepSlope { size, height, mirror: Mirror::NoMirror, rotate: Rotate::TwoSeventy }));
    let ghost a = first@;
    let ghost b = second@;
    let mut r: Vec<Vec<GridElement>> = Vec::new();
    r.push(first);
    r.push(second);
    assert(rows_of(r@) =~= table_top_spec(size, height)) by {
        assert(a =~= table_top_spec(size, height)[0]);
        assert(b =~= table_top_spec(size, height)[1]);
    }
    r
}

} // verus!
