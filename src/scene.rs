//! The state of one times-circle scene and the rules that change it: the
//! animation step, panning, zooming, rotating and the bounded settings.

use crate::geometry::{point_angles_of, paired_index_of, UNIT};
use crate::style::{next_mode_of, ColorMode, Rgba};
use vstd::arithmetic::div_mod::lemma_add_mod_noop_right;
use vstd::prelude::*;

verus! {

/// Largest number of perimeter points.
pub const MAX_POINTS: usize = 10_000;

/// Smallest zoom, in millionths: zoom never reaches zero.
pub const ZOOM_FLOOR: u64 = 100;

/// Largest line width, in millionths of a pixel.
pub const MAX_STROKE: u64 = 1_000_000;

/// Largest radius of a perimeter point marker, in millionths of a pixel.
pub const MAX_POINT_RADIUS: u64 = 10_000_000;

/// `v` held to the range of `i64`.
pub open spec fn clamp_i64(v: int) -> int {
    if v > i64::MAX {
        i64::MAX as int
    } else if v < i64::MIN {
        i64::MIN as int
    } else {
        v
    }
}

/// Zoom after scaling `zoom` by `factor` (both in millionths), rounded down,
/// and held between the floor and the largest `u64`.
pub open spec fn scaled_zoom(zoom: int, factor: int) -> int {
    let z = zoom * factor / (UNIT as int);
    if z < ZOOM_FLOOR {
        ZOOM_FLOOR as int
    } else if z > u64::MAX {
        u64::MAX as int
    } else {
        z
    }
}

/// How far one offset coordinate moves when zooming by `factor` about
/// `pointer`, so that the point under the pointer stays there:
/// `(center + offset - pointer) * (factor - 1)`, rounded down.
pub open spec fn focal_shift(center: int, offset: int, pointer: int, factor: int) -> int {
    (center + offset - pointer) * (factor - UNIT as int) / (UNIT as int)
}

/// Radius of the drawn circle: the shorter half extent of the view times the
/// zoom, rounded down, held to the largest `u64`.
pub open spec fn radius_of(half_width: int, half_height: int, zoom: int) -> int {
    let half = if half_width < half_height {
        half_width
    } else {
        half_height
    };
    let r = half * zoom / (UNIT as int);
    if r > u64::MAX {
        u64::MAX as int
    } else {
        r
    }
}

/// The scene as plain numbers. Fixed-point quantities are in millionths:
/// the multiplier and step size of one whole, angles of one turn, the zoom of
/// one whole, offsets, widths and radii of one pixel.
pub struct SceneView {
    pub num_points: nat,
    pub multiplier: nat,
    pub step_size: nat,
    pub rotation: nat,
    pub zoom: nat,
    pub offset_x: int,
    pub offset_y: int,
    pub paused: bool,
    pub color_mode: ColorMode,
    pub stroke: nat,
    pub point_radius: nat,
    pub line_color: Rgba,
    pub background_color: Rgba,
    pub point_color: Rgba,
}

impl SceneView {
    /// Every setting lies in its range, and the zoom above zero.
    pub open spec fn wf(self) -> bool {
        &&& self.num_points <= MAX_POINTS
        &&& self.step_size <= UNIT
        &&& self.rotation < UNIT
        &&& self.zoom >= ZOOM_FLOOR
        &&& self.stroke <= MAX_STROKE
        &&& self.point_radius <= MAX_POINT_RADIUS
    }
}

/// The scene of a times circle: how many points, the multiplier, the
/// animation, the view transform and the style.
pub struct TimesCircleApp {
    num_points: usize,
    multiplier: u64,
    step_size: u64,
    rotation: u64,
    zoom: u64,
    offset_x: i64,
    offset_y: i64,
    paused: bool,
    color_mode: ColorMode,
    stroke: u64,
    point_radius: u64,
    line_color: Rgba,
    background_color: Rgba,
    point_color: Rgba,
}

impl View for TimesCircleApp {
    type V = SceneView;

    closed spec fn view(&self) -> SceneView {
        SceneView {
            num_points: self.num_points as nat,
            multiplier: self.multiplier as nat,
            step_size: self.step_size as nat,
            rotation: self.rotation as nat,
            zoom: self.zoom as nat,
            offset_x: self.offset_x as int,
            offset_y: self.offset_y as int,
            paused: self.paused,
            color_mode: self.color_mode,
            stroke: self.stroke as nat,
            point_radius: self.point_radius as nat,
            line_color: self.line_color,
            background_color: self.background_color,
            point_color: self.point_color,
        }
    }
}

/// `v` held to the range of `i64`.
fn clamp_to_i64(v: i128) -> (r: i64)
    ensures
        r == clamp_i64(v as int),
{
    if v > i64::MAX as i128 {
        i64::MAX
    } else if v < i64::MIN as i128 {
        i64::MIN
    } else {
        v as i64
    }
}

/// `a + b`, held to the range of `i64`.
fn add_clamped(a: i64, b: i64) -> (r: i64)
    ensures
        r == clamp_i64(a + b),
{
    clamp_to_i64(a as i128 + b as i128)
}

/// The zoom after scaling by `factor`; see [`scaled_zoom`].
fn scale_zoom(zoom: u64, factor: i64) -> (z: u64)
    ensures
        z == scaled_zoom(zoom as int, factor as int),
{
    if factor <= 0 {
        assert((zoom as int) * (factor as int) <= 0) by (nonlinear_arith)
            requires
                factor <= 0,
        ;
        return ZOOM_FLOOR;
    }
    assert((zoom as int) * (factor as int) <= u128::MAX) by (nonlinear_arith)
        requires
            zoom <= u64::MAX,
            0 < factor <= i64::MAX,
    ;
    let z: u128 = (zoom as u128) * (factor as u128) / (UNIT as u128);
    if z < ZOOM_FLOOR as u128 {
        ZOOM_FLOOR
    } else if z > u64::MAX as u128 {
        u64::MAX
    } else {
        z as u64
    }
}

/// One offset coordinate after zooming by `factor` about `pointer`.
fn shift_for_zoom(offset: i64, center: i64, pointer: i64, factor: i64) -> (r: i64)
    ensures
        r == clamp_i64(
            offset + focal_shift(center as int, offset as int, pointer as int, factor as int),
        ),
{
    let d: i128 = center as i128 + offset as i128 - pointer as i128;
    let k: i128 = factor as i128 - UNIT as i128;
    match d.checked_mul(k) {
        Some(p) => {
            let q: i128 = match p.checked_div_euclid(UNIT as i128) {
                Some(q) => q,
                None => {
                    assert(false);
                    0
                },
            };
            clamp_to_i64(offset as i128 + q)
        },
        None => {
            let ghost pr: int = (d as int) * (k as int);
            assert(d != 0 && k != 0) by (nonlinear_arith)
                requires
                    pr > i128::MAX || pr < i128::MIN,
                    pr == (d as int) * (k as int),
            ;
            if (d > 0) == (k > 0) {
                assert(pr > 0) by (nonlinear_arith)
                    requires
                        d != 0,
                        k != 0,
                        (d > 0) == (k > 0),
                        pr == (d as int) * (k as int),
                ;
                i64::MAX
            } else {
                assert(pr < 0) by (nonlinear_arith)
                    requires
                        d != 0,
                        k != 0,
                        (d > 0) != (k > 0),
                        pr == (d as int) * (k as int),
                ;
                i64::MIN
            }
        },
    }
}

/// `rotation` turned by `delta`, both in millionths of a turn, modulo a turn.
fn turn(rotation: u64, delta: i64) -> (r: u64)
    requires
        rotation < UNIT,
    ensures
        r == (rotation + delta) % (UNIT as int),
{
    let m: i64 = match delta.checked_rem_euclid(UNIT as i64) {
        Some(m) => m,
        None => {
            assert(false);
            0
        },
    };
    proof {
        lemma_add_mod_noop_right(rotation as int, delta as int, UNIT as int);
    }
    ((rotation + m as u64) % UNIT) as u64
}

impl TimesCircleApp {
    /// The scene invariant: see [`SceneView::wf`].
    pub open spec fn wf(&self) -> bool {
        self@.wf()
    }

    /// The scene at start: paused, 500 points, multiplier 2, step 0.1, line
    /// width 0.3, zoom 0.85, point 0 half a turn round, no pan, monochrome
    /// black lines and point markers of radius 2 on white.
    pub fn new() -> (app: TimesCircleApp)
        ensures
            app.wf(),
            app@ == (SceneView {
                num_points: 500,
                multiplier: 2 * UNIT as nat,
                step_size: 100_000,
                rotation: 500_000,
                zoom: 850_000,
                offset_x: 0,
                offset_y: 0,
                paused: true,
                color_mode: ColorMode::Monochrome,
                stroke: 300_000,
                point_radius: 2_000_000,
                line_color: Rgba { r: 0, g: 0, b: 0, a: 255 },
                background_color: Rgba { r: 255, g: 255, b: 255, a: 255 },
                point_color: Rgba { r: 0, g: 0, b: 0, a: 255 },
            }),
    {
        TimesCircleApp {
            num_points: 500,
            multiplier: 2 * UNIT,
            step_size: 100_000,
            rotation: 500_000,
            zoom: 850_000,
            offset_x: 0,
            offset_y: 0,
            paused: true,
            color_mode: ColorMode::Monochrome,
            stroke: 300_000,
            point_radius: 2_000_000,
            line_color: Rgba::opaque(0, 0, 0),
            background_color: Rgba::opaque(255, 255, 255),
            point_color: Rgba::opaque(0, 0, 0),
        }
    }

    /// One animation frame. While playing and below the point count the
    /// multiplier grows by the step size and the result is `true`: another
    /// frame is wanted. Paused, or at or past the point count, nothing
    /// changes and the result is `false`.
    pub fn step(&mut self) -> (advancing: bool)
        requires
            old(self).wf(),
        ensures
            final(self).wf(),
            advancing == (!old(self)@.paused && old(self)@.multiplier < old(self)@.num_points
                * UNIT),
            advancing ==> final(self)@ == (SceneView {
                multiplier: old(self)@.multiplier + old(self)@.step_size,
                ..old(self)@
            }),
            !advancing ==> final(self)@ == old(self)@,
            old(self)@.paused ==> final(self)@ == old(self)@ && !advancing,
    {
        let limit: u64 = self.num_points as u64 * UNIT;
        if !self.paused && self.multiplier < limit {
            self.multiplier = self.multiplier + self.step_size;
            true
        } else {
            false
        }
    }

    /// Pans the circle by a pointer or touch movement, in millionths of a
    /// pixel; each coordinate is held to the range of `i64`.
    pub fn drag(&mut self, dx: i64, dy: i64)
        requires
            old(self).wf(),
        ensures
            final(self).wf(),
            final(self)@ == (SceneView {
                offset_x: clamp_i64(old(self)@.offset_x + dx),
                offset_y: clamp_i64(old(self)@.offset_y + dy),
                ..old(self)@
            }),
    {
        self.offset_x = add_clamped(self.offset_x, dx);
        self.offset_y = add_clamped(self.offset_y, dy);
    }

    /// Scales the zoom by `factor` (in millionths, of any sign); the zoom
    /// never falls below [`ZOOM_FLOOR`].
    pub fn zoom_by(&mut self, factor: i64)
        requires
            old(self).wf(),
        ensures
            final(self).wf(),
            final(self)@ == (SceneView {
                zoom: scaled_zoom(old(self)@.zoom as int, factor as int) as nat,
                ..old(self)@
            }),
            final(self)@.zoom >= ZOOM_FLOOR,
            final(self)@.zoom > 0,
    {
        self.zoom = scale_zoom(self.zoom, factor);
    }

    /// Zooms by `factor` about the pointer: the zoom is scaled as by
    /// [`Self::zoom_by`], and the offset moves so that the point under the
    /// pointer stays there. `center` is the middle of the view, all
    /// positions in millionths of a pixel.
    pub fn zoom_toward(
        &mut self,
        factor: i64,
        center_x: i64,
        center_y: i64,
        pointer_x: i64,
        pointer_y: i64,
    )
        requires
            old(self).wf(),
        ensures
            final(self).wf(),
            final(self)@ == (SceneView {
                zoom: scaled_zoom(old(self)@.zoom as int, factor as int) as nat,
                offset_x: clamp_i64(
                    old(self)@.offset_x + focal_shift(
                        center_x as int,
                        old(self)@.offset_x,
                        pointer_x as int,
                        factor as int,
                    ),
                ),
                offset_y: clamp_i64(
                    old(self)@.offset_y + focal_shift(
                        center_y as int,
                        old(self)@.offset_y,
                        pointer_y as int,
                        factor as int,
                    ),
                ),
                ..old(self)@
            }),
            final(self)@.zoom > 0,
    {
        self.zoom_by(factor);
        self.offset_x = shift_for_zoom(self.offset_x, center_x, pointer_x, factor);
        self.offset_y = shift_for_zoom(self.offset_y, center_y, pointer_y, factor);
    }

    /// Turns the circle by `delta` millionths of a turn, either way; the
    /// rotation stays within one turn.
    pub fn rotate(&mut self, delta: i64)
        requires
            old(self).wf(),
        ensures
            final(self).wf(),
            final(self)@ == (SceneView {
                rotation: ((old(self)@.rotation + delta) % (UNIT as int)) as nat,
                ..old(self)@
            }),
    {
        self.rotation = turn(self.rotation, delta);
    }

    /// A two-finger gesture: scales the zoom, turns the circle and pans it.
    pub fn handle_multitouch(&mut self, zoom_factor: i64, rotation_delta: i64, dx: i64, dy: i64)
        requires
            old(self).wf(),
        ensures
            final(self).wf(),
            final(self)@ == (SceneView {
                zoom: scaled_zoom(old(self)@.zoom as int, zoom_factor as int) as nat,
                rotation: ((old(self)@.rotation + rotation_delta) % (UNIT as int)) as nat,
                offset_x: clamp_i64(old(self)@.offset_x + dx),
                offset_y: clamp_i64(old(self)@.offset_y + dy),
                ..old(self)@
            }),
            final(self)@.zoom > 0,
    {
        self.zoom_by(zoom_factor);
        self.rotate(rotation_delta);
        self.drag(dx, dy);
    }

    /// The index that each point is joined to, in point order: point `i` is
    /// joined to `floor(i * multiplier) mod num_points`.
    pub fn line_targets(&self) -> (targets: Vec<usize>)
        ensures
            targets@.len() == self@.num_points,
            forall|i: int|
                0 <= i < self@.num_points ==> #[trigger] targets@[i] == paired_index_of(
                    i,
                    self@.multiplier as int,
                    self@.num_points as int,
                ),
    {
        crate::geometry::line_targets(self.num_points, self.multiplier)
    }

    /// The angles of the perimeter points, in millionths of a turn, point 0
    /// at the rotation.
    pub fn point_angles(&self) -> (angles: Vec<u64>)
        ensures
            angles@ == point_angles_of(self@.num_points, self@.rotation),
    {
        crate::geometry::point_angles(self.num_points, self.rotation)
    }

    /// Radius of the drawn circle, in millionths of a pixel, for a view whose
    /// half extents are given in the same unit: see [`radius_of`].
    pub fn circle_radius(&self, half_width: u64, half_height: u64) -> (r: u64)
        ensures
            r == radius_of(half_width as int, half_height as int, self@.zoom as int),
    {
        let half: u64 = if half_width < half_height {
            half_width
        } else {
            half_height
        };
        assert((half as int) * (self.zoom as int) <= u128::MAX) by (nonlinear_arith)
            requires
                half <= u64::MAX,
                self.zoom <= u64::MAX,
        ;
        let r: u128 = (half as u128) * (self.zoom as u128) / (UNIT as u128);
        if r > u64::MAX as u128 {
            u64::MAX
        } else {
            r as u64
        }
    }

    /// Whether the perimeter point markers are drawn: only with a radius
    /// above zero.
    pub fn shows_points(&self) -> (r: bool)
        ensures
            r == (self@.point_radius > 0),
    {
        self.point_radius > 0
    }

    /// Sets the number of points, held to at most [`MAX_POINTS`]; a
    /// multiplier above the new count is brought down to it.
    pub fn set_num_points(&mut self, num_points: usize)
        requires
            old(self).wf(),
        ensures
            final(self).wf(),
            ({
                let n = if num_points <= MAX_POINTS {
                    num_points as nat
                } else {
                    MAX_POINTS as nat
                };
                let limit = n * (UNIT as nat);
                final(self)@ == (SceneView {
                    num_points: n,
                    multiplier: if old(self)@.multiplier <= limit {
                        old(self)@.multiplier
                    } else {
                        limit
                    },
                    ..old(self)@
                })
            }),
    {
        let n: usize = if num_points <= MAX_POINTS {
            num_points
        } else {
            MAX_POINTS
        };
        let limit: u64 = n as u64 * UNIT;
        self.num_points = n;
        if self.multiplier > limit {
            self.multiplier = limit;
        }
    }

    /// Sets the multiplier (in millionths), held to the range from zero to
    /// the number of points.
    pub fn set_multiplier(&mut self, multiplier: u64)
        requires
            old(self).wf(),
        ensures
            final(self).wf(),
            final(self)@ == (SceneView {
                multiplier: if multiplier <= old(self)@.num_points * UNIT {
                    multiplier as nat
                } else {
                    old(self)@.num_points * (UNIT as nat)
                },
                ..old(self)@
            }),
    {
        let limit: u64 = self.num_points as u64 * UNIT;
        self.multiplier = if multiplier <= limit {
            multiplier
        } else {
            limit
        };
    }

    /// Sets the step size (in millionths), held to at most one.
    pub fn set_step_size(&mut self, step_size: u64)
        requires
            old(self).wf(),
        ensures
            final(self).wf(),
            final(self)@ == (SceneView {
                step_size: if step_size <= UNIT {
                    step_size as nat
                } else {
                    UNIT as nat
                },
                ..old(self)@
            }),
    {
        self.step_size = if step_size <= UNIT {
            step_size
        } else {
            UNIT
        };
    }

    /// Sets the line width (in millionths of a pixel), held to at most
    /// [`MAX_STROKE`].
    pub fn set_stroke(&mut self, stroke: u64)
        requires
            old(self).wf(),
        ensures
            final(self).wf(),
            final(self)@ == (SceneView {
                stroke: if stroke <= MAX_STROKE {
                    stroke as nat
                } else {
                    MAX_STROKE as nat
                },
                ..old(self)@
            }),
    {
        self.stroke = if stroke <= MAX_STROKE {
            stroke
        } else {
            MAX_STROKE
        };
    }

    /// Sets the radius of the point markers (in millionths of a pixel), held
    /// to at most [`MAX_POINT_RADIUS`]; zero hides them.
    pub fn set_point_radius(&mut self, point_radius: u64)
        requires
            old(self).wf(),
        ensures
            final(self).wf(),
            final(self)@ == (SceneView {
                point_radius: if point_radius <= MAX_POINT_RADIUS {
                    point_radius as nat
                } else {
                    MAX_POINT_RADIUS as nat
                },
                ..old(self)@
            }),
    {
        self.point_radius = if point_radius <= MAX_POINT_RADIUS {
            point_radius
        } else {
            MAX_POINT_RADIUS
        };
    }

    /// Starts the animation.
    pub fn play(&mut self)
        requires
            old(self).wf(),
        ensures
            final(self).wf(),
            final(self)@ == (SceneView { paused: false, ..old(self)@ }),
    {
        self.paused = false;
    }

    /// Stops the animation.
    pub fn pause(&mut self)
        requires
            old(self).wf(),
        ensures
            final(self).wf(),
            final(self)@ == (SceneView { paused: true, ..old(self)@ }),
    {
        self.paused = true;
    }

    /// Moves to the next colour mode.
    pub fn cycle_color_mode(&mut self)
        requires
            old(self).wf(),
        ensures
            final(self).wf(),
            final(self)@ == (SceneView {
                color_mode: next_mode_of(old(self)@.color_mode),
                ..old(self)@
            }),
    {
        self.color_mode = self.color_mode.next();
    }

    /// Sets the colour of the lines in monochrome mode, and of the circle.
    pub fn set_line_color(&mut self, color: Rgba)
        requires
            old(self).wf(),
        ensures
            final(self).wf(),
            final(self)@ == (SceneView { line_color: color, ..old(self)@ }),
    {
        self.line_color = color;
    }

    /// Sets the background colour.
    pub fn set_background_color(&mut self, color: Rgba)
        requires
            old(self).wf(),
        ensures
            final(self).wf(),
            final(self)@ == (SceneView { background_color: color, ..old(self)@ }),
    {
        self.background_color = color;
    }

    /// Sets the colour of the point markers.
    pub fn set_point_color(&mut self, color: Rgba)
        requires
            old(self).wf(),
        ensures
            final(self).wf(),
            final(self)@ == (SceneView { point_color: color, ..old(self)@ }),
    {
        self.point_color = color;
    }

    /// Number of perimeter points.
    pub fn num_points(&self) -> (r: usize)
        ensures
            r == self@.num_points,
    {
        self.num_points
    }

    /// The multiplier, in millionths.
    pub fn multiplier(&self) -> (r: u64)
        ensures
            r == self@.multiplier,
    {
        self.multiplier
    }

    /// The step size, in millionths.
    pub fn step_size(&self) -> (r: u64)
        ensures
            r == self@.step_size,
    {
        self.step_size
    }

    /// Angle of point 0, in millionths of a turn.
    pub fn rotation(&self) -> (r: u64)
        ensures
            r == self@.rotation,
    {
        self.rotation
    }

    /// The zoom, in millionths.
    pub fn zoom(&self) -> (r: u64)
        ensures
            r == self@.zoom,
    {
        self.zoom
    }

    /// The pan offset, in millionths of a pixel.
    pub fn offset(&self) -> (r: (i64, i64))
        ensures
            r.0 == self@.offset_x,
            r.1 == self@.offset_y,
    {
        (self.offset_x, self.offset_y)
    }

    /// Whether the animation is paused.
    pub fn is_paused(&self) -> (r: bool)
        ensures
            r == self@.paused,
    {
        self.paused
    }

    /// How lines are coloured.
    pub fn color_mode(&self) -> (r: ColorMode)
        ensures
            r == self@.color_mode,
    {
        self.color_mode
    }

    /// The line width, in millionths of a pixel.
    pub fn stroke(&self) -> (r: u64)
        ensures
            r == self@.stroke,
    {
        self.stroke
    }

    /// The radius of the point markers, in millionths of a pixel.
    pub fn point_radius(&self) -> (r: u64)
        ensures
            r == self@.point_radius,
    {
        self.point_radius
    }

    /// The line colour.
    pub fn line_color(&self) -> (r: Rgba)
        ensures
            r == self@.line_color,
    {
        self.line_color
    }

    /// The background colour.
    pub fn background_color(&self) -> (r: Rgba)
        ensures
            r == self@.background_color,
    {
        self.background_color
    }

    /// The colour of the point markers.
    pub fn point_color(&self) -> (r: Rgba)
        ensures
            r == self@.point_color,
    {
        self.point_color
    }
}

} // verus!
