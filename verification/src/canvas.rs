//! A software canvas for drawing the device skin: filled rounded
//! rectangles (flat or with a vertical gradient), circles, rings, triangles,
//! lines, dot grids, speaker slats and 5x7 pixel-font text, plus resampling to
//! the window size.

use vstd::prelude::*;
use crate::glyphs::{glyph, glyph_rows};
use crate::legend::chars_of;
use crate::machine::{ascii_upper, ascii_upper_exec};

verus! {

/// The window background colour of a fresh canvas.
pub const WINDOW_BACKGROUND: u32 = 0xF0F0F0;
pub const WHITE: u32 = 0xFFFFFF;
pub const BLACK: u32 = 0x000000;

/// The largest canvas side.
pub const CANVAS_LIMIT: usize = 4096;

/// An axis-aligned rectangle in canvas pixels.
#[derive(Clone, Copy, Debug, PartialEq, Eq, Structural)]
pub struct Rect {
    pub x: usize,
    pub y: usize,
    pub width: usize,
    pub height: usize,
}

/// `a - b`, or 0 when `b` exceeds `a`.
pub open spec fn sat_sub(a: int, b: int) -> int {
    if a >= b {
        a - b
    } else {
        0
    }
}

pub open spec fn min2(a: int, b: int) -> int {
    if a <= b {
        a
    } else {
        b
    }
}

/// The rectangle of the given size centred on a point, clamped at the top
/// and left canvas edges.
pub open spec fn centered_rect(center_x: usize, center_y: usize, width: usize, height: usize) -> Rect {
    Rect {
        x: sat_sub(center_x as int, (width / 2) as int) as usize,
        y: sat_sub(center_y as int, (height / 2) as int) as usize,
        width,
        height,
    }
}

impl Rect {
    /// The rectangle of the given size centred on a point.
    pub fn centered(center_x: usize, center_y: usize, width: usize, height: usize) -> (r: Rect)
        ensures
            r == centered_rect(center_x, center_y, width, height),
    {
        Rect {
            x: center_x.saturating_sub(width / 2),
            y: center_y.saturating_sub(height / 2),
            width,
            height,
        }
    }
}

/// One colour channel of a weighted mix.
pub open spec fn mix_channel(first: u32, second: u32, first_weight: u32, second_weight: u32, shift: u32) -> u32 {
    ((((first >> shift) & 0xFFu32) * first_weight + ((second >> shift) & 0xFFu32) * second_weight) / (
    first_weight + second_weight)) as u32
}

/// The weighted average of two RGB colours, channel by channel (rounded down).
pub open spec fn mix_spec(first: u32, second: u32, first_weight: u32, second_weight: u32) -> u32 {
    (mix_channel(first, second, first_weight, second_weight, 16) << 16u32) | (mix_channel(
        first,
        second,
        first_weight,
        second_weight,
        8,
    ) << 8u32) | mix_channel(first, second, first_weight, second_weight, 0)
}

/// The weighted average of two RGB colours.
pub fn mix(first: u32, second: u32, first_weight: u32, second_weight: u32) -> (r: u32)
    requires
        0 < first_weight + second_weight,
        (first_weight + second_weight) * 255 <= u32::MAX,
    ensures
        r == mix_spec(first, second, first_weight, second_weight),
{
    let total = first_weight + second_weight;
    let r16 = mix_part(first, second, first_weight, second_weight, 16);
    let r8 = mix_part(first, second, first_weight, second_weight, 8);
    let r0 = mix_part(first, second, first_weight, second_weight, 0);
    (r16 << 16) | (r8 << 8) | r0
}

fn mix_part(first: u32, second: u32, first_weight: u32, second_weight: u32, shift: u32) -> (r: u32)
    requires
        0 < first_weight + second_weight,
        (first_weight + second_weight) * 255 <= u32::MAX,
        shift < 32,
    ensures
        r == mix_channel(first, second, first_weight, second_weight, shift),
        r <= 255,
{
    let a = (first >> shift) & 0xFF;
    let b = (second >> shift) & 0xFF;
    assert(a <= 255) by (bit_vector)
        requires
            a == (first >> shift) & 0xFFu32,
    ;
    assert(b <= 255) by (bit_vector)
        requires
            b == (second >> shift) & 0xFFu32,
    ;
    assert(a * first_weight <= 255 * first_weight) by (nonlinear_arith)
        requires
            a <= 255,
    ;
    assert(b * second_weight <= 255 * second_weight) by (nonlinear_arith)
        requires
            b <= 255,
    ;
    let total = first_weight + second_weight;
    let r = (a * first_weight + b * second_weight) / total;
    assert(r <= 255) by (nonlinear_arith)
        requires
            r == (a * first_weight + b * second_weight) / (total as int),
            a * first_weight + b * second_weight <= 255 * total,
            total > 0,
    ;
    r
}

/// How a filled rectangle is coloured: one colour, or a vertical gradient
/// from its top row to its bottom row.
#[derive(Clone, Copy, Debug, PartialEq, Eq, Structural)]
pub enum Paint {
    Solid(u32),
    Gradient(u32, u32),
}

/// A primitive that colours a set of canvas pixels.
#[derive(Clone, Copy, Debug, PartialEq, Eq, Structural)]
pub enum Shape {
    /// A rectangle with rounded corners of the given radius.
    RoundedRect(Rect, usize, Paint),
    /// The right half of such a rectangle.
    RightRoundedRect(Rect, usize, Paint),
    /// A filled disc: centre, radius, colour.
    Circle(usize, usize, usize, u32),
    /// An annulus: centre, outer radius, thickness, colour.
    Ring(usize, usize, usize, usize, u32),
    /// An isosceles triangle: centre, radius, pointing direction, colour.
    Triangle(usize, usize, usize, isize, isize, u32),
}

/// The corner radius actually used for a rectangle.
pub open spec fn clamped_radius(rect: Rect, radius: usize) -> int {
    min2(min2(radius as int, (rect.width / 2) as int), (rect.height / 2) as int)
}

/// Distance past the rounded-corner centre along one axis.
pub open spec fn corner_dx(x: int, start: int, length: int, radius: int) -> int {
    if x < start + radius {
        start + radius - x
    } else {
        sat_sub(x, start + length - radius - 1)
    }
}

/// Whether a point of the rectangle lies inside its rounded corners.
pub open spec fn within_corners(dx: int, dy: int, radius: int) -> bool {
    dx == 0 || dy == 0 || dx * dx + dy * dy <= radius * radius
}

/// The edge function of a triangle side: the sign tells the side of the point.
pub open spec fn edge(x: int, y: int, first: (int, int), second: (int, int)) -> int {
    (x - second.0) * (first.1 - second.1) - (first.0 - second.0) * (y - second.1)
}

/// The three corners of a triangle: its tip, then both ends of its base.
pub open spec fn triangle_points(cx: int, cy: int, radius: int, dx: int, dy: int) -> Seq<(int, int)> {
    let perpendicular = (-dy, dx);
    let tip = (cx + dx * radius, cy + dy * radius);
    let base_center = (cx - dx * radius, cy - dy * radius);
    seq![
        tip,
        (base_center.0 + perpendicular.0 * radius, base_center.1 + perpendicular.1 * radius),
        (base_center.0 - perpendicular.0 * radius, base_center.1 - perpendicular.1 * radius),
    ]
}

/// Whether a canvas pixel belongs to a shape.
pub open spec fn covers(shape: Shape, x: int, y: int) -> bool {
    match shape {
        Shape::RoundedRect(r, radius, _) => {
            let rc = clamped_radius(r, radius);
            &&& r.x <= x < r.x + r.width
            &&& r.y <= y < r.y + r.height
            &&& within_corners(corner_dx(x, r.x as int, r.width as int, rc), corner_dx(y, r.y as int, r.height as int, rc), rc)
        },
        Shape::RightRoundedRect(r, radius, _) => {
            let rc = clamped_radius(r, radius);
            &&& r.x + r.width / 2 <= x < r.x + r.width
            &&& r.y <= y < r.y + r.height
            &&& within_corners(sat_sub(x, r.x + r.width - rc - 1), corner_dx(y, r.y as int, r.height as int, rc), rc)
        },
        Shape::Circle(cx, cy, radius, _) => (x - cx) * (x - cx) + (y - cy) * (y - cy) <= radius * radius,
        Shape::Ring(cx, cy, radius, thickness, _) => {
            let distance = (x - cx) * (x - cx) + (y - cy) * (y - cy);
            let inner = sat_sub(radius as int, thickness as int);
            distance <= radius * radius && distance > inner * inner
        },
        Shape::Triangle(cx, cy, radius, dx, dy, _) => {
            let p = triangle_points(cx as int, cy as int, radius as int, dx as int, dy as int);
            let s0 = edge(x, y, p[0], p[1]);
            let s1 = edge(x, y, p[1], p[2]);
            let s2 = edge(x, y, p[2], p[0]);
            &&& cx - radius <= x <= cx + radius
            &&& cy - radius <= y <= cy + radius
            &&& ((s0 >= 0 && s1 >= 0 && s2 >= 0) || (s0 <= 0 && s1 <= 0 && s2 <= 0))
        },
    }
}

/// The colour a paint gives the row `y` of `rect`.
pub open spec fn paint_color(rect: Rect, paint: Paint, y: int) -> u32 {
    match paint {
        Paint::Solid(color) => color,
        Paint::Gradient(top, bottom) => {
            let span = sat_sub(if rect.height >= 1 { rect.height as int } else { 1 }, 1);
            let weight = min2(sat_sub(y, rect.y as int), span);
            mix_spec(top, bottom, (span - weight) as u32, weight as u32)
        },
    }
}

/// The colour a shape gives its pixels on row `y`.
pub open spec fn shade(shape: Shape, y: int) -> u32 {
    match shape {
        Shape::RoundedRect(r, _, paint) => paint_color(r, paint, y),
        Shape::RightRoundedRect(r, _, paint) => paint_color(r, paint, y),
        Shape::Circle(_, _, _, color) => color,
        Shape::Ring(_, _, _, _, color) => color,
        Shape::Triangle(_, _, _, _, _, color) => color,
    }
}

/// Arguments whose arithmetic stays inside the integer types: a rectangle's
/// far edges fit in a `usize`, and a gradient (mixed with `u32` weights) has
/// at least two rows and at most the rows whose weights `mix` can sum; the
/// bounding box of a disc, ring or arrow fits in a `usize`, and an arrow's
/// edge tests, on a canvas up to `CANVAS_LIMIT` wide, fit in an `isize`.
pub open spec fn shape_ok(shape: Shape) -> bool {
    match shape {
        Shape::RoundedRect(r, radius, paint) | Shape::RightRoundedRect(r, radius, paint) => {
            &&& r.x + r.width <= usize::MAX
            &&& r.y + r.height <= usize::MAX
            &&& paint is Gradient ==> 2 <= r.height && (r.height - 1) * 255 <= u32::MAX
        },
        Shape::Circle(cx, cy, radius, _) | Shape::Ring(cx, cy, radius, _, _) => {
            &&& cx + 2 * radius + 1 <= usize::MAX
            &&& cy + 2 * radius + 1 <= usize::MAX
        },
        Shape::Triangle(cx, cy, radius, dx, dy, _) => {
            &&& arrow_fits(radius)
            &&& cx + radius + 1 <= usize::MAX
            &&& cy + radius + 1 <= usize::MAX
            &&& -1 <= dx <= 1
            &&& -1 <= dy <= 1
        },
    }
}

/// An arrow radius whose edge tests, for points on a canvas up to
/// `CANVAS_LIMIT` wide, fit in an `isize`.
pub open spec fn arrow_fits(radius: usize) -> bool {
    80 * (radius + 0x1000) * (radius + 0x1000) <= isize::MAX
}

/// Whether `shape` covers the pixel with row-major index `i` on a canvas `w` pixels wide.
pub open spec fn covers_index(shape: Shape, w: int, i: int) -> bool {
    covers(shape, i % w, i / w)
}

/// The pixels of a canvas in row-major order.
pub struct CanvasView {
    pub width: nat,
    pub height: nat,
    pub pixels: Seq<u32>,
}

/// A canvas after drawing one shape on it.
pub open spec fn draw(c: CanvasView, shape: Shape) -> CanvasView {
    CanvasView {
        pixels: Seq::new(
            c.pixels.len(),
            |i: int|
                if covers_index(shape, c.width as int, i) {
                    shade(shape, i / (c.width as int))
                } else {
                    c.pixels[i]
                },
        ),
        ..c
    }
}

/// A canvas after drawing `shapes` on it in order.
pub open spec fn draw_all(c: CanvasView, shapes: Seq<Shape>) -> CanvasView
    decreases shapes.len(),
{
    if shapes.len() == 0 {
        c
    } else {
        draw(draw_all(c, shapes.drop_last()), shapes.last())
    }
}

/// Drawing a concatenation draws its parts in turn.
pub proof fn lemma_draw_all_append(c: CanvasView, a: Seq<Shape>, b: Seq<Shape>)
    ensures
        draw_all(c, a + b) == draw_all(draw_all(c, a), b),
    decreases b.len(),
{
    if b.len() == 0 {
        assert(a + b =~= a);
    } else {
        assert((a + b).drop_last() =~= a + b.drop_last());
        lemma_draw_all_append(c, a, b.drop_last());
    }
}

/// Drawing keeps the canvas size.
pub proof fn lemma_draw_all_size(c: CanvasView, shapes: Seq<Shape>)
    ensures
        draw_all(c, shapes).width == c.width,
        draw_all(c, shapes).height == c.height,
        draw_all(c, shapes).pixels.len() == c.pixels.len(),
    decreases shapes.len(),
{
    if shapes.len() > 0 {
        lemma_draw_all_size(c, shapes.drop_last());
    }
}

proof fn lemma_pixel_index(x: int, y: int, w: int, h: int)
    requires
        0 <= x < w,
        0 <= y < h,
        w <= CANVAS_LIMIT,
        h <= CANVAS_LIMIT,
    ensures
        0 <= y * w + x < w * h,
        w * h <= CANVAS_LIMIT * CANVAS_LIMIT,
        (y * w + x) / w == y,
        (y * w + x) % w == x,
{
    assert(0 <= y * w + x < w * h) by (nonlinear_arith)
        requires
            0 <= x < w,
            0 <= y < h,
    ;
    assert(w * h <= CANVAS_LIMIT * CANVAS_LIMIT) by (nonlinear_arith)
        requires
            0 <= w <= CANVAS_LIMIT,
            0 <= h <= CANVAS_LIMIT,
    ;
    vstd::arithmetic::div_mod::lemma_fundamental_div_mod_converse(y * w + x, w, y, x);
}

proof fn lemma_index_split(i: int, w: int, h: int)
    requires
        0 <= i < w * h,
        w > 0,
    ensures
        0 <= i % w < w,
        0 <= i / w < h,
{
    assert(0 <= i / w < h) by (nonlinear_arith)
        requires
            0 <= i < w * h,
            w > 0,
    ;
    assert(0 <= i % w < w) by (nonlinear_arith)
        requires
            w > 0,
    ;
}

proof fn lemma_square_bound(d: int, r: int)
    requires
        r >= 0,
        d * d <= r * r,
    ensures
        -r <= d <= r,
{
    if d > r {
        assert(d * d > r * r) by (nonlinear_arith)
            requires
                d > r,
                r >= 0,
        ;
    }
    if d < -r {
        assert(d * d > r * r) by (nonlinear_arith)
            requires
                d < -r,
                r >= 0,
        ;
    }
}

/// The columns `[x0, x1)` and rows `[y0, y1)` outside which a shape covers nothing.
pub open spec fn shape_window(shape: Shape) -> (int, int, int, int) {
    match shape {
        Shape::RoundedRect(r, _, _) => (r.x as int, r.x + r.width, r.y as int, r.y + r.height),
        Shape::RightRoundedRect(r, _, _) => (r.x + r.width / 2, r.x + r.width, r.y as int, r.y + r.height),
        Shape::Circle(cx, cy, radius, _) | Shape::Ring(cx, cy, radius, _, _) => {
            let x0 = sat_sub(cx as int, radius as int);
            let y0 = sat_sub(cy as int, radius as int);
            (x0, x0 + 2 * radius + 1, y0, y0 + 2 * radius + 1)
        },
        Shape::Triangle(cx, cy, radius, _, _, _) => (
            sat_sub(cx as int, radius as int),
            cx + radius + 1,
            sat_sub(cy as int, radius as int),
            cy + radius + 1,
        ),
    }
}

proof fn lemma_window_contains(shape: Shape, x: int, y: int)
    requires
        x >= 0,
        y >= 0,
        covers(shape, x, y),
    ensures
        shape_window(shape).0 <= x < shape_window(shape).1,
        shape_window(shape).2 <= y < shape_window(shape).3,
{
    match shape {
        Shape::Circle(cx, cy, radius, _) => {
            assert((x - cx) * (x - cx) >= 0) by (nonlinear_arith);
            assert((y - cy) * (y - cy) >= 0) by (nonlinear_arith);
            lemma_square_bound(x - cx, radius as int);
            lemma_square_bound(y - cy, radius as int);
        },
        Shape::Ring(cx, cy, radius, _, _) => {
            assert((x - cx) * (x - cx) >= 0) by (nonlinear_arith);
            assert((y - cy) * (y - cy) >= 0) by (nonlinear_arith);
            lemma_square_bound(x - cx, radius as int);
            lemma_square_bound(y - cy, radius as int);
        },
        _ => {},
    }
}

fn window(shape: Shape) -> (r: (usize, usize, usize, usize))
    requires
        shape_ok(shape),
    ensures
        r.0 == shape_window(shape).0,
        r.1 == shape_window(shape).1,
        r.2 == shape_window(shape).2,
        r.3 == shape_window(shape).3,
{
    match shape {
        Shape::RoundedRect(r, _, _) => (r.x, r.x + r.width, r.y, r.y + r.height),
        Shape::RightRoundedRect(r, _, _) => (r.x + r.width / 2, r.x + r.width, r.y, r.y + r.height),
        Shape::Circle(cx, cy, radius, _) | Shape::Ring(cx, cy, radius, _, _) => {
            let x0 = cx.saturating_sub(radius);
            let y0 = cy.saturating_sub(radius);
            (x0, x0 + 2 * radius + 1, y0, y0 + 2 * radius + 1)
        },
        Shape::Triangle(cx, cy, radius, _, _, _) => (
            cx.saturating_sub(radius),
            cx + radius + 1,
            cy.saturating_sub(radius),
            cy + radius + 1,
        ),
    }
}

fn corner_dx_exec(x: usize, start: usize, length: usize, radius: usize) -> (r: usize)
    requires
        start <= x < start + length,
        radius <= length / 2,
        start + length <= usize::MAX,
    ensures
        r == corner_dx(x as int, start as int, length as int, radius as int),
        r <= radius,
{
    if x < start + radius {
        start + radius - x
    } else {
        x.saturating_sub(start + length - radius - 1)
    }
}

fn within_corners_exec(dx: usize, dy: usize, radius: usize) -> (r: bool)
    requires
        dx <= radius,
        dy <= radius,
    ensures
        r == within_corners(dx as int, dy as int, radius as int),
{
    if dx == 0 || dy == 0 {
        return true;
    }
    sum_of_squares_at_most(dx, dy, radius)
}

/// The distance between two coordinates, whose square is that of their difference.
fn distance(a: usize, b: usize) -> (r: usize)
    ensures
        r == abs_diff(a as int, b as int),
        r * r == (a - b) * (a - b),
{
    let r = if a >= b { a - b } else { b - a };
    assert(r * r == (a - b) * (a - b)) by (nonlinear_arith)
        requires
            r == a - b || r == b - a,
    ;
    r
}

/// Whether `a * a + b * b <= c * c`, computed without overflow.
fn sum_of_squares_at_most(a: usize, b: usize, c: usize) -> (r: bool)
    ensures
        r == (a * a + b * b <= c * c),
{
    assert(a * a <= 0xFFFF_FFFF_FFFF_FFFFu128 * 0xFFFF_FFFF_FFFF_FFFFu128 && b * b <= 0xFFFF_FFFF_FFFF_FFFFu128
        * 0xFFFF_FFFF_FFFF_FFFFu128 && c * c <= 0xFFFF_FFFF_FFFF_FFFFu128 * 0xFFFF_FFFF_FFFF_FFFFu128)
        by (nonlinear_arith)
        requires
            0 <= a <= 0xFFFF_FFFF_FFFF_FFFFu128,
            0 <= b <= 0xFFFF_FFFF_FFFF_FFFFu128,
            0 <= c <= 0xFFFF_FFFF_FFFF_FFFFu128,
    ;
    let a2: u128 = (a as u128) * (a as u128);
    let b2: u128 = (b as u128) * (b as u128);
    let c2: u128 = (c as u128) * (c as u128);
    a2 <= c2 && b2 <= c2 - a2
}

fn clamped_radius_exec(rect: Rect, radius: usize) -> (r: usize)
    ensures
        r == clamped_radius(rect, radius),
{
    let a = if radius <= rect.width / 2 {
        radius
    } else {
        rect.width / 2
    };
    if a <= rect.height / 2 {
        a
    } else {
        rect.height / 2
    }
}

fn covers_exec(shape: Shape, x: usize, y: usize) -> (r: bool)
    requires
        shape_ok(shape),
        x < CANVAS_LIMIT,
        y < CANVAS_LIMIT,
        shape_window(shape).0 <= x < shape_window(shape).1,
        shape_window(shape).2 <= y < shape_window(shape).3,
    ensures
        r == covers(shape, x as int, y as int),
{
    match shape {
        Shape::RoundedRect(r, radius, _) => {
            let rc = clamped_radius_exec(r, radius);
            let dx = corner_dx_exec(x, r.x, r.width, rc);
            let dy = corner_dx_exec(y, r.y, r.height, rc);
            within_corners_exec(dx, dy, rc)
        },
        Shape::RightRoundedRect(r, radius, _) => {
            let rc = clamped_radius_exec(r, radius);
            let dx = x.saturating_sub(r.x + r.width - rc - 1);
            assert(dx <= rc);
            let dy = corner_dx_exec(y, r.y, r.height, rc);
            within_corners_exec(dx, dy, rc)
        },
        Shape::Circle(cx, cy, radius, _) => {
            let dx = distance(x, cx);
            let dy = distance(y, cy);
            sum_of_squares_at_most(dx, dy, radius)
        },
        Shape::Ring(cx, cy, radius, thickness, _) => {
            let inner = radius.saturating_sub(thickness);
            let dx = distance(x, cx);
            let dy = distance(y, cy);
            sum_of_squares_at_most(dx, dy, radius) && !sum_of_squares_at_most(dx, dy, inner)
        },
        Shape::Triangle(cx, cy, radius, dx, dy, _) => {
            let ghost big = radius + 0x1000;
            assert(cx < big && cy < big);
            assert(3 * big <= 80 * big * big) by (nonlinear_arith)
                requires
                    big >= 1,
            ;
            let cxi = cx as isize;
            let cyi = cy as isize;
            let ri = radius as isize;
            let xi = x as isize;
            let yi = y as isize;
            assert(-ri <= dx * ri <= ri && -ri <= dy * ri <= ri && -ri <= (-dy) * ri <= ri) by (nonlinear_arith)
                requires
                    -1 <= dx <= 1,
                    -1 <= dy <= 1,
                    0 <= ri,
            ;
            let tip = (cxi + dx * ri, cyi + dy * ri);
            let base = (cxi - dx * ri, cyi - dy * ri);
            let p1 = (base.0 + (-dy) * ri, base.1 + dx * ri);
            let p2 = (base.0 - (-dy) * ri, base.1 - dx * ri);
            let ghost p = triangle_points(cx as int, cy as int, radius as int, dx as int, dy as int);
            assert(p[0] == (tip.0 as int, tip.1 as int));
            assert(p[1] == (p1.0 as int, p1.1 as int));
            assert(p[2] == (p2.0 as int, p2.1 as int));
            let s0 = edge_exec(xi, yi, tip, p1, Ghost(big));
            let s1 = edge_exec(xi, yi, p1, p2, Ghost(big));
            let s2 = edge_exec(xi, yi, p2, tip, Ghost(big));
            xi >= cxi - ri && xi <= cxi + ri && yi >= cyi - ri && yi <= cyi + ri
                && ((s0 >= 0 && s1 >= 0 && s2 >= 0) || (s0 <= 0 && s1 <= 0 && s2 <= 0))
        },
    }
}

fn edge_exec(x: isize, y: isize, first: (isize, isize), second: (isize, isize), Ghost(bound): Ghost<int>) -> (r: isize)
    requires
        1 <= bound,
        80 * bound * bound <= isize::MAX,
        -3 * bound <= x <= 3 * bound,
        -3 * bound <= y <= 3 * bound,
        -3 * bound <= first.0 <= 3 * bound,
        -3 * bound <= first.1 <= 3 * bound,
        -3 * bound <= second.0 <= 3 * bound,
        -3 * bound <= second.1 <= 3 * bound,
    ensures
        r == edge(x as int, y as int, (first.0 as int, first.1 as int), (second.0 as int, second.1 as int)),
{
    let ghost sq = bound * bound;
    assert(80 * bound * bound == 80 * sq && 6 * bound <= 80 * sq) by (nonlinear_arith)
        requires
            1 <= bound,
            sq == bound * bound,
    ;
    let a = x - second.0;
    let b = first.1 - second.1;
    let c = first.0 - second.0;
    let d = y - second.1;
    assert(-36 * sq <= a * b <= 36 * sq && -36 * sq <= c * d <= 36 * sq) by (nonlinear_arith)
        requires
            -6 * bound <= a <= 6 * bound,
            -6 * bound <= b <= 6 * bound,
            -6 * bound <= c <= 6 * bound,
            -6 * bound <= d <= 6 * bound,
            sq == bound * bound,
    ;
    a * b - c * d
}

fn paint_color_exec(rect: Rect, paint: Paint, y: usize) -> (r: u32)
    requires
        paint is Gradient ==> rect.height >= 2 && (rect.height - 1) * 255 <= u32::MAX,
    ensures
        r == paint_color(rect, paint, y as int),
{
    match paint {
        Paint::Solid(color) => color,
        Paint::Gradient(top, bottom) => {
            let span = (if rect.height >= 1 { rect.height } else { 1 }) - 1;
            let row = y.saturating_sub(rect.y);
            let weight = if row <= span {
                row
            } else {
                span
            };
            mix(top, bottom, (span - weight) as u32, weight as u32)
        },
    }
}

fn shade_exec(shape: Shape, y: usize) -> (r: u32)
    requires
        shape_ok(shape),
    ensures
        r == shade(shape, y as int),
{
    match shape {
        Shape::RoundedRect(r, _, paint) => paint_color_exec(r, paint, y),
        Shape::RightRoundedRect(r, _, paint) => paint_color_exec(r, paint, y),
        Shape::Circle(_, _, _, color) => color,
        Shape::Ring(_, _, _, _, color) => color,
        Shape::Triangle(_, _, _, _, _, color) => color,
    }
}

/// An RGB canvas of `width` x `height` pixels.
pub struct Canvas {
    width: usize,
    height: usize,
    pixels: Vec<u32>,
}

impl View for Canvas {
    type V = CanvasView;

    closed spec fn view(&self) -> CanvasView {
        CanvasView { width: self.width as nat, height: self.height as nat, pixels: self.pixels@ }
    }
}

/// A canvas of the given size filled with the window background.
pub open spec fn blank_canvas(width: nat, height: nat) -> CanvasView {
    CanvasView { width, height, pixels: Seq::new(width * height, |i: int| WINDOW_BACKGROUND) }
}

impl Canvas {
    /// The canvas invariant: the pixel vector holds exactly one pixel per
    /// position, and both sides are at most `CANVAS_LIMIT`.
    pub closed spec fn wf(&self) -> bool {
        &&& self.pixels@.len() == self.width * self.height
        &&& self.width <= CANVAS_LIMIT
        &&& self.height <= CANVAS_LIMIT
    }

    /// A canvas filled with the window background.
    pub fn new(width: usize, height: usize) -> (r: Canvas)
        requires
            width <= CANVAS_LIMIT,
            height <= CANVAS_LIMIT,
        ensures
            r.wf(),
            r@ == blank_canvas(width as nat, height as nat),
    {
        assert(width * height <= CANVAS_LIMIT * CANVAS_LIMIT) by (nonlinear_arith)
            requires
                width <= CANVAS_LIMIT,
                height <= CANVAS_LIMIT,
        ;
        let n = width * height;
        let mut pixels: Vec<u32> = Vec::new();
        let mut i: usize = 0;
        while i < n
            invariant
                i <= n,
                pixels@ == Seq::new(i as nat, |k: int| WINDOW_BACKGROUND),
            decreases n - i,
        {
            pixels.push(WINDOW_BACKGROUND);
            assert(pixels@ =~= Seq::new((i + 1) as nat, |k: int| WINDOW_BACKGROUND));
            i = i + 1;
        }
        Canvas { width, height, pixels }
    }

    /// The canvas width.
    pub fn width(&self) -> (r: usize)
        ensures
            r == self@.width,
    {
        self.width
    }

    /// The canvas height.
    pub fn height(&self) -> (r: usize)
        ensures
            r == self@.height,
    {
        self.height
    }

    /// The pixel at column `x` of row `y`.
    pub fn pixel(&self, x: usize, y: usize) -> (r: u32)
        requires
            self.wf(),
            x < self@.width,
            y < self@.height,
        ensures
            r == self@.pixels[y * self@.width + x],
    {
        proof {
            lemma_pixel_index(x as int, y as int, self.width as int, self.height as int);
        }
        self.pixels[y * self.width + x]
    }

    /// Colour every pixel of the canvas that `shape` covers.
    #[verifier::spinoff_prover]
    pub fn fill(&mut self, shape: Shape)
        requires
            old(self).wf(),
            shape_ok(shape),
        ensures
            final(self).wf(),
            final(self)@ == draw(old(self)@, shape),
    {
        let (x0, x1, y0, y1) = window(shape);
        let w = self.width;
        let h = self.height;
        let xs = if x0 < w { x0 } else { w };
        let xe = if x1 < w { x1 } else { w };
        let ys = if y0 < h { y0 } else { h };
        let ye = if y1 < h { y1 } else { h };
        let ghost old_px = self.pixels@;
        let ghost target = draw(self@, shape);
        proof {
            assert forall|i: int| 0 <= i < w * h && #[trigger] covers_index(shape, w as int, i) implies
                ys <= i / (w as int) < ye && xs <= i % (w as int) < xe by {
                lemma_index_split(i, w as int, h as int);
                lemma_window_contains(shape, i % (w as int), i / (w as int));
            }
        }
        let mut y = ys;
        while y < ye
            invariant
                self.width == w,
                self.height == h,
                self.wf(),
                ys <= y,
                xs == (if x0 < w { x0 } else { w }),
                xe == (if x1 < w { x1 } else { w }),
                ys == (if y0 < h { y0 } else { h }),
                ye == (if y1 < h { y1 } else { h }),
                x1 == shape_window(shape).1,
                y1 == shape_window(shape).3,
                y <= ye || y == ys,
                ye <= h,
                xe <= w,
                x0 == shape_window(shape).0,
                y0 == shape_window(shape).2,
                shape_ok(shape),
                old_px.len() == w * h,
                forall|i: int| 0 <= i < w * h && #[trigger] covers_index(shape, w as int, i) ==> ys <= i / (
                w as int) < ye && xs <= i % (w as int) < xe,
                forall|i: int|
                    0 <= i < w * h ==> #[trigger] self.pixels@[i] == if i / (w as int) < y && covers_index(shape, w as int, i) {
                        shade(shape, i / (w as int))
                    } else {
                        old_px[i]
                    },
            decreases ye - y,
        {
            let mut x = xs;
            while x < xe
                invariant
                    self.width == w,
                    self.height == h,
                    self.wf(),
                    xs <= x,
                    xs == (if x0 < w { x0 } else { w }),
                    xe == (if x1 < w { x1 } else { w }),
                    ys == (if y0 < h { y0 } else { h }),
                    ye == (if y1 < h { y1 } else { h }),
                    x1 == shape_window(shape).1,
                    y1 == shape_window(shape).3,
                    x <= xe || x == xs,
                    ys <= y < ye,
                    ye <= h,
                    xe <= w,
                    x0 == shape_window(shape).0,
                    y0 == shape_window(shape).2,
                    shape_ok(shape),
                    old_px.len() == w * h,
                    forall|i: int| 0 <= i < w * h && #[trigger] covers_index(shape, w as int, i) ==> ys <= i
                        / (w as int) < ye && xs <= i % (w as int) < xe,
                    forall|i: int|
                        0 <= i < w * h ==> #[trigger] self.pixels@[i] == if (i / (w as int) < y || (i / (
                        w as int) == y && i % (w as int) < x)) && covers_index(shape, w as int, i) {
                            shade(shape, i / (w as int))
                        } else {
                            old_px[i]
                        },
                decreases xe - x,
            {
                proof {
                    lemma_pixel_index(x as int, y as int, w as int, h as int);
                    assert forall|i: int| 0 <= i < w * h && i / (w as int) == y && i % (w as int) == x implies i
                        == y * w + x && #[trigger] old_px[i] == old_px[i] by {
                        vstd::arithmetic::div_mod::lemma_fundamental_div_mod(i, w as int);
                        vstd::arithmetic::mul::lemma_mul_is_commutative(w as int, y as int);
                        assert(i == (w as int) * (y as int) + (x as int));
                    }
                }
                if x >= x0 && y >= y0 && window_contains_point(shape, x, y) && covers_exec(shape, x, y) {
                    let color = shade_exec(shape, y);
                    let k = y * w + x;
                    self.pixels[k] = color;
                }
                x = x + 1;
            }
            y = y + 1;
        }
        proof {
            assert(self@.pixels =~= target.pixels);
        }
    }
}

fn window_contains_point(shape: Shape, x: usize, y: usize) -> (r: bool)
    requires
        shape_ok(shape),
    ensures
        r == (x < shape_window(shape).1 && y < shape_window(shape).3),
{
    let (_, x1, _, y1) = window(shape);
    x < x1 && y < y1
}

/// Drawing one more shape after a sequence.
pub proof fn lemma_draw_all_push(c: CanvasView, shapes: Seq<Shape>, shape: Shape)
    ensures
        draw_all(c, shapes.push(shape)) == draw(draw_all(c, shapes), shape),
{
    assert(shapes.push(shape).drop_last() =~= shapes);
}

/// A dot grid whose dots' bounding boxes fit in a `usize`.
pub open spec fn dots_fit(origin: (usize, usize), columns: usize, rows: usize, spacing: usize, radius: usize) -> bool {
    &&& origin.0 + columns * spacing + 2 * radius + 1 <= usize::MAX
    &&& origin.1 + rows * spacing + 2 * radius + 1 <= usize::MAX
}

/// One row of a dot grid.
pub open spec fn dot_row_shapes(origin: (usize, usize), columns: usize, row: int, spacing: usize, radius: usize, color: u32) -> Seq<Shape> {
    Seq::new(
        columns as nat,
        |column: int|
            Shape::Circle(
                (origin.0 + column * spacing) as usize,
                (origin.1 + row * spacing) as usize,
                radius,
                color,
            ),
    )
}

/// The dots of the first `rows` rows of a grid, row by row.
pub open spec fn dot_grid_shapes(origin: (usize, usize), columns: usize, rows: nat, spacing: usize, radius: usize, color: u32) -> Seq<Shape>
    decreases rows,
{
    if rows == 0 {
        Seq::empty()
    } else {
        dot_grid_shapes(origin, columns, (rows - 1) as nat, spacing, radius, color) + dot_row_shapes(
            origin,
            columns,
            rows - 1,
            spacing,
            radius,
            color,
        )
    }
}

/// `a / b` rounded toward zero, as Rust's signed division does.
pub open spec fn trunc_div(a: int, b: int) -> int {
    if a >= 0 {
        a / b
    } else {
        -((-a) / b)
    }
}

pub open spec fn abs_diff(a: int, b: int) -> int {
    if a >= b {
        a - b
    } else {
        b - a
    }
}

/// The number of steps a line takes: its longer axis extent, at least one.
pub open spec fn line_steps(x0: usize, y0: usize, x1: usize, y1: usize) -> int {
    let s = if abs_diff(x0 as int, x1 as int) >= abs_diff(y0 as int, y1 as int) {
        abs_diff(x0 as int, x1 as int)
    } else {
        abs_diff(y0 as int, y1 as int)
    };
    if s >= 1 {
        s
    } else {
        1
    }
}

/// A line as square dabs of the given thickness at every step from one end to the other.
pub open spec fn line_shapes(x0: usize, y0: usize, x1: usize, y1: usize, thickness: usize, color: u32) -> Seq<Shape> {
    let steps = line_steps(x0, y0, x1, y1);
    Seq::new(
        (steps + 1) as nat,
        |step: int|
            {
                let x = x0 + trunc_div((x1 - x0) * step, steps);
                let y = y0 + trunc_div((y1 - y0) * step, steps);
                Shape::RoundedRect(
                    centered_rect(
                        (if x >= 0 { x } else { 0 }) as usize,
                        (if y >= 0 { y } else { 0 }) as usize,
                        thickness,
                        thickness,
                    ),
                    thickness / 2,
                    Paint::Solid(color),
                )
            },
    )
}

/// A line whose points and dabs fit the integer types: the interpolation
/// `(x1 - x0) * step` of the longer axis fits in an `isize`, and each end
/// plus the dab's thickness fits too.
pub open spec fn line_fits(x0: usize, y0: usize, x1: usize, y1: usize, thickness: usize) -> bool {
    &&& line_steps(x0, y0, x1, y1) * line_steps(x0, y0, x1, y1) <= isize::MAX
    &&& x0 + thickness <= isize::MAX
    &&& x1 + thickness <= isize::MAX
    &&& y0 + thickness <= isize::MAX
    &&& y1 + thickness <= isize::MAX
}

/// The integer square root: the largest `k` with `k * k <= n`.
pub open spec fn is_isqrt(n: int, k: int) -> bool {
    0 <= k && k * k <= n && n < (k + 1) * (k + 1)
}

/// The integer square root of `n`. For the values drawn here this equals the
/// truncated floating-point square root.
pub fn isqrt(n: usize) -> (r: usize)
    requires
        n <= 0x1000000,
    ensures
        is_isqrt(n as int, r as int),
{
    let mut k: usize = 0;
    loop
        invariant
            k * k <= n,
            n <= 0x1000000,
            k <= 0x1000,
        ensures
            is_isqrt(n as int, k as int),
        decreases 0x1000 - k,
    {
        let next = k + 1;
        assert(next * next <= 0x1001 * 0x1001) by (nonlinear_arith)
            requires
                next <= 0x1001,
        ;
        if next * next > n {
            break;
        }
        assert(next <= 0x1000) by (nonlinear_arith)
            requires
                next * next <= n,
                n <= 0x1000000,
        ;
        k = next;
    }
    k
}

/// The integer square root is unique.
pub proof fn lemma_isqrt_unique(n: int, a: int, b: int)
    requires
        is_isqrt(n, a),
        is_isqrt(n, b),
    ensures
        a == b,
{
    if a < b {
        assert((a + 1) * (a + 1) <= b * b) by (nonlinear_arith)
            requires
                0 <= a < b,
        ;
    }
    if b < a {
        assert((b + 1) * (b + 1) <= a * a) by (nonlinear_arith)
            requires
                0 <= b < a,
        ;
    }
}

/// The integer square root of a value below `0x1000000`.
pub open spec fn isqrt_spec(n: int) -> int {
    choose|k: int| is_isqrt(n, k)
}

/// The slats of a speaker grille from row `y` down: each slat spans the disc's
/// width at its middle row, shortened by `gap` on both sides.
pub open spec fn slat_shapes_from(
    center_x: usize,
    center_y: usize,
    radius: usize,
    slat_height: usize,
    gap: usize,
    color: u32,
    y: int,
) -> Seq<Shape>
    decreases sat_sub(center_y + radius, y),
{
    if slat_height + gap == 0 || y + slat_height >= center_y + radius {
        Seq::empty()
    } else {
        let dy = abs_diff(center_y as int, y + slat_height / 2);
        let half_width = if dy >= radius {
            0
        } else {
            isqrt_spec(radius * radius - dy * dy)
        };
        let here = if half_width > gap {
            seq![
                Shape::RoundedRect(
                    Rect {
                        x: (center_x - half_width + gap) as usize,
                        y: y as usize,
                        width: ((half_width - gap) * 2) as usize,
                        height: slat_height,
                    },
                    slat_height / 2,
                    Paint::Solid(color),
                ),
            ]
        } else {
            Seq::empty()
        };
        here + slat_shapes_from(center_x, center_y, radius, slat_height, gap, color, y + slat_height + gap)
    }
}

/// The cells of one glyph: the lit cells among the first `k` in row-major
/// order of its 5x7 grid, as `size`-pixel squares.
pub open spec fn glyph_shapes(
    rows: Seq<u8>,
    start_x: int,
    start_y: int,
    index: int,
    size: usize,
    color: u32,
    k: nat,
) -> Seq<Shape>
    decreases k,
{
    if k == 0 {
        Seq::empty()
    } else {
        let cell = k - 1;
        let row = cell / 5;
        let col = cell % 5;
        let earlier = glyph_shapes(rows, start_x, start_y, index, size, color, (k - 1) as nat);
        if rows[row] & ((1u8 << ((4 - col) as u8)) as u8) != 0 {
            earlier.push(
                Shape::RoundedRect(
                    Rect {
                        x: (start_x + (index * 6 + col) * size) as usize,
                        y: (start_y + row * size) as usize,
                        width: size,
                        height: size,
                    },
                    0,
                    Paint::Solid(color),
                ),
            )
        } else {
            earlier
        }
    }
}

/// The glyph cells of the first `n` characters of a text.
pub open spec fn text_cells(text: Seq<char>, start_x: int, start_y: int, size: usize, color: u32, n: nat) -> Seq<Shape>
    decreases n,
{
    if n == 0 {
        Seq::empty()
    } else {
        text_cells(text, start_x, start_y, size, color, (n - 1) as nat) + glyph_shapes(
            glyph_rows(ascii_upper(text[n - 1])),
            start_x,
            start_y,
            n - 1,
            size,
            color,
            35,
        )
    }
}

/// Text whose cells all end inside a `usize`: `length` characters, 6 font
/// pixels apart, of `pixel_size`-pixel squares, centred on a point.
pub open spec fn text_fits(length: int, center_x: int, center_y: int, pixel_size: int) -> bool {
    &&& center_x + length * 6 * pixel_size <= usize::MAX
    &&& center_y + 7 * pixel_size <= usize::MAX
}

/// A line of pixel-font text centred on a point, each font pixel a
/// `pixel_size` square, characters 6 font pixels apart.
pub open spec fn text_shapes(text: Seq<char>, center_x: usize, center_y: usize, pixel_size: usize, color: u32) -> Seq<Shape> {
    if pixel_size == 0 || text.len() == 0 {
        Seq::empty()
    } else {
        let text_width = text.len() * 6 * pixel_size - pixel_size;
        let start_x = sat_sub(center_x as int, text_width / 2);
        let start_y = sat_sub(center_y as int, 7 * pixel_size / 2);
        text_cells(text, start_x, start_y, pixel_size, color, text.len())
    }
}

impl Canvas {
    /// Fill a rounded rectangle, each row coloured by `paint`.
    pub fn paint_rounded_rect(&mut self, rect: Rect, radius: usize, paint: Paint)
        requires
            old(self).wf(),
            shape_ok(Shape::RoundedRect(rect, radius, paint)),
        ensures
            final(self).wf(),
            final(self)@ == draw(old(self)@, Shape::RoundedRect(rect, radius, paint)),
    {
        self.fill(Shape::RoundedRect(rect, radius, paint));
    }

    /// Fill the right half of a rounded rectangle, each row coloured by `paint`.
    pub fn paint_rounded_rect_right(&mut self, rect: Rect, radius: usize, paint: Paint)
        requires
            old(self).wf(),
            shape_ok(Shape::RightRoundedRect(rect, radius, paint)),
        ensures
            final(self).wf(),
            final(self)@ == draw(old(self)@, Shape::RightRoundedRect(rect, radius, paint)),
    {
        self.fill(Shape::RightRoundedRect(rect, radius, paint));
    }

    /// Fill a rounded rectangle with one colour.
    pub fn rounded_rect(&mut self, rect: Rect, radius: usize, color: u32)
        requires
            old(self).wf(),
            shape_ok(Shape::RoundedRect(rect, radius, Paint::Solid(color))),
        ensures
            final(self).wf(),
            final(self)@ == draw(old(self)@, Shape::RoundedRect(rect, radius, Paint::Solid(color))),
    {
        self.paint_rounded_rect(rect, radius, Paint::Solid(color));
    }

    /// Fill a rounded rectangle with a gradient from `top` to `bottom`.
    pub fn gradient_rounded_rect(&mut self, rect: Rect, radius: usize, top: u32, bottom: u32)
        requires
            old(self).wf(),
            shape_ok(Shape::RoundedRect(rect, radius, Paint::Gradient(top, bottom))),
        ensures
            final(self).wf(),
            final(self)@ == draw(old(self)@, Shape::RoundedRect(rect, radius, Paint::Gradient(top, bottom))),
    {
        self.paint_rounded_rect(rect, radius, Paint::Gradient(top, bottom));
    }

    /// Fill the right half of a rounded rectangle with a gradient.
    pub fn gradient_rounded_rect_right(&mut self, rect: Rect, radius: usize, top: u32, bottom: u32)
        requires
            old(self).wf(),
            shape_ok(Shape::RightRoundedRect(rect, radius, Paint::Gradient(top, bottom))),
        ensures
            final(self).wf(),
            final(self)@ == draw(old(self)@, Shape::RightRoundedRect(rect, radius, Paint::Gradient(top, bottom))),
    {
        self.paint_rounded_rect_right(rect, radius, Paint::Gradient(top, bottom));
    }

    /// Fill a disc.
    pub fn circle(&mut self, center_x: usize, center_y: usize, radius: usize, color: u32)
        requires
            old(self).wf(),
            shape_ok(Shape::Circle(center_x, center_y, radius, color)),
        ensures
            final(self).wf(),
            final(self)@ == draw(old(self)@, Shape::Circle(center_x, center_y, radius, color)),
    {
        self.fill(Shape::Circle(center_x, center_y, radius, color));
    }

    /// Fill an annulus of the given outer radius and thickness.
    pub fn ring(&mut self, center_x: usize, center_y: usize, radius: usize, thickness: usize, color: u32)
        requires
            old(self).wf(),
            shape_ok(Shape::Ring(center_x, center_y, radius, thickness, color)),
        ensures
            final(self).wf(),
            final(self)@ == draw(old(self)@, Shape::Ring(center_x, center_y, radius, thickness, color)),
    {
        self.fill(Shape::Ring(center_x, center_y, radius, thickness, color));
    }

    /// Fill a triangle pointing in `direction`.
    pub fn triangle(&mut self, center_x: usize, center_y: usize, radius: usize, direction: (isize, isize), color: u32)
        requires
            old(self).wf(),
            shape_ok(Shape::Triangle(center_x, center_y, radius, direction.0, direction.1, color)),
        ensures
            final(self).wf(),
            final(self)@ == draw(
                old(self)@,
                Shape::Triangle(center_x, center_y, radius, direction.0, direction.1, color),
            ),
    {
        self.fill(Shape::Triangle(center_x, center_y, radius, direction.0, direction.1, color));
    }

    /// Draw `rows` rows of `columns` dots, `spacing` pixels apart.
    pub fn dot_grid(
        &mut self,
        origin: (usize, usize),
        columns: usize,
        rows: usize,
        spacing: usize,
        radius: usize,
        color: u32,
    )
        requires
            old(self).wf(),
            dots_fit(origin, columns, rows, spacing, radius),
        ensures
            final(self).wf(),
            final(self)@ == draw_all(old(self)@, dot_grid_shapes(origin, columns, rows as nat, spacing, radius, color)),
    {
        let ghost start = self@;
        let mut row: usize = 0;
        while row < rows
            invariant
                self.wf(),
                row <= rows,
                dots_fit(origin, columns, rows, spacing, radius),
                self@ == draw_all(start, dot_grid_shapes(origin, columns, row as nat, spacing, radius, color)),
            decreases rows - row,
        {
            let ghost done = dot_grid_shapes(origin, columns, row as nat, spacing, radius, color);
            let ghost this_row = dot_row_shapes(origin, columns, row as int, spacing, radius, color);
            let mut column: usize = 0;
            while column < columns
                invariant
                    self.wf(),
                    row < rows,
                    column <= columns,
                    dots_fit(origin, columns, rows, spacing, radius),
                    this_row == dot_row_shapes(origin, columns, row as int, spacing, radius, color),
                    self@ == draw_all(start, done + this_row.take(column as int)),
                decreases columns - column,
            {
                assert(column * spacing <= columns * spacing && row * spacing <= rows * spacing) by (nonlinear_arith)
                    requires
                        column <= columns,
                        row <= rows,
                ;
                let x = origin.0 + column * spacing;
                let y = origin.1 + row * spacing;
                proof {
                    lemma_draw_all_push(start, done + this_row.take(column as int), this_row[column as int]);
                    assert((done + this_row.take(column as int)).push(this_row[column as int]) =~= done + this_row.take(
                        column + 1,
                    ));
                }
                self.circle(x, y, radius, color);
                column = column + 1;
            }
            assert(this_row.take(columns as int) =~= this_row);
            row = row + 1;
        }
    }

    /// Draw a straight line of square dabs from one point to another.
    pub fn line(&mut self, x0: usize, y0: usize, x1: usize, y1: usize, thickness: usize, color: u32)
        requires
            old(self).wf(),
            line_fits(x0, y0, x1, y1, thickness),
        ensures
            final(self).wf(),
            final(self)@ == draw_all(old(self)@, line_shapes(x0, y0, x1, y1, thickness, color)),
    {
        let ghost start = self@;
        let ghost shapes = line_shapes(x0, y0, x1, y1, thickness, color);
        let dx = if x0 >= x1 { x0 - x1 } else { x1 - x0 };
        let dy = if y0 >= y1 { y0 - y1 } else { y1 - y0 };
        let longer = if dx >= dy { dx } else { dy };
        let steps = if longer >= 1 { longer } else { 1 };
        assert(steps == line_steps(x0, y0, x1, y1));
        assert(steps <= steps * steps) by (nonlinear_arith)
            requires
                steps >= 1,
        ;
        let mut step: usize = 0;
        while step <= steps
            invariant
                self.wf(),
                step <= steps + 1,
                steps == line_steps(x0, y0, x1, y1),
                1 <= steps,
                line_fits(x0, y0, x1, y1, thickness),
                shapes == line_shapes(x0, y0, x1, y1, thickness, color),
                self@ == draw_all(start, shapes.take(step as int)),
            decreases steps + 1 - step,
        {
            let x = line_point(x0, x1, step, steps);
            let y = line_point(y0, y1, step, steps);
            proof {
                lemma_draw_all_push(start, shapes.take(step as int), shapes[step as int]);
                assert(shapes.take(step as int).push(shapes[step as int]) =~= shapes.take(step + 1));
            }
            self.rounded_rect(Rect::centered(x, y, thickness, thickness), thickness / 2, color);
            assert(steps <= steps * steps) by (nonlinear_arith)
                requires
                    steps >= 1,
            ;
            step = step + 1;
        }
        assert(shapes.take(step as int) =~= shapes);
    }

    /// Draw the slats of a round speaker grille: horizontal rounded bars of
    /// `slat_height` rows, `gap` rows apart, clipped to the disc less `gap`
    /// on both sides. Each slat's half width is the square root of
    /// `radius * radius - dy * dy` rounded down; radii up to 4096 keep that
    /// value in the range where the rounded floating-point square root and
    /// the integer one agree.
    pub fn circle_slats(
        &mut self,
        center_x: usize,
        center_y: usize,
        radius: usize,
        slat_height: usize,
        gap: usize,
        color: u32,
    )
        requires
            old(self).wf(),
            radius <= center_x <= 0x10000,
            center_y <= 0x10000,
            radius <= 0x1000,
            slat_height <= 0x1000,
            gap <= 0x1000,
            slat_height + gap > 0,
        ensures
            final(self).wf(),
            final(self)@ == draw_all(
                old(self)@,
                slat_shapes_from(
                    center_x,
                    center_y,
                    radius,
                    slat_height,
                    gap,
                    color,
                    sat_sub(center_y as int, radius as int) + gap,
                ),
            ),
    {
        let ghost start = self@;
        let ghost all = slat_shapes_from(
            center_x,
            center_y,
            radius,
            slat_height,
            gap,
            color,
            sat_sub(center_y as int, radius as int) + gap,
        );
        let ghost mut done: Seq<Shape> = Seq::empty();
        let mut y = center_y.saturating_sub(radius) + gap;
        assert(all == done + slat_shapes_from(center_x, center_y, radius, slat_height, gap, color, y as int));
        while y + slat_height < center_y + radius
            invariant
                self.wf(),
                radius <= center_x <= 0x10000,
                center_y <= 0x10000,
                radius <= 0x1000,
                slat_height <= 0x1000,
                gap <= 0x1000,
                slat_height + gap > 0,
                y <= center_y + radius + 0x1000,
                self@ == draw_all(start, done),
                all == done + slat_shapes_from(center_x, center_y, radius, slat_height, gap, color, y as int),
            decreases sat_sub(center_y + radius, y as int),
        {
            let middle = y + slat_height / 2;
            let dy = if center_y >= middle { center_y - middle } else { middle - center_y };
            let ghost rest = slat_shapes_from(center_x, center_y, radius, slat_height, gap, color, y + slat_height + gap);
            let half_width = if dy >= radius {
                0
            } else {
                assert(dy * dy < radius * radius && radius * radius <= 0x1000000) by (nonlinear_arith)
                    requires
                        dy < radius,
                        radius <= 0x1000,
                ;
                let hw = isqrt(radius * radius - dy * dy);
                proof {
                    let n = radius * radius - dy * dy;
                    lemma_isqrt_unique(n, hw as int, isqrt_spec(n));
                }
                hw
            };
            proof {
                if dy < radius {
                    assert(half_width <= radius) by (nonlinear_arith)
                        requires
                            half_width * half_width <= radius * radius - dy * dy,
                    ;
                }
            }
            if half_width > gap {
                let rect = Rect {
                    x: center_x - half_width + gap,
                    y,
                    width: (half_width - gap) * 2,
                    height: slat_height,
                };
                proof {
                    lemma_draw_all_push(start, done, Shape::RoundedRect(rect, slat_height / 2, Paint::Solid(color)));
                    done = done.push(Shape::RoundedRect(rect, slat_height / 2, Paint::Solid(color)));
                }
                self.rounded_rect(rect, slat_height / 2, color);
            }
            proof {
                assert(all == done + rest);
            }
            y = y + slat_height + gap;
        }
        assert(all == done);
    }

    /// Draw a line of pixel-font text centred on a point.
    pub fn text_centered(&mut self, text: &str, center_x: usize, center_y: usize, pixel_size: usize, color: u32)
        requires
            old(self).wf(),
            text_fits(text@.len() as int, center_x as int, center_y as int, pixel_size as int),
        ensures
            final(self).wf(),
            final(self)@ == draw_all(old(self)@, text_shapes(text@, center_x, center_y, pixel_size, color)),
    {
        let chars = chars_of(text);
        self.text_centered_chars(&chars, center_x, center_y, pixel_size, color);
    }

    /// Draw a line of pixel-font text, given by its characters, centred on a point.
    pub fn text_centered_chars(&mut self, chars: &Vec<char>, center_x: usize, center_y: usize, pixel_size: usize, color: u32)
        requires
            old(self).wf(),
            text_fits(chars@.len() as int, center_x as int, center_y as int, pixel_size as int),
        ensures
            final(self).wf(),
            final(self)@ == draw_all(old(self)@, text_shapes(chars@, center_x, center_y, pixel_size, color)),
    {
        let ghost text = chars@;
        if pixel_size == 0 || chars.len() == 0 {
            return;
        }
        let ghost start = self@;
        let n = chars.len();
        assert(n * 6 * pixel_size >= pixel_size && n * 6 <= n * 6 * pixel_size && 7 <= 7 * pixel_size) by (nonlinear_arith)
            requires
                1 <= n,
                pixel_size >= 1,
        ;
        let text_width = n * 6 * pixel_size - pixel_size;
        let start_x = center_x.saturating_sub(text_width / 2);
        let start_y = center_y.saturating_sub(7 * pixel_size / 2);
        let mut index: usize = 0;
        while index < n
            invariant
                self.wf(),
                n == chars@.len(),
                chars@ == text,
                1 <= n,
                1 <= pixel_size,
                index <= n,
                start_x + n * 6 * pixel_size <= usize::MAX,
                start_y + 7 * pixel_size <= usize::MAX,
                text_width == n * 6 * pixel_size - pixel_size,
                start_x == sat_sub(center_x as int, (text_width / 2) as int),
                start_y == sat_sub(center_y as int, (7 * pixel_size / 2) as int),
                self@ == draw_all(start, text_cells(text, start_x as int, start_y as int, pixel_size, color, index as nat)),
            decreases n - index,
        {
            let rows = glyph(ascii_upper_exec(chars[index]));
            let ghost before = text_cells(text, start_x as int, start_y as int, pixel_size, color, index as nat);
            let ghost grows = glyph_rows(ascii_upper(text[index as int]));
            let mut cell: usize = 0;
            while cell < 35
                invariant
                    self.wf(),
                    rows@ == grows,
                    grows.len() == 7,
                    1 <= pixel_size,
                    index < n,
                    start_x + n * 6 * pixel_size <= usize::MAX,
                    start_y + 7 * pixel_size <= usize::MAX,
                    cell <= 35,
                    self@ == draw_all(
                        start,
                        before + glyph_shapes(grows, start_x as int, start_y as int, index as int, pixel_size, color, cell as nat),
                    ),
                decreases 35 - cell,
            {
                let row = cell / 5;
                let col = cell % 5;
                let bits = rows[row];
                if bits & (1u8 << ((4 - col) as u8)) != 0 {
                    assert(index * 6 + col < n * 6 && index * 6 + col <= (index * 6 + col) * pixel_size && (index * 6
                        + col) * pixel_size + pixel_size <= n * 6 * pixel_size && n * 6 <= n * 6 * pixel_size && row
                        <= row * pixel_size && row * pixel_size + pixel_size <= 7 * pixel_size) by (nonlinear_arith)
                        requires
                            index < n,
                            col < 5,
                            row < 7,
                            pixel_size >= 1,
                    ;
                    let rect = Rect {
                        x: start_x + (index * 6 + col) * pixel_size,
                        y: start_y + row * pixel_size,
                        width: pixel_size,
                        height: pixel_size,
                    };
                    proof {
                        let g = glyph_shapes(grows, start_x as int, start_y as int, index as int, pixel_size, color, cell as nat);
                        lemma_draw_all_push(start, before + g, Shape::RoundedRect(rect, 0, Paint::Solid(color)));
                        assert((before + g).push(Shape::RoundedRect(rect, 0, Paint::Solid(color))) =~= before + glyph_shapes(
                            grows,
                            start_x as int,
                            start_y as int,
                            index as int,
                            pixel_size,
                            color,
                            (cell + 1) as nat,
                        ));
                    }
                    self.rounded_rect(rect, 0, color);
                } else {
                    assert(glyph_shapes(grows, start_x as int, start_y as int, index as int, pixel_size, color, (cell + 1) as nat)
                        == glyph_shapes(grows, start_x as int, start_y as int, index as int, pixel_size, color, cell as nat));
                }
                cell = cell + 1;
            }
            index = index + 1;
        }
    }
}

fn line_point(from: usize, to: usize, step: usize, steps: usize) -> (r: usize)
    requires
        from <= isize::MAX,
        to <= isize::MAX,
        abs_diff(from as int, to as int) <= steps,
        1 <= steps,
        steps * steps <= isize::MAX,
        step <= steps,
    ensures
        ({
            let p = from + trunc_div((to - from) * step, steps as int);
            r == if p >= 0 { p } else { 0 }
        }),
        r <= (if from >= to { from } else { to }),
{
    assert(steps <= steps * steps) by (nonlinear_arith)
        requires
            steps >= 1,
    ;
    let delta: isize = to as isize - from as isize;
    assert(-(steps * steps) <= delta * (step as int) <= steps * steps) by (nonlinear_arith)
        requires
            -(steps as int) <= delta <= steps,
            0 <= step <= steps,
    ;
    let product: isize = delta * (step as isize);
    let moved: isize = if product >= 0 {
        proof {
            if delta < 0 {
                assert(delta * (step as int) <= 0) by (nonlinear_arith)
                    requires
                        delta < 0,
                        step >= 0,
                ;
                assert(product == 0);
            } else {
                assert(delta * (step as int) <= (steps as int) * delta) by (nonlinear_arith)
                    requires
                        delta >= 0,
                        0 <= step <= steps,
                ;
                vstd::arithmetic::div_mod::lemma_div_is_ordered(product as int, (steps as int) * delta, steps as int);
                vstd::arithmetic::div_mod::lemma_div_multiples_vanish(delta as int, steps as int);
            }
        }
        product / (steps as isize)
    } else {
        assert((-product as int) / (steps as int) <= -delta) by (nonlinear_arith)
            requires
                product == delta * (step as int),
                product < 0,
                0 <= step <= steps,
                steps >= 1,
        ;
        -((-product) / (steps as isize))
    };
    let p: isize = from as isize + moved;
    if p >= 0 {
        p as usize
    } else {
        0
    }
}

/// The RGB bytes of a row-major pixel sequence: red, green, blue per pixel.
pub open spec fn pixels_to_rgb(pixels: Seq<u32>) -> Seq<u8> {
    Seq::new(
        pixels.len() * 3,
        |i: int|
            {
                let color = pixels[i / 3];
                if i % 3 == 0 {
                    ((color >> 16u32) & 0xFFu32) as u8
                } else if i % 3 == 1 {
                    ((color >> 8u32) & 0xFFu32) as u8
                } else {
                    (color & 0xFFu32) as u8
                }
            },
    )
}

/// The pixels of RGB bytes, three bytes per pixel.
pub open spec fn rgb_to_pixels_spec(bytes: Seq<u8>) -> Seq<u32> {
    Seq::new(
        bytes.len() / 3,
        |i: int| ((bytes[3 * i] as u32) << 16u32) | ((bytes[3 * i + 1] as u32) << 8u32) | (bytes[3 * i + 2] as u32),
    )
}

/// Sizes that resampling can allocate for: the `image` crate takes sizes as
/// `u32` and resamples through an RGBA `f32` buffer of the source width by
/// the target height (16 bytes a pixel), and the result holds 4-byte pixels;
/// no buffer can exceed `isize::MAX` bytes.
pub open spec fn resize_fits(source_width: int, width: int, height: int) -> bool {
    &&& width <= u32::MAX
    &&& height <= u32::MAX
    &&& source_width * height * 16 <= isize::MAX
    &&& width * height * 4 <= isize::MAX
}

/// Resamples an RGB image with `image::imageops::resize` and
/// `FilterType::Lanczos3`. Trusted: the result holds `width * height` RGB
/// pixels, and is a copy of the source when the size does not change (the
/// call copies instead of resampling then). The resampled values are left
/// unsaid: the filter weights come from floating-point `sin`, whose last bits
/// std does not fix across platforms.
#[verifier::external_body]
fn resize_rgb(raw: Vec<u8>, source_width: u32, source_height: u32, width: u32, height: u32) -> (r: Vec<u8>)
    requires
        raw@.len() == source_width * source_height * 3,
        resize_fits(source_width as int, width as int, height as int),
    ensures
        r@.len() == width * height * 3,
        width == source_width && height == source_height ==> r@ == raw@,
{
    let source: image::ImageBuffer<image::Rgb<u8>, Vec<u8>> = image::ImageBuffer::from_raw(source_width, source_height, raw).unwrap();
    image::imageops::resize(&source, width, height, image::imageops::FilterType::Lanczos3).into_raw()
}

/// The RGB bytes of a pixel vector.
pub fn pixels_rgb(pixels: &Vec<u32>) -> (r: Vec<u8>)
    requires
        pixels@.len() * 3 <= usize::MAX,
    ensures
        r@ == pixels_to_rgb(pixels@),
{
    let mut r: Vec<u8> = Vec::new();
    let mut i: usize = 0;
    while i < pixels.len()
        invariant
            i <= pixels@.len(),
            pixels@.len() * 3 <= usize::MAX,
            r@ == pixels_to_rgb(pixels@).take(3 * i),
        decreases pixels@.len() - i,
    {
        let color = pixels[i];
        r.push(((color >> 16) & 0xFF) as u8);
        r.push(((color >> 8) & 0xFF) as u8);
        r.push((color & 0xFF) as u8);
        proof {
            let full = pixels_to_rgb(pixels@);
            assert(full[3 * i] == ((color >> 16u32) & 0xFFu32) as u8);
            assert(full[3 * i + 1] == ((color >> 8u32) & 0xFFu32) as u8);
            assert(full[3 * i + 2] == (color & 0xFFu32) as u8);
            assert(r@ =~= full.take(3 * (i + 1)));
        }
        i = i + 1;
    }
    assert(pixels_to_rgb(pixels@).take(3 * i) =~= pixels_to_rgb(pixels@));
    r
}

/// The pixels of RGB bytes, three bytes per pixel.
pub fn rgb_to_pixels(bytes: &Vec<u8>) -> (r: Vec<u32>)
    ensures
        r@ == rgb_to_pixels_spec(bytes@),
{
    let len = bytes.len();
    let n = len / 3;
    let mut r: Vec<u32> = Vec::new();
    let mut i: usize = 0;
    while i < n
        invariant
            len == bytes@.len(),
            n == bytes@.len() / 3,
            i <= n,
            r@ == rgb_to_pixels_spec(bytes@).take(i as int),
        decreases n - i,
    {
        assert(3 * i + 2 < len);
        let color = ((bytes[3 * i] as u32) << 16) | ((bytes[3 * i + 1] as u32) << 8) | (bytes[3 * i + 2] as u32);
        r.push(color);
        assert(r@ =~= rgb_to_pixels_spec(bytes@).take(i + 1));
        i = i + 1;
    }
    assert(rgb_to_pixels_spec(bytes@).take(n as int) =~= rgb_to_pixels_spec(bytes@));
    r
}

/// Whether every pixel is a 24-bit RGB colour.
pub open spec fn rgb_colors(pixels: Seq<u32>) -> bool {
    forall|i: int| 0 <= i < pixels.len() ==> #[trigger] pixels[i] <= 0xFFFFFF
}

proof fn lemma_rgb_bytes_round_trip(c: u32)
    by (bit_vector)
    requires
        c <= 0xFFFFFFu32,
    ensures
        ((((c >> 16u32) & 0xFFu32) as u8 as u32) << 16u32) | ((((c >> 8u32) & 0xFFu32) as u8 as u32) << 8u32) | (((
        c & 0xFFu32) as u8) as u32) == c,
{
}

/// Law: splitting 24-bit colours into RGB bytes and joining the bytes again
/// gives back the colours.
pub proof fn lemma_rgb_round_trip(pixels: Seq<u32>)
    requires
        rgb_colors(pixels),
    ensures
        rgb_to_pixels_spec(pixels_to_rgb(pixels)) == pixels,
{
    let bytes = pixels_to_rgb(pixels);
    let back = rgb_to_pixels_spec(bytes);
    assert(bytes.len() / 3 == pixels.len());
    assert forall|i: int| 0 <= i < pixels.len() implies back[i] == pixels[i] by {
        let c = pixels[i];
        assert(0 <= 3 * i && 3 * i + 2 < bytes.len());
        assert((3 * i) / 3 == i && (3 * i) % 3 == 0);
        assert((3 * i + 1) / 3 == i && (3 * i + 1) % 3 == 1);
        assert((3 * i + 2) / 3 == i && (3 * i + 2) % 3 == 2);
        lemma_rgb_bytes_round_trip(c);
    }
    assert(back =~= pixels);
}

impl Canvas {
    /// The canvas resampled to `width` x `height` with a Lanczos3 filter:
    /// `width * height` pixels, the canvas itself when the size is unchanged.
    /// The canvas's RGB bytes (`pixels_rgb`) are what is resampled; the
    /// resampled values otherwise rest on floating-point arithmetic and are
    /// not stated.
    pub fn resize(self, width: usize, height: usize) -> (r: Vec<u32>)
        requires
            self.wf(),
            resize_fits(self@.width as int, width as int, height as int),
        ensures
            r@.len() == width * height,
            width == self@.width && height == self@.height && rgb_colors(self@.pixels) ==> r@ == self@.pixels,
    {
        assert(self.width * self.height <= CANVAS_LIMIT * CANVAS_LIMIT) by (nonlinear_arith)
            requires
                self.width <= CANVAS_LIMIT,
                self.height <= CANVAS_LIMIT,
        ;
        let raw = pixels_rgb(&self.pixels);
        let resized = resize_rgb(raw, self.width as u32, self.height as u32, width as u32, height as u32);
        assert(width * height * 3 / 3 == width * height) by (nonlinear_arith);
        proof {
            if width == self.width && height == self.height && rgb_colors(self@.pixels) {
                lemma_rgb_round_trip(self@.pixels);
            }
        }
        rgb_to_pixels(&resized)
    }
}

} // verus!
