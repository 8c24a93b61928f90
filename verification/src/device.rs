//! Drawing a whole device: its case decorations as a list of drawing
//! operations, the key caps, and the resampling to the window size.

use vstd::prelude::*;
use crate::canvas::{
    CANVAS_LIMIT, Canvas, CanvasView, Rect, Shape, Paint, blank_canvas, draw_all, dot_grid_shapes, dots_fit,
    lemma_draw_all_append, resize_fits, rgb_colors, lemma_draw_all_size, line_fits, line_shapes, pixels_to_rgb, rgb_to_pixels_spec, sat_sub, shape_ok,
    slat_shapes_from, text_fits, text_shapes,
};
use crate::keyboard::KeyDef;
use crate::machine::MachineModel;
use crate::cases::{
    cc800_case, cc800_case_spec, cc800_trim, cc800_trim_spec, nc1020_case, nc1020_case_spec, nc1020_trim,
    nc1020_trim_spec, nc2000_case, nc2000_case_spec, nc2000_trim, nc2000_trim_spec, nc3000_case, nc3000_case_spec,
    nc3000_trim, nc3000_trim_spec, pc1000_case, pc1000_case_spec, pc1000_trim, pc1000_trim_spec,
};
use crate::skin::{
    aux_button_shapes, button_ok, draw_aux_button, draw_hinge, draw_keys, draw_screen_numbers, hinge_shapes,
    key_regions_ok, keys_shapes, screen_numbers_ok, screen_numbers_shapes,
};

verus! {

/// How far a model's screen bezel reaches beyond the screen on its top and
/// left sides.
pub open spec fn bezel_margin(model: MachineModel) -> usize {
    match model {
        MachineModel::Nc1020 | MachineModel::Nc3000 => 14,
        MachineModel::Cc800 | MachineModel::Nc2000 => 12,
        MachineModel::Pc1000 => 16,
    }
}

/// A screen position a model's case can be drawn around: the bezel starts
/// at or after the canvas origin, and the bezel, the screen and the numbers
/// under it (placed at `screen.width * n / 10`) have coordinates that fit in
/// a `usize`.
pub open spec fn screen_fits(model: MachineModel, screen: Rect) -> bool {
    &&& bezel_margin(model) <= screen.x
    &&& bezel_margin(model) <= screen.y
    &&& screen.width * 9 <= usize::MAX
    &&& screen.x + screen.width + 0x100 <= usize::MAX
    &&& screen.y + screen.height + 0x100 <= usize::MAX
}

/// One drawing operation of a device's case.
#[derive(Clone, Copy)]
pub enum SkinOp {
    /// A filled rounded rectangle: bounds, corner radius, colour.
    Panel(Rect, usize, u32),
    /// A filled disc: centre, radius, colour.
    Disc(usize, usize, usize, u32),
    /// An annulus: centre, outer radius, thickness, colour.
    Ring(usize, usize, usize, usize, u32),
    /// A triangle: centre, radius, pointing direction, colour.
    Arrow(usize, usize, usize, isize, isize, u32),
    /// A thick line: end points, thickness, colour.
    Line(usize, usize, usize, usize, usize, u32),
    /// A grid of dots: origin, columns, rows, spacing, radius, colour.
    Dots(usize, usize, usize, usize, usize, usize, u32),
    /// Speaker slats inside a circle: centre, radius, slat height, gap, colour.
    Slats(usize, usize, usize, usize, usize, u32),
    /// Centred pixel-font text: text, centre, pixel size, colour.
    Text(&'static str, usize, usize, usize, u32),
    /// An auxiliary button: bounds, face colour, text colour, label, text size.
    AuxButton(Rect, u32, u32, &'static str, usize),
    /// The clamshell hinge: drum, bar and notch colours.
    Hinge(u32, u32, u32),
    /// The numbers 1 to 9 under the screen: screen, text row, colour.
    ScreenNumbers(Rect, usize, u32),
}

/// Arguments the drawing routines take: coordinates whose arithmetic fits
/// the integer types (the fixed decorations use small constants).
pub open spec fn op_ok(op: SkinOp) -> bool {
    match op {
        SkinOp::Panel(rect, radius, color) => shape_ok(Shape::RoundedRect(rect, radius, Paint::Solid(color))),
        SkinOp::Disc(x, y, radius, color) => shape_ok(Shape::Circle(x, y, radius, color)),
        SkinOp::Ring(x, y, radius, thickness, color) => shape_ok(Shape::Ring(x, y, radius, thickness, color)),
        SkinOp::Arrow(x, y, radius, dx, dy, color) => shape_ok(Shape::Triangle(x, y, radius, dx, dy, color)),
        SkinOp::Line(x0, y0, x1, y1, thickness, _) => line_fits(x0, y0, x1, y1, thickness),
        SkinOp::Dots(x, y, columns, rows, spacing, radius, _) => dots_fit((x, y), columns, rows, spacing, radius),
        SkinOp::Slats(x, y, radius, slat_height, gap, _) => {
            &&& radius <= x <= 0x10000
            &&& y <= 0x10000
            &&& radius <= 0x1000
            &&& slat_height <= 0x1000
            &&& gap <= 0x1000
            &&& slat_height + gap > 0
        },
        SkinOp::Text(text, x, y, size, _) => text_fits(text@.len() as int, x as int, y as int, size as int),
        SkinOp::AuxButton(region, _, _, label, size) => button_ok(region) && text_fits(
            label@.len() as int,
            region.x + region.width / 2,
            region.y + region.height / 2,
            size as int,
        ),
        SkinOp::Hinge(..) => true,
        SkinOp::ScreenNumbers(screen, y, _) => screen_numbers_ok(screen, y),
    }
}

/// The shapes one operation draws, in order.
pub open spec fn op_shapes(op: SkinOp) -> Seq<Shape> {
    match op {
        SkinOp::Panel(rect, radius, color) => seq![Shape::RoundedRect(rect, radius, Paint::Solid(color))],
        SkinOp::Disc(x, y, radius, color) => seq![Shape::Circle(x, y, radius, color)],
        SkinOp::Ring(x, y, radius, thickness, color) => seq![Shape::Ring(x, y, radius, thickness, color)],
        SkinOp::Arrow(x, y, radius, dx, dy, color) => seq![Shape::Triangle(x, y, radius, dx, dy, color)],
        SkinOp::Line(x0, y0, x1, y1, thickness, color) => line_shapes(x0, y0, x1, y1, thickness, color),
        SkinOp::Dots(x, y, columns, rows, spacing, radius, color) => dot_grid_shapes(
            (x, y),
            columns,
            rows as nat,
            spacing,
            radius,
            color,
        ),
        SkinOp::Slats(x, y, radius, slat_height, gap, color) => slat_shapes_from(
            x,
            y,
            radius,
            slat_height,
            gap,
            color,
            sat_sub(y as int, radius as int) + gap,
        ),
        SkinOp::Text(text, x, y, size, color) => text_shapes(text@, x, y, size, color),
        SkinOp::AuxButton(region, face, text, label, size) => aux_button_shapes(region, face, text, label, size),
        SkinOp::Hinge(drum, bar, notch) => hinge_shapes(drum, bar, notch),
        SkinOp::ScreenNumbers(screen, y, color) => screen_numbers_shapes(screen, y, color, 9),
    }
}

/// Run one drawing operation.
pub fn run_op(canvas: &mut Canvas, op: SkinOp)
    requires
        old(canvas).wf(),
        op_ok(op),
    ensures
        final(canvas).wf(),
        final(canvas)@ == draw_all(old(canvas)@, op_shapes(op)),
{
    let ghost start = canvas@;
    match op {
        SkinOp::Panel(rect, radius, color) => canvas.rounded_rect(rect, radius, color),
        SkinOp::Disc(x, y, radius, color) => canvas.circle(x, y, radius, color),
        SkinOp::Ring(x, y, radius, thickness, color) => canvas.ring(x, y, radius, thickness, color),
        SkinOp::Arrow(x, y, radius, dx, dy, color) => canvas.triangle(x, y, radius, (dx, dy), color),
        SkinOp::Line(x0, y0, x1, y1, thickness, color) => canvas.line(x0, y0, x1, y1, thickness, color),
        SkinOp::Dots(x, y, columns, rows, spacing, radius, color) => canvas.dot_grid(
            (x, y),
            columns,
            rows,
            spacing,
            radius,
            color,
        ),
        SkinOp::Slats(x, y, radius, slat_height, gap, color) => canvas.circle_slats(
            x,
            y,
            radius,
            slat_height,
            gap,
            color,
        ),
        SkinOp::Text(text, x, y, size, color) => canvas.text_centered(text, x, y, size, color),
        SkinOp::AuxButton(region, face, text, label, size) => draw_aux_button(canvas, region, face, text, label, size),
        SkinOp::Hinge(drum, bar, notch) => draw_hinge(canvas, drum, bar, notch),
        SkinOp::ScreenNumbers(screen, y, color) => draw_screen_numbers(canvas, screen, y, color),
    }
    proof {
        match op {
            SkinOp::Panel(..) | SkinOp::Disc(..) | SkinOp::Ring(..) | SkinOp::Arrow(..) => {
                reveal_with_fuel(draw_all, 2);
                assert(op_shapes(op).drop_last() =~= Seq::<Shape>::empty());
            },
            _ => {},
        }
    }
}

/// The shapes a list of operations draws, in order.
pub open spec fn ops_shapes(ops: Seq<SkinOp>) -> Seq<Shape>
    decreases ops.len(),
{
    if ops.len() == 0 {
        Seq::empty()
    } else {
        ops_shapes(ops.drop_last()) + op_shapes(ops.last())
    }
}

/// Every operation of a list has arguments the drawing routines take.
pub open spec fn ops_ok(ops: Seq<SkinOp>) -> bool {
    forall|i: int| 0 <= i < ops.len() ==> op_ok(#[trigger] ops[i])
}

/// Run a list of drawing operations in order.
pub fn run_ops(canvas: &mut Canvas, ops: &Vec<SkinOp>)
    requires
        old(canvas).wf(),
        ops_ok(ops@),
    ensures
        final(canvas).wf(),
        final(canvas)@ == draw_all(old(canvas)@, ops_shapes(ops@)),
{
    let ghost start = canvas@;
    let mut i: usize = 0;
    while i < ops.len()
        invariant
            canvas.wf(),
            i <= ops@.len(),
            ops_ok(ops@),
            canvas@ == draw_all(start, ops_shapes(ops@.take(i as int))),
        decreases ops@.len() - i,
    {
        let ghost before = ops_shapes(ops@.take(i as int));
        run_op(canvas, ops[i]);
        proof {
            lemma_draw_all_append(start, before, op_shapes(ops@[i as int]));
            assert(ops@.take(i + 1).drop_last() =~= ops@.take(i as int));
        }
        i = i + 1;
    }
    assert(ops@.take(ops@.len() as int) =~= ops@);
}

/// The case operations of a model drawn before its keys.
pub open spec fn case_ops(model: MachineModel, screen: Rect) -> Seq<SkinOp> {
    match model {
        MachineModel::Nc1020 => nc1020_case_spec(screen),
        MachineModel::Nc2000 => nc2000_case_spec(screen),
        MachineModel::Nc3000 => nc3000_case_spec(screen),
        MachineModel::Pc1000 => pc1000_case_spec(screen),
        MachineModel::Cc800 => cc800_case_spec(screen),
    }
}

/// The case operations of a model drawn after its keys.
pub open spec fn trim_ops(model: MachineModel) -> Seq<SkinOp> {
    match model {
        MachineModel::Nc1020 => nc1020_trim_spec(),
        MachineModel::Nc2000 => nc2000_trim_spec(),
        MachineModel::Nc3000 => nc3000_trim_spec(),
        MachineModel::Pc1000 => pc1000_trim_spec(),
        MachineModel::Cc800 => cc800_trim_spec(),
    }
}

/// Everything drawn for a device: the case, the key caps that have a region,
/// then the remaining case details.
pub open spec fn device_shapes(
    model: MachineModel,
    screen: Rect,
    layout: Seq<KeyDef>,
    regions: Seq<Option<Rect>>,
) -> Seq<Shape> {
    ops_shapes(case_ops(model, screen)) + keys_shapes(model, layout, regions, layout.len()) + ops_shapes(
        trim_ops(model),
    )
}

/// The device picture on a canvas of the given size, before resampling.
pub open spec fn device_canvas(
    model: MachineModel,
    width: nat,
    height: nat,
    screen: Rect,
    layout: Seq<KeyDef>,
    regions: Seq<Option<Rect>>,
) -> CanvasView {
    draw_all(blank_canvas(width, height), device_shapes(model, screen, layout, regions))
}

fn draw_parts(
    canvas: &mut Canvas,
    model: MachineModel,
    case: &Vec<SkinOp>,
    layout: &Vec<KeyDef>,
    regions: &Vec<Option<Rect>>,
    trim: &Vec<SkinOp>,
)
    requires
        old(canvas).wf(),
        ops_ok(case@),
        ops_ok(trim@),
        key_regions_ok(layout@, regions@),
    ensures
        final(canvas).wf(),
        final(canvas)@ == draw_all(
            old(canvas)@,
            ops_shapes(case@) + keys_shapes(model, layout@, regions@, layout@.len()) + ops_shapes(trim@),
        ),
{
    let ghost start = canvas@;
    run_ops(canvas, case);
    draw_keys(canvas, model, layout, regions);
    run_ops(canvas, trim);
    proof {
        let a = ops_shapes(case@);
        let b = keys_shapes(model, layout@, regions@, layout@.len());
        lemma_draw_all_append(start, a, b);
        lemma_draw_all_append(start, a + b, ops_shapes(trim@));
    }
}

/// Draw the NC1020: case, key caps and case details.
pub fn draw_nc1020(canvas: &mut Canvas, screen: Rect, layout: &Vec<KeyDef>, regions: &Vec<Option<Rect>>)
    requires
        old(canvas).wf(),
        screen_fits(MachineModel::Nc1020, screen),
        key_regions_ok(layout@, regions@),
    ensures
        final(canvas).wf(),
        final(canvas)@ == draw_all(old(canvas)@, device_shapes(MachineModel::Nc1020, screen, layout@, regions@)),
{
    draw_parts(canvas, MachineModel::Nc1020, &nc1020_case(screen), layout, regions, &nc1020_trim());
}

/// Draw the NC2000: case, key caps and case details.
pub fn draw_nc2000(canvas: &mut Canvas, screen: Rect, layout: &Vec<KeyDef>, regions: &Vec<Option<Rect>>)
    requires
        old(canvas).wf(),
        screen_fits(MachineModel::Nc2000, screen),
        key_regions_ok(layout@, regions@),
    ensures
        final(canvas).wf(),
        final(canvas)@ == draw_all(old(canvas)@, device_shapes(MachineModel::Nc2000, screen, layout@, regions@)),
{
    draw_parts(canvas, MachineModel::Nc2000, &nc2000_case(screen), layout, regions, &nc2000_trim());
}

/// Draw the NC3000: case, key caps and case details.
pub fn draw_nc3000(canvas: &mut Canvas, screen: Rect, layout: &Vec<KeyDef>, regions: &Vec<Option<Rect>>)
    requires
        old(canvas).wf(),
        screen_fits(MachineModel::Nc3000, screen),
        key_regions_ok(layout@, regions@),
    ensures
        final(canvas).wf(),
        final(canvas)@ == draw_all(old(canvas)@, device_shapes(MachineModel::Nc3000, screen, layout@, regions@)),
{
    draw_parts(canvas, MachineModel::Nc3000, &nc3000_case(screen), layout, regions, &nc3000_trim());
}

/// Draw the PC1000: case, key caps and case details.
pub fn draw_pc1000(canvas: &mut Canvas, screen: Rect, layout: &Vec<KeyDef>, regions: &Vec<Option<Rect>>)
    requires
        old(canvas).wf(),
        screen_fits(MachineModel::Pc1000, screen),
        key_regions_ok(layout@, regions@),
    ensures
        final(canvas).wf(),
        final(canvas)@ == draw_all(old(canvas)@, device_shapes(MachineModel::Pc1000, screen, layout@, regions@)),
{
    draw_parts(canvas, MachineModel::Pc1000, &pc1000_case(screen), layout, regions, &pc1000_trim());
}

/// Draw the CC800: case, key caps and case details.
pub fn draw_cc800(canvas: &mut Canvas, screen: Rect, layout: &Vec<KeyDef>, regions: &Vec<Option<Rect>>)
    requires
        old(canvas).wf(),
        screen_fits(MachineModel::Cc800, screen),
        key_regions_ok(layout@, regions@),
    ensures
        final(canvas).wf(),
        final(canvas)@ == draw_all(old(canvas)@, device_shapes(MachineModel::Cc800, screen, layout@, regions@)),
{
    draw_parts(canvas, MachineModel::Cc800, &cc800_case(screen), layout, regions, &cc800_trim());
}

/// Draw a model's device.
pub fn draw_device(
    canvas: &mut Canvas,
    model: MachineModel,
    screen: Rect,
    layout: &Vec<KeyDef>,
    regions: &Vec<Option<Rect>>,
)
    requires
        old(canvas).wf(),
        screen_fits(model, screen),
        key_regions_ok(layout@, regions@),
    ensures
        final(canvas).wf(),
        final(canvas)@ == draw_all(old(canvas)@, device_shapes(model, screen, layout@, regions@)),
{
    match model {
        MachineModel::Nc1020 => draw_nc1020(canvas, screen, layout, regions),
        MachineModel::Nc2000 => draw_nc2000(canvas, screen, layout, regions),
        MachineModel::Nc3000 => draw_nc3000(canvas, screen, layout, regions),
        MachineModel::Pc1000 => draw_pc1000(canvas, screen, layout, regions),
        MachineModel::Cc800 => draw_cc800(canvas, screen, layout, regions),
    }
}

/// The device drawn on a fresh canvas of the source size.
pub fn device_picture(
    model: MachineModel,
    source_width: usize,
    source_height: usize,
    screen: Rect,
    layout: &Vec<KeyDef>,
    regions: &Vec<Option<Rect>>,
) -> (r: Canvas)
    requires
        source_width <= CANVAS_LIMIT,
        source_height <= CANVAS_LIMIT,
        screen_fits(model, screen),
        key_regions_ok(layout@, regions@),
    ensures
        r.wf(),
        r@ == device_canvas(model, source_width as nat, source_height as nat, screen, layout@, regions@),
        r@.width == source_width,
        r@.height == source_height,
{
    let mut canvas = Canvas::new(source_width, source_height);
    draw_device(&mut canvas, model, screen, layout, regions);
    proof {
        lemma_draw_all_size(
            blank_canvas(source_width as nat, source_height as nat),
            device_shapes(model, screen, layout@, regions@),
        );
    }
    canvas
}

/// The device skin of a model at the window size: `device_picture`, then
/// resampled by `Canvas::resize`. The result has `width * height` pixels and
/// is the drawn picture itself at the source size; other resampled values
/// are not stated (see `Canvas::resize`). `regions` holds, for each key of
/// `layout`, where its cap is drawn, or nothing for a key without a cap.
pub fn render(
    model: MachineModel,
    source_width: usize,
    source_height: usize,
    width: usize,
    height: usize,
    screen: Rect,
    layout: &Vec<KeyDef>,
    regions: &Vec<Option<Rect>>,
) -> (r: Vec<u32>)
    requires
        source_width <= CANVAS_LIMIT,
        source_height <= CANVAS_LIMIT,
        resize_fits(source_width as int, width as int, height as int),
        screen_fits(model, screen),
        key_regions_ok(layout@, regions@),
    ensures
        r@.len() == width * height,
        width == source_width && height == source_height && rgb_colors(
            device_canvas(model, source_width as nat, source_height as nat, screen, layout@, regions@).pixels,
        ) ==> r@ == device_canvas(model, source_width as nat, source_height as nat, screen, layout@, regions@).pixels,
{
    let canvas = device_picture(model, source_width, source_height, screen, layout, regions);
    canvas.resize(width, height)
}

} // verus!
