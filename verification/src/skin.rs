//! The drawn device skins: each model's case, screen bezel, decorations and
//! key caps, drawn on a canvas and resampled to the window size.

use vstd::prelude::*;
use crate::canvas::{
    BLACK, Canvas, Paint, Rect, Shape, WHITE, centered_rect, draw_all, lemma_draw_all_append, mix, mix_spec,
    text_fits, text_shapes,
};
use crate::keyboard::KeyDef;
use crate::legend::{legend_parts, lemma_split_parts_bounded, lemma_split_parts_nonempty, parts_view, split_parts};
use crate::machine::MachineModel;
use crate::skin_style::{
    ButtonShape, ButtonStyle, arrow_color, arrow_color_spec, arrow_direction, arrow_direction_spec, arrow_mark,
    arrow_mark_spec, compact_label, compact_label_spec, key_style, key_style_spec, key_sublabel, key_sublabel_spec,
    key_superscript, key_superscript_spec, label_size, label_size_spec, numeric_legend, numeric_legend_spec,
    segment_color, segment_color_spec, segment_text_color, segment_text_color_spec, str_eq, sublabel_color,
    sublabel_color_spec, superscript_color, superscript_color_spec,
};

verus! {

/// The corner radius of a button's outline.
pub open spec fn button_radius(region: Rect, style: ButtonStyle) -> usize {
    match style.shape {
        ButtonShape::Rect(radius) => radius,
        ButtonShape::Capsule | ButtonShape::Circle => region.height / 2,
    }
}

/// The face of a button inside its border.
pub open spec fn button_inset(region: Rect) -> Rect {
    Rect {
        x: (region.x + 3) as usize,
        y: (region.y + 3) as usize,
        width: (region.width - 6) as usize,
        height: (region.height - 7) as usize,
    }
}

/// The corner radius of a button's face.
pub open spec fn button_inner_radius(region: Rect, style: ButtonStyle) -> usize {
    let r = button_radius(region, style);
    if r >= 4 {
        (r - 2) as usize
    } else {
        2
    }
}

/// A button: drop shadow, border, shaded face and a highlight line.
pub open spec fn button_shapes(region: Rect, style: ButtonStyle) -> Seq<Shape> {
    let radius = button_radius(region, style);
    let inset = button_inset(region);
    seq![
        Shape::RoundedRect(
            Rect { x: (region.x + 3) as usize, y: (region.y + 4) as usize, ..region },
            radius,
            Paint::Solid(mix_spec(style.border, 0xAAAAAA, 1, 1)),
        ),
        Shape::RoundedRect(region, radius, Paint::Solid(style.border)),
        Shape::RoundedRect(
            inset,
            button_inner_radius(region, style),
            Paint::Gradient(mix_spec(style.face, WHITE, 5, 1), mix_spec(style.face, BLACK, 9, 1)),
        ),
        Shape::RoundedRect(
            Rect {
                x: (inset.x + 4) as usize,
                y: (inset.y + 2) as usize,
                width: (inset.width - 8) as usize,
                height: 2,
            },
            1,
            Paint::Solid(mix_spec(style.face, WHITE, 7, 1)),
        ),
    ]
}

/// A button region large enough for its face (a highlight at least one
/// pixel wide and a shaded face at least two rows high), whose shadow's far
/// edges fit in a `usize`, and whose face is short enough for its gradient
/// weights to be summed and mixed in a `u32`.
pub open spec fn button_ok(region: Rect) -> bool {
    &&& 14 <= region.width
    &&& 9 <= region.height
    &&& region.x + region.width + 3 <= usize::MAX
    &&& region.y + region.height + 4 <= usize::MAX
    &&& (region.height - 8) * 255 <= u32::MAX
}

/// Draw a button; returns its face and the face's corner radius.
pub fn draw_styled_button(canvas: &mut Canvas, region: Rect, style: ButtonStyle) -> (r: (Rect, usize))
    requires
        old(canvas).wf(),
        button_ok(region),
    ensures
        final(canvas).wf(),
        final(canvas)@ == draw_all(old(canvas)@, button_shapes(region, style)),
        r.0 == button_inset(region),
        r.1 == button_inner_radius(region, style),
{
    let ghost start = canvas@;
    let ghost shapes = button_shapes(region, style);
    let radius = match style.shape {
        ButtonShape::Rect(radius) => radius,
        ButtonShape::Capsule | ButtonShape::Circle => region.height / 2,
    };
    let shadow = Rect { x: region.x + 3, y: region.y + 4, ..region };
    canvas.rounded_rect(shadow, radius, mix(style.border, 0xAAAAAA, 1, 1));
    canvas.rounded_rect(region, radius, style.border);
    let inset = Rect { x: region.x + 3, y: region.y + 3, width: region.width - 6, height: region.height - 7 };
    let inner_radius = if radius >= 4 { radius - 2 } else { 2 };
    canvas.gradient_rounded_rect(inset, inner_radius, mix(style.face, WHITE, 5, 1), mix(style.face, BLACK, 9, 1));
    canvas.rounded_rect(
        Rect { x: inset.x + 4, y: inset.y + 2, width: inset.width - 8, height: 2 },
        1,
        mix(style.face, WHITE, 7, 1),
    );
    proof {
        reveal_with_fuel(draw_all, 5);
        assert(shapes.drop_last().drop_last().drop_last().drop_last() =~= Seq::<Shape>::empty());
    }
    (inset, inner_radius)
}

/// An auxiliary button: a plain button with a centred label.
pub open spec fn aux_button_shapes(region: Rect, face: u32, text: u32, label: &str, size: usize) -> Seq<Shape> {
    button_shapes(
        region,
        ButtonStyle { face, border: mix_spec(face, BLACK, 2, 1), text, shape: ButtonShape::Rect(8) },
    ) + text_shapes(label@, (region.x + region.width / 2) as usize, (region.y + region.height / 2) as usize, size, text)
}

/// Draw an auxiliary button with a centred label.
pub fn draw_aux_button(canvas: &mut Canvas, region: Rect, face: u32, text: u32, label: &str, size: usize)
    requires
        old(canvas).wf(),
        button_ok(region),
        text_fits(label@.len() as int, region.x + region.width / 2, region.y + region.height / 2, size as int),
    ensures
        final(canvas).wf(),
        final(canvas)@ == draw_all(old(canvas)@, aux_button_shapes(region, face, text, label, size)),
{
    let ghost start = canvas@;
    let style = ButtonStyle { face, border: mix(face, BLACK, 2, 1), text, shape: ButtonShape::Rect(8) };
    draw_styled_button(canvas, region, style);
    let ghost middle = canvas@;
    canvas.text_centered(label, region.x + region.width / 2, region.y + region.height / 2, size, text);
    proof {
        lemma_draw_all_append(
            start,
            button_shapes(region, style),
            text_shapes(label@, (region.x + region.width / 2) as usize, (region.y + region.height / 2) as usize, size, text),
        );
    }
}

/// The hinge between the two halves of a clamshell case.
pub open spec fn hinge_shapes(drum: u32, bar: u32, notch: u32) -> Seq<Shape> {
    seq![
        Shape::RoundedRect(centered_rect(165, 712, 214, 66), 26, Paint::Solid(drum)),
        Shape::RoundedRect(centered_rect(921, 712, 214, 66), 26, Paint::Solid(drum)),
        Shape::RoundedRect(centered_rect(543, 712, 470, 30), 12, Paint::Solid(bar)),
        Shape::RoundedRect(centered_rect(543, 712, 130, 14), 6, Paint::Solid(notch)),
    ]
}

/// Draw the hinge between the two halves of a clamshell case.
pub fn draw_hinge(canvas: &mut Canvas, drum: u32, bar: u32, notch: u32)
    requires
        old(canvas).wf(),
    ensures
        final(canvas).wf(),
        final(canvas)@ == draw_all(old(canvas)@, hinge_shapes(drum, bar, notch)),
{
    let ghost start = canvas@;
    canvas.rounded_rect(Rect::centered(165, 712, 214, 66), 26, drum);
    canvas.rounded_rect(Rect::centered(921, 712, 214, 66), 26, drum);
    canvas.rounded_rect(Rect::centered(543, 712, 470, 30), 12, bar);
    canvas.rounded_rect(Rect::centered(543, 712, 130, 14), 6, notch);
    proof {
        reveal_with_fuel(draw_all, 5);
        let shapes = hinge_shapes(drum, bar, notch);
        assert(shapes.drop_last().drop_last().drop_last().drop_last() =~= Seq::<Shape>::empty());
    }
}

/// The text of a digit from 1 to 9.
pub open spec fn digit_text(number: int) -> &'static str {
    if number == 1 {
        "1"
    } else if number == 2 {
        "2"
    } else if number == 3 {
        "3"
    } else if number == 4 {
        "4"
    } else if number == 5 {
        "5"
    } else if number == 6 {
        "6"
    } else if number == 7 {
        "7"
    } else if number == 8 {
        "8"
    } else {
        "9"
    }
}

fn digit_str(number: usize) -> (r: &'static str)
    requires
        1 <= number <= 9,
    ensures
        r == digit_text(number as int),
        r@.len() == 1,
{
    proof {
        reveal_strlit("1");
        reveal_strlit("2");
        reveal_strlit("3");
        reveal_strlit("4");
        reveal_strlit("5");
        reveal_strlit("6");
        reveal_strlit("7");
        reveal_strlit("8");
        reveal_strlit("9");
    }
    if number == 1 {
        "1"
    } else if number == 2 {
        "2"
    } else if number == 3 {
        "3"
    } else if number == 4 {
        "4"
    } else if number == 5 {
        "5"
    } else if number == 6 {
        "6"
    } else if number == 7 {
        "7"
    } else if number == 8 {
        "8"
    } else {
        "9"
    }
}

/// The first `n` of the numbers 1 to 9 printed under the screen, spread
/// across its width.
pub open spec fn screen_numbers_shapes(screen: Rect, y: usize, color: u32, n: nat) -> Seq<Shape>
    decreases n,
{
    if n == 0 {
        Seq::empty()
    } else {
        screen_numbers_shapes(screen, y, color, (n - 1) as nat) + text_shapes(
            digit_text(n as int)@,
            (screen.x + screen.width * n / 10) as usize,
            y,
            5,
            color,
        )
    }
}

/// A screen whose numbers' positions (`screen.width * n / 10` past its
/// left edge) and text fit in a `usize`.
pub open spec fn screen_numbers_ok(screen: Rect, y: usize) -> bool {
    &&& screen.width * 9 <= usize::MAX
    &&& screen.x + screen.width + 30 <= usize::MAX
    &&& y + 35 <= usize::MAX
}

/// Draw the numbers 1 to 9 under the screen.
pub fn draw_screen_numbers(canvas: &mut Canvas, screen: Rect, y: usize, color: u32)
    requires
        old(canvas).wf(),
        screen_numbers_ok(screen, y),
    ensures
        final(canvas).wf(),
        final(canvas)@ == draw_all(old(canvas)@, screen_numbers_shapes(screen, y, color, 9)),
{
    let ghost start = canvas@;
    let mut number: usize = 1;
    while number <= 9
        invariant
            canvas.wf(),
            1 <= number <= 10,
            screen_numbers_ok(screen, y),
            canvas@ == draw_all(start, screen_numbers_shapes(screen, y, color, (number - 1) as nat)),
        decreases 10 - number,
    {
        assert(screen.width * number <= screen.width * 9 && screen.width * number / 10 <= screen.width) by (nonlinear_arith)
            requires
                1 <= number <= 9,
        ;
        let x = screen.x + screen.width * number / 10;
        let ghost before = screen_numbers_shapes(screen, y, color, (number - 1) as nat);
        let text = digit_str(number);
        canvas.text_centered(text, x, y, 5, color);
        proof {
            lemma_draw_all_append(start, before, text_shapes(text@, x, y, 5, color));
        }
        number = number + 1;
    }
}

/// A key region that the key drawing fits: room for the shifted function
/// above it, for the corner legend and for the digit segment's shading; its
/// coordinates, the width's 45 % and the legends (a label of
/// `label_length` characters at most 5 font pixels a dot, fixed legends of
/// at most 64 characters) fit in a `usize`, and the face is short enough for
/// its gradient weights to be summed and mixed in a `u32`.
pub open spec fn key_region_ok(region: Rect, label_length: nat) -> bool {
    &&& 11 <= region.y
    &&& 19 <= region.width
    &&& 13 <= region.height
    &&& region.width * 45 <= usize::MAX
    &&& region.x + region.width + 30 * label_length + 0x1000 <= usize::MAX
    &&& region.y + region.height + 0x100 <= usize::MAX
    &&& (region.height - 8) * 255 <= u32::MAX
}

/// The main legend on the face of a key.
pub open spec fn key_face_shapes(model: MachineModel, region: Rect, def: KeyDef) -> Seq<Shape> {
    let style = key_style_spec(model, def.drow, def.dcol);
    let inset = button_inset(region);
    let radius = button_inner_radius(region, style);
    let middle_y = (region.y + region.height / 2) as usize;
    match numeric_legend_spec(def.drow, def.dcol) {
        Some(number) => {
            let color = segment_color_spec(model);
            let seg_width = inset.width * 45 / 100;
            let segment = Rect {
                x: (inset.x + inset.width - seg_width) as usize,
                y: (inset.y + 2) as usize,
                width: (if seg_width >= 2 { seg_width - 2 } else { 0 }) as usize,
                height: (inset.height - 4) as usize,
            };
            let segment_radius = (if radius >= 5 { radius - 3 } else { 2 }) as usize;
            let main_label = if def.drow == 5 {
                Seq::<char>::empty()
            } else {
                split_parts(def.label@)[0]
            };
            seq![
                Shape::RightRoundedRect(
                    segment,
                    segment_radius,
                    Paint::Gradient(mix_spec(color, WHITE, 5, 1), mix_spec(color, BLACK, 9, 1)),
                ),
            ] + (if main_label.len() > 0 {
                text_shapes(main_label, (region.x + region.width * 27 / 100) as usize, middle_y, 5, style.text)
            } else {
                Seq::empty()
            }) + text_shapes(
                number@,
                (segment.x + segment.width / 2 + 1) as usize,
                middle_y,
                5,
                segment_text_color_spec(model),
            )
        },
        None => match arrow_direction_spec(def.label) {
            Some(direction) => {
                let color = arrow_color_spec(model, def.label);
                let mark = arrow_mark_spec(model, def.label);
                let center_x = (region.x + region.width / 2 - (if mark is Some { 5int } else { 0int })) as usize;
                seq![Shape::Triangle(center_x, middle_y, 12, direction.0, direction.1, color)] + match mark {
                    Some(m) => text_shapes(
                        m@,
                        (region.x + region.width / 2 + 17) as usize,
                        (region.y + region.height / 2 + 8) as usize,
                        2,
                        color,
                    ),
                    None => Seq::empty(),
                }
            },
            None => {
                let label = compact_label_spec(def.label);
                let size = if def.label@ == "ON"@ || def.label@ == "PWR"@ {
                    3
                } else {
                    label_size_spec(region, label@.len())
                };
                text_shapes(label@, (region.x + region.width / 2) as usize, middle_y, size, style.text) + match key_sublabel_spec(
                    def.drow,
                    def.dcol,
                ) {
                    Some(sub) => text_shapes(
                        sub@,
                        (region.x + region.width - 19) as usize,
                        (region.y + region.height - 10) as usize,
                        2,
                        sublabel_color_spec(model),
                    ),
                    None => Seq::empty(),
                }
            },
        },
    }
}

/// The shifted function printed above a key.
pub open spec fn key_superscript_shapes(model: MachineModel, region: Rect, def: KeyDef) -> Seq<Shape> {
    match key_superscript_spec(model, def.drow, def.dcol) {
        Some(text) => text_shapes(
            text@,
            (region.x + region.width / 2) as usize,
            (region.y - 11) as usize,
            2,
            superscript_color_spec(model),
        ),
        None => Seq::empty(),
    }
}

/// A key cap with its legends.
pub open spec fn key_shapes(model: MachineModel, region: Rect, def: KeyDef) -> Seq<Shape> {
    button_shapes(region, key_style_spec(model, def.drow, def.dcol)) + key_face_shapes(model, region, def)
        + key_superscript_shapes(model, region, def)
}

fn draw_key_face(canvas: &mut Canvas, model: MachineModel, region: Rect, def: &KeyDef, style: ButtonStyle, inset: Rect, radius: usize)
    requires
        old(canvas).wf(),
        key_region_ok(region, def.label@.len()),
        style == key_style_spec(model, def.drow, def.dcol),
        inset == button_inset(region),
        radius == button_inner_radius(region, style),
    ensures
        final(canvas).wf(),
        final(canvas)@ == draw_all(old(canvas)@, key_face_shapes(model, region, *def)),
{
    let ghost start = canvas@;
    let middle_y = region.y + region.height / 2;
    if let Some(number) = numeric_legend(def) {
        let color = segment_color(model);
        let seg_width = inset.width * 45 / 100;
        let segment = Rect {
            x: inset.x + inset.width - seg_width,
            y: inset.y + 2,
            width: seg_width.saturating_sub(2),
            height: inset.height - 4,
        };
        let segment_radius = if radius >= 5 { radius - 3 } else { 2 };
        canvas.gradient_rounded_rect_right(segment, segment_radius, mix(color, WHITE, 5, 1), mix(color, BLACK, 9, 1));
        let ghost first = seq![
            Shape::RightRoundedRect(
                segment,
                segment_radius,
                Paint::Gradient(mix_spec(color, WHITE, 5, 1), mix_spec(color, BLACK, 9, 1)),
            ),
        ];
        proof {
            reveal_with_fuel(draw_all, 2);
            assert(first.drop_last() =~= Seq::<Shape>::empty());
        }
        let ghost after_segment = canvas@;
        let parts = legend_parts(def.label);
        proof {
            lemma_split_parts_nonempty(def.label@);
            lemma_split_parts_bounded(def.label@);
        }
        let ghost main_label = if def.drow == 5 { Seq::<char>::empty() } else { split_parts(def.label@)[0] };
        let ghost main_shapes = if main_label.len() > 0 {
            text_shapes(main_label, (region.x + region.width * 27 / 100) as usize, middle_y, 5, style.text)
        } else {
            Seq::empty()
        };
        if def.drow != 5 && parts[0].len() > 0 {
            assert(parts[0]@ == split_parts(def.label@)[0]);
            canvas.text_centered_chars(&parts[0], region.x + region.width * 27 / 100, middle_y, 5, style.text);
        } else {
            proof {
                if def.drow != 5 {
                    assert(parts_view(parts@)[0] == parts[0]@);
                }
            }
        }
        let ghost after_main = canvas@;
        proof {
            reveal_strlit("7");
        }
        canvas.text_centered(number, segment.x + segment.width / 2 + 1, middle_y, 5, segment_text_color(model));
        proof {
            lemma_draw_all_append(start, first, main_shapes);
            lemma_draw_all_append(
                start,
                first + main_shapes,
                text_shapes(number@, (segment.x + segment.width / 2 + 1) as usize, middle_y, 5, segment_text_color_spec(model)),
            );
        }
    } else if let Some(direction) = arrow_direction(def.label) {
        let color = arrow_color(model, def.label);
        let mark = arrow_mark(model, def.label);
        let center_x = region.x + region.width / 2 - if mark.is_some() { 5 } else { 0 };
        canvas.triangle(center_x, middle_y, 12, direction, color);
        let ghost first = seq![Shape::Triangle(center_x, middle_y, 12, direction.0, direction.1, color)];
        proof {
            reveal_with_fuel(draw_all, 2);
            assert(first.drop_last() =~= Seq::<Shape>::empty());
        }
        if let Some(mark) = mark {
            canvas.text_centered(mark, region.x + region.width / 2 + 17, region.y + region.height / 2 + 8, 2, color);
            proof {
                lemma_draw_all_append(
                    start,
                    first,
                    text_shapes(mark@, (region.x + region.width / 2 + 17) as usize, (region.y + region.height / 2 + 8) as usize, 2, color),
                );
            }
        } else {
            assert(first + Seq::<Shape>::empty() =~= first);
        }
    } else {
        let label = compact_label(def.label);
        let size = if str_eq(def.label, "ON") || str_eq(def.label, "PWR") {
            3
        } else {
            label_size(region, label)
        };
        assert(label@.len() * 6 * size <= 30 * def.label@.len()) by (nonlinear_arith)
            requires
                size <= 5,
                label@.len() <= def.label@.len(),
        ;
        canvas.text_centered(label, region.x + region.width / 2, middle_y, size, style.text);
        let ghost first = text_shapes(label@, (region.x + region.width / 2) as usize, middle_y, size, style.text);
        if let Some(sub) = key_sublabel(def) {
            canvas.text_centered(sub, region.x + region.width - 19, region.y + region.height - 10, 2, sublabel_color(model));
            proof {
                lemma_draw_all_append(
                    start,
                    first,
                    text_shapes(sub@, (region.x + region.width - 19) as usize, (region.y + region.height - 10) as usize, 2, sublabel_color_spec(model)),
                );
            }
        } else {
            assert(first + Seq::<Shape>::empty() =~= first);
        }
    }
}

/// Draw a key cap with its legends.
pub fn draw_key(canvas: &mut Canvas, model: MachineModel, region: Rect, def: &KeyDef)
    requires
        old(canvas).wf(),
        key_region_ok(region, def.label@.len()),
    ensures
        final(canvas).wf(),
        final(canvas)@ == draw_all(old(canvas)@, key_shapes(model, region, *def)),
{
    let ghost start = canvas@;
    let style = key_style(model, def);
    let (inset, radius) = draw_styled_button(canvas, region, style);
    draw_key_face(canvas, model, region, def, style, inset, radius);
    let ghost button = button_shapes(region, style);
    let ghost face = key_face_shapes(model, region, *def);
    proof {
        lemma_draw_all_append(start, button, face);
    }
    if let Some(superscript) = key_superscript(model, def) {
        canvas.text_centered(superscript, region.x + region.width / 2, region.y - 11, 2, superscript_color(model));
    }
    proof {
        lemma_draw_all_append(start, button + face, key_superscript_shapes(model, region, *def));
        if key_superscript_spec(model, def.drow, def.dcol) is None {
            assert(button + face + Seq::<Shape>::empty() =~= button + face);
        }
    }
}

/// The key caps of the first `n` keys of a layout that have a region on the skin.
pub open spec fn keys_shapes(model: MachineModel, layout: Seq<KeyDef>, regions: Seq<Option<Rect>>, n: nat) -> Seq<Shape>
    decreases n,
{
    if n == 0 {
        Seq::empty()
    } else {
        keys_shapes(model, layout, regions, (n - 1) as nat) + match regions[n - 1] {
            Some(region) => key_shapes(model, region, layout[n - 1]),
            None => Seq::empty(),
        }
    }
}

/// Regions, one per layout key, each absent or fitting a key cap, for keys
/// whose labels fit on a key.
pub open spec fn key_regions_ok(layout: Seq<KeyDef>, regions: Seq<Option<Rect>>) -> bool {
    &&& regions.len() == layout.len()
    &&& forall|i: int| 0 <= i < regions.len() ==> match #[trigger] regions[i] {
        Some(region) => key_region_ok(region, layout[i].label@.len()),
        None => true,
    }
}

/// Draw every key of a layout that has a region on the skin.
pub fn draw_keys(canvas: &mut Canvas, model: MachineModel, layout: &Vec<KeyDef>, regions: &Vec<Option<Rect>>)
    requires
        old(canvas).wf(),
        key_regions_ok(layout@, regions@),
    ensures
        final(canvas).wf(),
        final(canvas)@ == draw_all(old(canvas)@, keys_shapes(model, layout@, regions@, layout@.len())),
{
    let ghost start = canvas@;
    let mut i: usize = 0;
    while i < layout.len()
        invariant
            canvas.wf(),
            i <= layout@.len(),
            key_regions_ok(layout@, regions@),
            canvas@ == draw_all(start, keys_shapes(model, layout@, regions@, i as nat)),
        decreases layout@.len() - i,
    {
        let ghost before = keys_shapes(model, layout@, regions@, i as nat);
        match regions[i] {
            Some(region) => {
                assert(key_region_ok(region, layout@[i as int].label@.len()));
                draw_key(canvas, model, region, &layout[i]);
                proof {
                    lemma_draw_all_append(start, before, key_shapes(model, region, layout@[i as int]));
                }
            },
            None => {
                assert(before + Seq::<Shape>::empty() =~= before);
            },
        }
        i = i + 1;
    }
}

} // verus!
