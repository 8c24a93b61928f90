use wqxemu::canvas::{isqrt, mix, pixels_rgb, rgb_to_pixels, Canvas, Rect, WINDOW_BACKGROUND};
use wqxemu::cases::{cc800_case, nc1020_case, nc1020_trim, nc2000_case, nc3000_case, nc3000_trim, pc1000_case};
use wqxemu::device::{device_picture, render, run_op, SkinOp};
use wqxemu::glyphs::glyph;
use wqxemu::keyboard::layout_for;
use wqxemu::machine::MachineModel;
use wqxemu::screenshot::screenshot_rgba;
use wqxemu::skin::{draw_key, draw_styled_button};
use wqxemu::skin_style::{
    arrow_direction, compact_label, key_style, key_sublabel, key_superscript, label_size, numeric_legend,
    ButtonShape, ButtonStyle,
};

const SOURCE_WIDTH: usize = 1086;
const SOURCE_HEIGHT: usize = 1448;

fn screen() -> Rect {
    Rect { x: 100, y: 120, width: 640, height: 320 }
}

#[test]
fn mix_averages_each_channel_rounding_down() {
    assert_eq!(mix(0xFFFFFF, 0x000000, 1, 1), 0x7F7F7F);
    assert_eq!(mix(0x1E5BC6, 0xAAAAAA, 1, 1), 0x6482B8);
    assert_eq!(mix(0x102030, 0xFFFFFF, 1, 0), 0x102030);
    assert_eq!(mix(0x102030, 0xFFFFFF, 0, 3), 0xFFFFFF);
}

#[test]
fn isqrt_rounds_down() {
    assert_eq!(isqrt(0), 0);
    assert_eq!(isqrt(15), 3);
    assert_eq!(isqrt(16), 4);
    assert_eq!(isqrt(98 * 98 - 5 * 5), 97);
}

#[test]
fn glyphs_cover_letters_and_fall_back_to_blank() {
    assert_eq!(glyph('A'), [0x0E, 0x11, 0x11, 0x1F, 0x11, 0x11, 0x11]);
    assert_eq!(glyph('I'), [0x0E, 0x04, 0x04, 0x04, 0x04, 0x04, 0x0E]);
    assert_eq!(glyph('~'), [0; 7]);
}

#[test]
fn a_new_canvas_shows_the_window_background() {
    let canvas = Canvas::new(4, 3);
    assert_eq!(canvas.width(), 4);
    assert_eq!(canvas.height(), 3);
    for y in 0..3 {
        for x in 0..4 {
            assert_eq!(canvas.pixel(x, y), WINDOW_BACKGROUND);
        }
    }
}

#[test]
fn a_square_cornered_rectangle_fills_exactly_its_area() {
    let mut canvas = Canvas::new(10, 6);
    canvas.rounded_rect(Rect { x: 2, y: 1, width: 4, height: 3 }, 0, 0x123456);
    for y in 0..6 {
        for x in 0..10 {
            let inside = (2..6).contains(&x) && (1..4).contains(&y);
            let expected = if inside { 0x123456 } else { WINDOW_BACKGROUND };
            assert_eq!(canvas.pixel(x, y), expected, "pixel {x},{y}");
        }
    }
}

#[test]
fn rounded_corners_stay_unpainted() {
    let mut canvas = Canvas::new(12, 12);
    canvas.rounded_rect(Rect { x: 0, y: 0, width: 10, height: 10 }, 4, 0xABCDEF);
    assert_eq!(canvas.pixel(0, 0), WINDOW_BACKGROUND);
    assert_eq!(canvas.pixel(9, 9), WINDOW_BACKGROUND);
    assert_eq!(canvas.pixel(4, 0), 0xABCDEF);
    assert_eq!(canvas.pixel(5, 5), 0xABCDEF);
    assert_eq!(canvas.pixel(10, 5), WINDOW_BACKGROUND);
}

#[test]
fn a_gradient_runs_from_the_top_colour_to_the_bottom_colour() {
    let mut canvas = Canvas::new(2, 3);
    canvas.gradient_rounded_rect(Rect { x: 0, y: 0, width: 2, height: 3 }, 0, 0xFFFFFF, 0x000000);
    assert_eq!(canvas.pixel(0, 0), 0xFFFFFF);
    assert_eq!(canvas.pixel(1, 1), 0x7F7F7F);
    assert_eq!(canvas.pixel(0, 2), 0x000000);
}

#[test]
fn circles_and_rings_cover_their_discs() {
    let mut canvas = Canvas::new(9, 9);
    canvas.circle(4, 4, 2, 0x111111);
    assert_eq!(canvas.pixel(4, 4), 0x111111);
    assert_eq!(canvas.pixel(6, 4), 0x111111);
    assert_eq!(canvas.pixel(6, 6), WINDOW_BACKGROUND);
    canvas.ring(4, 4, 4, 1, 0x222222);
    assert_eq!(canvas.pixel(8, 4), 0x222222);
    assert_eq!(canvas.pixel(4, 4), 0x111111);
    assert_eq!(canvas.pixel(7, 4), WINDOW_BACKGROUND);
}

#[test]
fn text_is_centred_in_the_pixel_font() {
    let mut canvas = Canvas::new(20, 20);
    canvas.text_centered("i", 10, 10, 1, 0x000001);
    // "I": top row 01110, second row 00100, drawn from (8, 7).
    assert_eq!(canvas.pixel(8, 7), WINDOW_BACKGROUND);
    assert_eq!(canvas.pixel(9, 7), 0x000001);
    assert_eq!(canvas.pixel(11, 7), 0x000001);
    assert_eq!(canvas.pixel(12, 7), WINDOW_BACKGROUND);
    assert_eq!(canvas.pixel(10, 8), 0x000001);
    assert_eq!(canvas.pixel(9, 8), WINDOW_BACKGROUND);
}

#[test]
fn triangles_point_the_way_they_are_told() {
    let mut canvas = Canvas::new(30, 30);
    canvas.triangle(15, 15, 6, (1, 0), 0x333333);
    assert_eq!(canvas.pixel(20, 15), 0x333333);
    assert_eq!(canvas.pixel(10, 15), 0x333333);
    assert_eq!(canvas.pixel(20, 10), WINDOW_BACKGROUND);
    assert_eq!(canvas.pixel(10, 10), 0x333333);
}

#[test]
fn buttons_return_their_face_and_radius() {
    let mut canvas = Canvas::new(80, 60);
    let style = ButtonStyle { face: 0xDCDBD9, border: 0x6E7072, text: 0, shape: ButtonShape::Rect(6) };
    let region = Rect { x: 10, y: 10, width: 40, height: 30 };
    let (face, radius) = draw_styled_button(&mut canvas, region, style);
    assert_eq!(face, Rect { x: 13, y: 13, width: 34, height: 23 });
    assert_eq!(radius, 4);
    // The border shows between the shadow and the face.
    assert_eq!(canvas.pixel(11, 20), 0x6E7072);
    let capsule = ButtonStyle { shape: ButtonShape::Capsule, ..style };
    let (_, capsule_radius) = draw_styled_button(&mut canvas, region, capsule);
    assert_eq!(capsule_radius, 13);
}

#[test]
fn key_legends_follow_the_calculator_block() {
    let layout = layout_for(MachineModel::Nc2000);
    let key = |label: &str| *layout.iter().find(|key| key.label == label).unwrap();
    assert_eq!(numeric_legend(&key("T")), Some("7"));
    assert_eq!(numeric_legend(&key("Q")), None);
    assert_eq!(key_sublabel(&key("Q")), Some("sin"));
    assert_eq!(key_superscript(MachineModel::Nc2000, &key("Q")), Some("SIN-1"));
    assert_eq!(arrow_direction("PGUP"), Some((0, -1)));
    assert_eq!(arrow_direction("Q"), None);
    assert_eq!(compact_label("SHIFT"), "SHFT");
    assert_eq!(compact_label("Q"), "Q");
    assert_eq!(label_size(Rect { x: 0, y: 0, width: 64, height: 50 }, "Q"), 5);
    assert_eq!(label_size(Rect { x: 0, y: 0, width: 64, height: 50 }, "HELP"), 2);
    assert_eq!(key_style(MachineModel::Nc2000, &key("Q")).face, 0xD8D9D7);
}

#[test]
fn a_key_cap_is_drawn_with_its_border() {
    let layout = layout_for(MachineModel::Nc2000);
    let def = layout[0];
    let mut canvas = Canvas::new(200, 120);
    let region = Rect { x: 40, y: 30, width: 80, height: 50 };
    draw_key(&mut canvas, MachineModel::Nc2000, region, &def);
    let style = key_style(MachineModel::Nc2000, &def);
    assert_eq!(canvas.pixel(41, 55), style.border);
    assert_eq!(canvas.pixel(5, 5), WINDOW_BACKGROUND);
}

#[test]
fn case_operation_lists_have_their_fixed_lengths() {
    assert_eq!(nc1020_case(screen()).len(), 16);
    assert_eq!(nc1020_trim().len(), 10);
    assert_eq!(pc1000_case(screen()).len(), 26);
    assert_eq!(cc800_case(screen()).len(), 17);
    assert_eq!(nc2000_case(screen()).len(), 16);
    assert_eq!(nc3000_case(screen()).len(), 21);
    assert_eq!(nc3000_trim().len(), 19);
}

#[test]
fn skin_operations_draw_through_the_canvas() {
    let mut canvas = Canvas::new(40, 40);
    run_op(&mut canvas, SkinOp::Panel(Rect { x: 0, y: 0, width: 40, height: 40 }, 0, 0x0F0F0F));
    run_op(&mut canvas, SkinOp::Disc(20, 20, 3, 0xF00000));
    assert_eq!(canvas.pixel(0, 0), 0x0F0F0F);
    assert_eq!(canvas.pixel(20, 22), 0xF00000);
}

#[test]
fn rendering_at_the_source_size_shows_the_drawn_device() {
    let layout = layout_for(MachineModel::Nc1020);
    let regions = vec![None; layout.len()];
    let pixels = render(
        MachineModel::Nc1020,
        SOURCE_WIDTH,
        SOURCE_HEIGHT,
        SOURCE_WIDTH,
        SOURCE_HEIGHT,
        screen(),
        &layout,
        &regions,
    );
    assert_eq!(pixels.len(), SOURCE_WIDTH * SOURCE_HEIGHT);
    let at = |x: usize, y: usize| pixels[y * SOURCE_WIDTH + x];
    assert_eq!(at(5, 5), WINDOW_BACKGROUND);
    assert_eq!(at(40, 700), 0x1E5BC6);
    assert_eq!(at(400, 300), 0x96AC79);
}

#[test]
fn rendering_resamples_to_the_window_size() {
    let layout = layout_for(MachineModel::Nc3000);
    let regions = vec![None; layout.len()];
    let pixels = render(MachineModel::Nc3000, SOURCE_WIDTH, SOURCE_HEIGHT, 181, 241, screen(), &layout, &regions);
    assert_eq!(pixels.len(), 181 * 241);
}

#[test]
fn rgb_bytes_round_trip() {
    let pixels = vec![0x123456, 0xFFFFFF, 0x000000];
    let bytes = pixels_rgb(&pixels);
    assert_eq!(bytes, vec![0x12, 0x34, 0x56, 0xFF, 0xFF, 0xFF, 0, 0, 0]);
    assert_eq!(rgb_to_pixels(&bytes), pixels);
}

#[test]
fn screenshots_are_rgba() {
    let pixels = vec![0x80123456, 0xFFABCDEF, 0x00000000];
    assert_eq!(screenshot_rgba(&pixels, 2, 1), vec![0x12, 0x34, 0x56, 0x80, 0xAB, 0xCD, 0xEF, 0xFF]);
}

#[test]
fn the_smallest_key_region_is_drawn() {
    let layout = layout_for(MachineModel::Nc2000);
    for def in layout.iter() {
        let mut canvas = Canvas::new(60, 40);
        let region = Rect { x: 20, y: 11, width: 19, height: 13 };
        draw_key(&mut canvas, MachineModel::Nc2000, region, def);
        assert_ne!(canvas.pixel(25, 12), WINDOW_BACKGROUND);
        assert_eq!(canvas.pixel(0, 39), WINDOW_BACKGROUND);
    }
}

#[test]
fn a_key_beyond_the_canvas_with_a_long_label_leaves_it_unchanged() {
    let layout = layout_for(MachineModel::Nc1020);
    let mut def = layout[0];
    def.label = Box::leak("Q".repeat(3000).into_boxed_str());
    let mut canvas = Canvas::new(30, 30);
    let region = Rect { x: 5000, y: 6000, width: 80, height: 50 };
    draw_key(&mut canvas, MachineModel::Nc1020, region, &def);
    for y in 0..30 {
        for x in 0..30 {
            assert_eq!(canvas.pixel(x, y), WINDOW_BACKGROUND);
        }
    }
}

#[test]
fn a_screen_at_the_bezel_margin_gets_its_bezel() {
    let layout = layout_for(MachineModel::Nc1020);
    let regions = vec![None; layout.len()];
    let screen = Rect { x: 14, y: 14, width: 640, height: 320 };
    let pixels = render(
        MachineModel::Nc1020,
        SOURCE_WIDTH,
        SOURCE_HEIGHT,
        SOURCE_WIDTH,
        SOURCE_HEIGHT,
        screen,
        &layout,
        &regions,
    );
    assert_eq!(pixels[10 * SOURCE_WIDTH + 10], 0x2E3236);
    assert_eq!(pixels[100 * SOURCE_WIDTH + 100], 0x96AC79);
}

#[test]
fn the_device_picture_is_what_rendering_resamples() {
    let layout = layout_for(MachineModel::Nc1020);
    let regions = vec![None; layout.len()];
    let picture = device_picture(MachineModel::Nc1020, SOURCE_WIDTH, SOURCE_HEIGHT, screen(), &layout, &regions);
    let pixels = render(
        MachineModel::Nc1020,
        SOURCE_WIDTH,
        SOURCE_HEIGHT,
        SOURCE_WIDTH,
        SOURCE_HEIGHT,
        screen(),
        &layout,
        &regions,
    );
    assert_eq!(picture.pixel(40, 700), 0x1E5BC6);
    for (x, y) in [(5, 5), (40, 700), (400, 300), (543, 712)] {
        assert_eq!(pixels[y * SOURCE_WIDTH + x], picture.pixel(x, y));
    }
}
