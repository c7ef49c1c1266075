use cipher_bench::surface::ux_registration;
use cipher_bench::surface::CanvasId;
use cipher_bench::surface::DrawCommand;
use cipher_bench::surface::DrawStyle;
use cipher_bench::surface::GlyphStyle;
use cipher_bench::surface::Panel;
use cipher_bench::surface::PixelColor;
use cipher_bench::surface::Point;
use cipher_bench::surface::Rectangle;
use cipher_bench::surface::ReportSurface;
use cipher_bench::surface::UxType;
use cipher_bench::surface::DECRYPT_DIVISOR;
use cipher_bench::surface::ENCRYPT_DIVISOR;
use cipher_bench::surface::KEYGEN_DIVISOR;

const TOKEN: [u32; 4] = [11, 12, 13, 14];
const CANVAS: CanvasId = CanvasId { gid: [1, 2, 3, 4] };

fn surface(width: i16, height: i16) -> ReportSurface {
    ReportSurface::new(TOKEN, CANVAS, Point { x: width, y: height }).unwrap()
}

fn panel(x: i16, y: i16, width: u16, text: &str) -> Panel {
    Panel {
        canvas: CANVAS,
        anchor: Point { x, y },
        max_width: width,
        border_width: 1,
        draw_border: true,
        clear_area: true,
        rounded_border: Some(3),
        style: GlyphStyle::Regular,
        text: text.to_string(),
    }
}

fn clear(width: i16, height: i16) -> Rectangle {
    Rectangle {
        tl: Point { x: 0, y: 0 },
        br: Point { x: width, y: height },
        style: DrawStyle { fill_color: Some(PixelColor::Light), stroke_color: None, stroke_width: 0 },
    }
}

#[test]
fn surface_keeps_what_the_display_service_answered() {
    let s = surface(400, 240);
    assert_eq!(s.token(), TOKEN);
    assert_eq!(s.content(), CANVAS);
    assert_eq!(s.screensize(), Point { x: 400, y: 240 });
}

#[test]
fn negative_extent_is_no_canvas() {
    assert_eq!(ReportSurface::new(TOKEN, CANVAS, Point { x: -1, y: 240 }), None);
    assert_eq!(ReportSurface::new(TOKEN, CANVAS, Point { x: 400, y: -1 }), None);
    assert_eq!(ReportSurface::new(TOKEN, CANVAS, Point { x: i16::MIN, y: i16::MIN }), None);
}

#[test]
fn empty_canvas_is_a_canvas() {
    let s = surface(0, 0);
    assert_eq!(s.screensize(), Point { x: 0, y: 0 });
    assert_eq!(s.build_panel(KEYGEN_DIVISOR, 5), panel(0, 0, 0, "5"));
}

#[test]
fn clear_area_spans_the_whole_canvas() {
    assert_eq!(surface(400, 240).clear_area(), clear(400, 240));
    assert_eq!(surface(336, 536).clear_area(), clear(336, 536));
}

#[test]
fn divisors_are_two_three_and_four() {
    assert_eq!(KEYGEN_DIVISOR, 2);
    assert_eq!(ENCRYPT_DIVISOR, 3);
    assert_eq!(DECRYPT_DIVISOR, 4);
}

#[test]
fn anchors_on_a_canvas_of_400_by_240() {
    let s = surface(400, 240);
    let first = s.build_panel(KEYGEN_DIVISOR, 0);
    let second = s.build_panel(ENCRYPT_DIVISOR, 0);
    let third = s.build_panel(DECRYPT_DIVISOR, 0);
    assert_eq!(first.anchor, Point { x: 200, y: 120 });
    assert_eq!(second.anchor, Point { x: 200, y: 160 });
    assert_eq!(third.anchor, Point { x: 200, y: 180 });
    assert_eq!(first.max_width, 320);
    assert_eq!(second.max_width, 320);
    assert_eq!(third.max_width, 320);
}

#[test]
fn anchors_round_the_inset_down() {
    let s = surface(401, 241);
    assert_eq!(s.build_panel(2, 0).anchor, Point { x: 201, y: 121 });
    assert_eq!(s.build_panel(3, 0).anchor, Point { x: 201, y: 161 });
    assert_eq!(s.build_panel(4, 0).anchor, Point { x: 201, y: 181 });
}

#[test]
fn width_is_a_fifth_rounded_down_taken_four_times() {
    assert_eq!(surface(404, 10).build_panel(2, 0).max_width, 320);
    assert_eq!(surface(7, 10).build_panel(2, 0).max_width, 4);
    assert_eq!(surface(4, 10).build_panel(2, 0).max_width, 0);
    assert_eq!(surface(i16::MAX, 10).build_panel(2, 0).max_width, 26212);
}

#[test]
fn largest_canvas() {
    let s = surface(i16::MAX, i16::MAX);
    assert_eq!(s.build_panel(2, 0).anchor, Point { x: 16384, y: 16384 });
    assert_eq!(s.build_panel(1, 0).anchor, Point { x: 16384, y: 0 });
    assert_eq!(s.build_panel(i16::MAX, 0).anchor, Point { x: 16384, y: 32766 });
}

#[test]
fn panel_has_the_fixed_attributes() {
    let p = surface(400, 240).build_panel(3, 987654321);
    assert_eq!(p.canvas, CANVAS);
    assert_eq!(p.border_width, 1);
    assert!(p.draw_border);
    assert!(p.clear_area);
    assert_eq!(p.rounded_border, Some(3));
    assert_eq!(p.style, GlyphStyle::Regular);
    assert_eq!(p.text, "987654321");
}

#[test]
fn redraw_clears_posts_three_panels_and_flushes() {
    let commands = surface(400, 240).redraw(111, 22222, 3);
    assert_eq!(
        commands,
        vec![
            DrawCommand::FillRect(clear(400, 240)),
            DrawCommand::PostText(panel(200, 120, 320, "111")),
            DrawCommand::PostText(panel(200, 160, 320, "22222")),
            DrawCommand::PostText(panel(200, 180, 320, "3")),
            DrawCommand::Flush,
        ]
    );
}

#[test]
fn redraw_of_the_largest_totals() {
    let commands = surface(336, 536).redraw(u128::MAX, 0, u128::MAX - 1);
    assert_eq!(
        commands,
        vec![
            DrawCommand::FillRect(clear(336, 536)),
            DrawCommand::PostText(panel(168, 268, 268, "340282366920938463463374607431768211455")),
            DrawCommand::PostText(panel(168, 358, 268, "0")),
            DrawCommand::PostText(panel(168, 402, 268, "340282366920938463463374607431768211454")),
            DrawCommand::Flush,
        ]
    );
}

#[test]
fn redraw_twice_gives_the_same_commands() {
    let s = surface(400, 240);
    assert_eq!(s.redraw(5, 6, 7), s.redraw(5, 6, 7));
}

#[test]
fn registration_is_a_chat_client_that_hears_of_redraws_only() {
    let r = ux_registration("bench".to_string(), [5, 6, 7, 8]);
    assert_eq!(r.app_name, "bench");
    assert_eq!(r.ux_type, UxType::Chat);
    assert_eq!(r.predictor, None);
    assert_eq!(r.listener, [5, 6, 7, 8]);
    assert_eq!(r.redraw_id, 0);
    assert_eq!(r.gotinput_id, None);
    assert_eq!(r.audioframe_id, None);
    assert_eq!(r.rawkeys_id, None);
    assert_eq!(r.focuschange_id, None);
}
