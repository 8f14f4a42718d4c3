use anonpic::drawing::{
    back_buffer_step, label_fits, overlay_alpha, rgb, scene_plan, size_label_box, size_label_text, BufferStep, OVERLAY_ALPHA,
};
use anonpic::geometry::{circle_fits, Point, Rect};
use anonpic::overlay::{points_fit, region_to_capture, OverlayEvent, OverlayResponse, Selection, VK_ESCAPE};

fn lp(x: i16, y: i16) -> isize {
    ((y as u16 as isize) << 16) | (x as u16 as isize)
}

fn none() -> OverlayResponse {
    OverlayResponse {
        capture_mouse: false,
        release_mouse: false,
        repaint: false,
        paint: false,
        release_back_buffer: false,
        quit: false,
        default_handling: false,
    }
}

fn selected(start: Point, current: Point) -> Selection {
    Selection { dragging: false, committed: true, start, current, cancelled: false }
}

#[test]
fn a_fresh_selection_is_idle_at_the_origin() {
    let s = Selection::default();
    assert!(!s.dragging && !s.committed && !s.cancelled);
    assert_eq!(s.start, Point { x: 0, y: 0 });
    assert_eq!(s.current, Point { x: 0, y: 0 });
    assert_eq!(s.outcome(), None);
}

#[test]
fn press_drag_release_selects_a_region() {
    let mut s = Selection::default();
    let r = s.on_event(OverlayEvent::LeftButtonDown(lp(10, 20)));
    assert_eq!(r, OverlayResponse { capture_mouse: true, repaint: true, ..none() });
    assert!(s.dragging);
    assert_eq!(s.start, Point { x: 10, y: 20 });

    let r = s.on_event(OverlayEvent::MouseMove(lp(30, 40)));
    assert_eq!(r, OverlayResponse { repaint: true, ..none() });
    assert_eq!(s.start, Point { x: 10, y: 20 });
    assert_eq!(s.current, Point { x: 30, y: 40 });

    let r = s.on_event(OverlayEvent::LeftButtonUp(lp(-5, 60)));
    assert_eq!(r, OverlayResponse { release_mouse: true, quit: true, ..none() });
    let done = s.outcome().unwrap();
    assert!(!done.dragging && done.committed && !done.cancelled);
    assert_eq!(done.start, Point { x: 10, y: 20 });
    assert_eq!(done.current, Point { x: -5, y: 60 });
}

#[test]
fn moves_without_a_drag_change_nothing() {
    let mut s = Selection::default();
    let r = s.on_event(OverlayEvent::MouseMove(lp(30, 40)));
    assert_eq!(r, none());
    assert_eq!(s, Selection::default());
}

#[test]
fn release_without_a_drag_quits_without_a_selection() {
    let mut s = Selection::default();
    let r = s.on_event(OverlayEvent::LeftButtonUp(lp(3, 4)));
    assert!(r.quit && r.release_mouse);
    assert_eq!(s, Selection::default());
    assert_eq!(s.outcome(), None);
}

#[test]
fn escape_and_right_click_cancel() {
    let mut s = Selection::default();
    s.on_event(OverlayEvent::LeftButtonDown(lp(1, 1)));
    let r = s.on_event(OverlayEvent::KeyDown(VK_ESCAPE as usize));
    assert_eq!(r, OverlayResponse { quit: true, ..none() });
    assert!(s.cancelled);
    s.on_event(OverlayEvent::LeftButtonUp(lp(9, 9)));
    assert_eq!(s.outcome(), None);

    let mut t = Selection::default();
    let r = t.on_event(OverlayEvent::RightButtonDown);
    assert_eq!(r, OverlayResponse { quit: true, ..none() });
    assert!(t.cancelled);
    assert_eq!(t.outcome(), None);
}

#[test]
fn other_keys_are_ignored() {
    let mut s = Selection::default();
    let r = s.on_event(OverlayEvent::KeyDown(0x41));
    assert_eq!(r, none());
    assert_eq!(s, Selection::default());
}

#[test]
fn paint_destroy_and_other_messages() {
    let mut s = Selection::default();
    assert_eq!(s.on_event(OverlayEvent::Paint), OverlayResponse { paint: true, ..none() });
    assert_eq!(
        s.on_event(OverlayEvent::Destroy),
        OverlayResponse { release_back_buffer: true, quit: true, ..none() }
    );
    assert_eq!(s.on_event(OverlayEvent::Other), OverlayResponse { default_handling: true, ..none() });
    assert_eq!(s, Selection::default());
}

#[test]
fn capture_region_of_a_rectangle() {
    let s = selected(Point { x: 50, y: 60 }, Point { x: 10, y: 20 });
    assert_eq!(region_to_capture(&s, false, 1920, 1080), Some(Rect { left: 10, top: 20, right: 50, bottom: 60 }));
}

#[test]
fn capture_region_of_a_circle() {
    let s = selected(Point { x: 20, y: 40 }, Point { x: 90, y: 40 });
    assert_eq!(region_to_capture(&s, true, 100, 80), Some(Rect { left: 0, top: 20, right: 40, bottom: 60 }));
}

#[test]
fn capture_region_without_area_is_none() {
    let line = selected(Point { x: 5, y: 5 }, Point { x: 40, y: 5 });
    assert_eq!(region_to_capture(&line, false, 100, 100), None);
    let dot = selected(Point { x: 5, y: 5 }, Point { x: 5, y: 5 });
    assert_eq!(region_to_capture(&dot, true, 100, 100), None);
}

#[test]
fn packs_colors_red_first() {
    assert_eq!(rgb(1, 2, 3), 0x0003_0201);
    assert_eq!(rgb(255, 0, 0), 0xFF);
    assert_eq!(rgb(0, 0, 255), 0x00FF_0000);
}

#[test]
fn overlay_is_opaque_only_over_a_frozen_frame() {
    assert_eq!(overlay_alpha(true), 255);
    assert_eq!(overlay_alpha(false), OVERLAY_ALPHA);
    assert_eq!(OVERLAY_ALPHA, 110);
}

#[test]
fn size_label_sits_below_right_of_the_cursor() {
    let client = Rect { left: 0, top: 0, right: 200, bottom: 100 };
    let r = size_label_box(&client, Point { x: 10, y: 10 }, 40, 12);
    assert_eq!(r, Rect { left: 24, top: 24, right: 72, bottom: 44 });
}

#[test]
fn size_label_flips_at_the_right_and_bottom_edges() {
    let client = Rect { left: 0, top: 0, right: 200, bottom: 100 };
    let r = size_label_box(&client, Point { x: 180, y: 90 }, 40, 12);
    assert_eq!(r, Rect { left: 118, top: 56, right: 166, bottom: 76 });
}

#[test]
fn size_label_never_leaves_the_top_left() {
    let client = Rect { left: 0, top: 0, right: 50, bottom: 30 };
    let r = size_label_box(&client, Point { x: 5, y: 5 }, 40, 12);
    assert_eq!(r, Rect { left: 0, top: 0, right: 48, bottom: 20 });
}

#[test]
fn scene_of_an_idle_overlay_is_the_backdrop_alone() {
    let client = Rect { left: 0, top: 0, right: 200, bottom: 100 };
    let p = scene_plan(&Selection::default(), false, true, &client);
    assert!(p.frozen_backdrop);
    assert_eq!(p.region, None);
    assert!(!p.outline && !p.label);
}

#[test]
fn scene_while_dragging_has_outline_and_label() {
    let client = Rect { left: 0, top: 0, right: 200, bottom: 100 };
    let mut s = Selection::default();
    s.on_event(OverlayEvent::LeftButtonDown(lp(50, 60)));
    s.on_event(OverlayEvent::MouseMove(lp(10, 20)));
    let p = scene_plan(&s, false, false, &client);
    assert!(!p.frozen_backdrop);
    assert_eq!(p.region, Some(Rect { left: 10, top: 20, right: 50, bottom: 60 }));
    assert!(p.outline && p.label);

    let c = scene_plan(&s, true, false, &client);
    // Radius sqrt(40^2 + 40^2) = 56, clamped to the 40 left to the bottom edge.
    assert_eq!(c.region, Some(Rect { left: 10, top: 20, right: 90, bottom: 100 }));
}

#[test]
fn scene_after_commit_drops_the_label() {
    let client = Rect { left: 0, top: 0, right: 200, bottom: 100 };
    let s = selected(Point { x: 1, y: 2 }, Point { x: 3, y: 4 });
    let p = scene_plan(&s, false, false, &client);
    assert!(p.outline && !p.label);
    let flat = selected(Point { x: 1, y: 2 }, Point { x: 3, y: 2 });
    let q = scene_plan(&flat, false, false, &client);
    assert_eq!(q.region, Some(Rect { left: 1, top: 2, right: 3, bottom: 2 }));
    assert!(!q.outline);
}

#[test]
fn size_label_reads_width_by_height() {
    assert_eq!(size_label_text(640, 480), "640 \u{d7} 480");
    assert_eq!(size_label_text(0, 7), "0 \u{d7} 7");
    assert_eq!(size_label_text(-5, 10), "-5 \u{d7} 10");
    assert_eq!(size_label_text(i64::MIN, i64::MAX), "-9223372036854775808 \u{d7} 9223372036854775807");
}

#[test]
fn back_buffer_is_reused_only_at_the_same_size() {
    assert_eq!(back_buffer_step(None, 0, 10), BufferStep::Unavailable);
    assert_eq!(back_buffer_step(Some((10, 10)), 10, -1), BufferStep::Unavailable);
    assert_eq!(back_buffer_step(None, 10, 10), BufferStep::Rebuild);
    assert_eq!(back_buffer_step(Some((10, 10)), 10, 10), BufferStep::Reuse);
    assert_eq!(back_buffer_step(Some((10, 11)), 10, 10), BufferStep::Rebuild);
}

#[test]
fn range_checkers_match_the_preconditions() {
    let bounds = Rect { left: 0, top: 0, right: 100, bottom: 80 };
    assert!(circle_fits(Point { x: 20, y: 40 }, Point { x: 90, y: 40 }, &bounds));
    assert!(!circle_fits(Point { x: i32::MIN, y: 0 }, Point { x: i32::MAX, y: 0 }, &bounds));
    assert!(!circle_fits(Point { x: -10, y: 0 }, Point { x: 0, y: 0 }, &Rect { left: i32::MAX, top: 0, right: 0, bottom: 0 }));

    let client = Rect { left: 0, top: 0, right: 200, bottom: 100 };
    assert!(label_fits(&client, Point { x: 10, y: 10 }, 40, 12));
    assert!(!label_fits(&client, Point { x: i32::MAX - 5, y: 10 }, 40, 12));
    assert!(!label_fits(&client, Point { x: 10, y: 10 }, i32::MAX, 12));

    assert!(points_fit(&Selection::default()));
    let far = Selection { current: Point { x: 0x8000, y: 0 }, ..Selection::default() };
    assert!(!points_fit(&far));
    let low = Selection { start: Point { x: 0, y: -0x8000 }, ..Selection::default() };
    assert!(points_fit(&low));
}
