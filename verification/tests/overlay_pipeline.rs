use hachimi_ios::alert::{decode_alert, encode_alert};
use hachimi_ios::input::{
    is_touch_event, normalize_touch, phase_from_native, InputQueue, PointerEvent, TouchPhase,
};
use hachimi_ios::overlay::{plan_fps_unlock, OverlayState, OverlayView};
use hachimi_ios::renderer::{
    bytes_per_row, pack_rgba, plan_draws, plan_texture_update, DrawCmd, OverlayPrim, Pixel,
    TexRegion, TextureOp,
};
use hachimi_ios::scissor::{clip_to_scissor, round_to_pixels, ClipRect, ScissorRect};

fn event(id: u64, phase: TouchPhase, x: i64, y: i64) -> PointerEvent {
    PointerEvent { contact_id: id, phase, x_milli: x, y_milli: y }
}

#[test]
fn input_queue_round_trip() {
    let mut q = InputQueue::new();
    let e1 = event(1, TouchPhase::Start, 10_000, 20_000);
    let e2 = event(1, TouchPhase::Move, 11_000, 21_000);
    let e3 = event(1, TouchPhase::End, 12_000, 22_000);
    q.append(e1);
    q.append(e2);
    q.append(e3);
    assert_eq!(q.len(), 3);
    let drained = q.drain();
    assert_eq!(drained, vec![e1, e2, e3]);
    assert_eq!(q.len(), 0);
    let empty = q.drain();
    assert_eq!(empty, Vec::<PointerEvent>::new());
}

#[test]
fn drain_excludes_later_appends() {
    let mut q = InputQueue::new();
    let e1 = event(1, TouchPhase::Start, 0, 0);
    let e2 = event(2, TouchPhase::Start, 0, 0);
    q.append(e1);
    let first = q.drain();
    q.append(e2);
    let second = q.drain();
    assert_eq!(first, vec![e1]);
    assert_eq!(second, vec![e2]);
}

#[test]
fn native_phases_normalize() {
    assert_eq!(phase_from_native(0), TouchPhase::Start);
    assert_eq!(phase_from_native(1), TouchPhase::Move);
    assert_eq!(phase_from_native(2), TouchPhase::Move);
    assert_eq!(phase_from_native(3), TouchPhase::End);
    assert_eq!(phase_from_native(4), TouchPhase::Cancel);
    assert_eq!(phase_from_native(99), TouchPhase::Move);
    assert_eq!(phase_from_native(-1), TouchPhase::Move);
}

#[test]
fn touch_events_are_type_zero() {
    assert!(is_touch_event(0));
    assert!(!is_touch_event(1));
    assert!(!is_touch_event(-1));
}

#[test]
fn touches_normalize_to_events() {
    let e = normalize_touch(0xABCD, 0, 151_500, 300_250);
    assert_eq!(
        e,
        PointerEvent { contact_id: 0xABCD, phase: TouchPhase::Start, x_milli: 151_500, y_milli: 300_250 }
    );
}

#[test]
fn rounding_to_pixels_is_nearest() {
    // 100.25 logical points at scale 2 is 200.5 device pixels: rounds up.
    assert_eq!(round_to_pixels(100_250, 2000), 201);
    // 100.2 at scale 2 is 200.4: rounds down.
    assert_eq!(round_to_pixels(100_200, 2000), 200);
    assert_eq!(round_to_pixels(0, 2000), 0);
}

#[test]
fn clip_fully_outside_is_skipped() {
    let clip = ClipRect { min_x: 600_000, min_y: 0, max_x: 700_000, max_y: 100_000 };
    assert_eq!(clip_to_scissor(&clip, 2000, 1000, 1000), None);
    let below = ClipRect { min_x: 0, min_y: 600_000, max_x: 100_000, max_y: 700_000 };
    assert_eq!(clip_to_scissor(&below, 2000, 1000, 1000), None);
}

#[test]
fn zero_area_clip_is_skipped() {
    let clip = ClipRect { min_x: 100_000, min_y: 100_000, max_x: 100_000, max_y: 200_000 };
    assert_eq!(clip_to_scissor(&clip, 2000, 1000, 1000), None);
}

#[test]
fn straddling_clip_clamps_to_surface_exactly() {
    let clip = ClipRect { min_x: 100_000, min_y: 100_000, max_x: 600_000, max_y: 600_000 };
    let s = clip_to_scissor(&clip, 2000, 1000, 1000).unwrap();
    assert_eq!(s, ScissorRect { x: 200, y: 200, w: 800, h: 800 });
    assert_eq!(s.x + s.w, 1000);
    assert_eq!(s.y + s.h, 1000);
}

#[test]
fn full_screen_clip_covers_surface() {
    // Surface 1000 by 1000 pixels, content scale 2.0, clip over the whole
    // 500 by 500 logical surface.
    let clip = ClipRect { min_x: 0, min_y: 0, max_x: 500_000, max_y: 500_000 };
    let s = clip_to_scissor(&clip, 2000, 1000, 1000).unwrap();
    assert_eq!(s, ScissorRect { x: 0, y: 0, w: 1000, h: 1000 });
}

#[test]
fn end_to_end_full_screen_mesh() {
    let clip = ClipRect { min_x: 0, min_y: 0, max_x: 500_000, max_y: 500_000 };
    let prims = vec![OverlayPrim::Mesh { vertex_count: 4, index_count: 6, clip }];
    let cmds = plan_draws(&prims, 2000, 1000, 1000);
    assert_eq!(
        cmds,
        vec![DrawCmd { scissor: ScissorRect { x: 0, y: 0, w: 1000, h: 1000 }, index_count: 6 }]
    );
}

#[test]
fn empty_meshes_and_callbacks_draw_nothing() {
    let clip = ClipRect { min_x: 0, min_y: 0, max_x: 500_000, max_y: 500_000 };
    let outside = ClipRect { min_x: 600_000, min_y: 0, max_x: 700_000, max_y: 100_000 };
    let prims = vec![
        OverlayPrim::Mesh { vertex_count: 0, index_count: 6, clip },
        OverlayPrim::Callback,
        OverlayPrim::Mesh { vertex_count: 4, index_count: 9, clip: outside },
        OverlayPrim::Mesh { vertex_count: 4, index_count: 12, clip },
    ];
    let cmds = plan_draws(&prims, 2000, 1000, 1000);
    assert_eq!(
        cmds,
        vec![DrawCmd { scissor: ScissorRect { x: 0, y: 0, w: 1000, h: 1000 }, index_count: 12 }]
    );
}

#[test]
fn texture_plans_follow_delta_position() {
    assert_eq!(plan_texture_update(None, 512, 64, false), TextureOp::CreateFull { w: 512, h: 64 });
    assert_eq!(plan_texture_update(None, 512, 64, true), TextureOp::CreateFull { w: 512, h: 64 });
    assert_eq!(
        plan_texture_update(Some((8, 16)), 32, 32, true),
        TextureOp::UpdatePartial { region: TexRegion { x: 8, y: 16, w: 32, h: 32 } }
    );
    assert_eq!(plan_texture_update(Some((8, 16)), 32, 32, false), TextureOp::Skip);
}

#[test]
fn pixels_pack_to_rgba_bytes() {
    let pixels = vec![
        Pixel { r: 1, g: 2, b: 3, a: 4 },
        Pixel { r: 250, g: 251, b: 252, a: 253 },
    ];
    assert_eq!(pack_rgba(&pixels), vec![1, 2, 3, 4, 250, 251, 252, 253]);
    assert_eq!(pack_rgba(&Vec::new()), Vec::<u8>::new());
}

#[test]
fn row_stride_is_four_bytes_per_texel() {
    assert_eq!(bytes_per_row(256), 1024);
    assert_eq!(bytes_per_row(0), 0);
}

#[test]
fn first_frame_without_device_skips_overlay() {
    let mut s = OverlayState::new();
    let p = s.begin_frame(false);
    assert!(p.init_context);
    assert!(!p.bind_device);
    assert!(!p.render);
    assert!(s.context_ready);
    assert!(!s.device_bound);
}

#[test]
fn device_binds_once_then_renders() {
    let mut s = OverlayState::new();
    let _ = s.begin_frame(false);
    let p2 = s.begin_frame(true);
    assert!(!p2.init_context);
    assert!(p2.bind_device);
    assert!(p2.render);
    let p3 = s.begin_frame(true);
    assert!(!p3.bind_device);
    assert!(p3.render);
    let p4 = s.begin_frame(false);
    assert!(!p4.bind_device);
    assert!(p4.render);
}

#[test]
fn menu_switches_between_views() {
    let mut s = OverlayState::new();
    assert_eq!(s.current_view(), OverlayView::Trigger);
    s.on_trigger_clicked();
    assert_eq!(s.current_view(), OverlayView::Control);
    s.on_menu_closed();
    assert_eq!(s.current_view(), OverlayView::Trigger);
}

#[test]
fn fps_unlock_takes_both_paths() {
    let p = plan_fps_unlock(true, 0x9000, 240);
    assert!(p.store_config);
    assert!(p.invoke_host);
    assert_eq!(p.target_fps, 240);
    let q = plan_fps_unlock(false, 0, 240);
    assert!(!q.store_config);
    assert!(!q.invoke_host);
}

#[test]
fn alert_payload_round_trips() {
    let payload = encode_alert("Hachimi Edge", "Injection complete");
    assert_eq!(payload, "Hachimi Edge|||Injection complete");
    let (title, message) = decode_alert(&payload);
    assert_eq!(title, "Hachimi Edge");
    assert_eq!(message, "Injection complete");
}

#[test]
fn alert_without_delimiter_falls_back() {
    let (title, message) = decode_alert("just a message");
    assert_eq!(title, "Hachimi");
    assert_eq!(message, "just a message");
}

#[test]
fn alert_with_two_delimiters_falls_back() {
    let (title, message) = decode_alert("a|||b|||c");
    assert_eq!(title, "Hachimi");
    assert_eq!(message, "a|||b|||c");
}

#[test]
fn empty_alert_parts_round_trip() {
    let payload = encode_alert("", "");
    assert_eq!(payload, "|||");
    let (title, message) = decode_alert(&payload);
    assert_eq!(title, "");
    assert_eq!(message, "");
}
