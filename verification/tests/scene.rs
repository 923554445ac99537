use triangle_scene::app::{App, Response, WindowEvent};
use triangle_scene::camera::{
    frame_angles, FRAME_LIMIT, FRAME_START, FrameAngles, PITCH_A_RATE, PITCH_B_RATE, ROLL_A_RATE, ROLL_B_RATE,
};
use triangle_scene::fps::{FpsCounter, FpsReport, NANOS_PER_SECOND};
use triangle_scene::state::{FrameUpdate, Key, RenderStep, State, SurfaceStatus};
use triangle_scene::vertices::{
    indices_a_zad1, indices_a_zad2, indices_b_zad1, indices_b_zad2, scene_index_buffers,
    vertex_layout, VertexFormat, VertexStepMode, VERTEX_COUNT_A, VERTEX_COUNT_B, VERTEX_STRIDE,
};

#[test]
fn rates_follow_album_digits() {
    assert_eq!(ROLL_A_RATE, 21);
    assert_eq!(PITCH_A_RATE, 19);
    assert_eq!(ROLL_B_RATE, -29);
    assert_eq!(PITCH_B_RATE, -11);
}

#[test]
fn angles_start_at_rest() {
    assert_eq!(
        frame_angles(0),
        FrameAngles { roll_a: 0, pitch_a: 0, roll_b: 0, pitch_b: 0 }
    );
}

#[test]
fn angles_of_frame_ten() {
    assert_eq!(
        frame_angles(10),
        FrameAngles { roll_a: 210, pitch_a: 190, roll_b: -290, pitch_b: -110 }
    );
}

#[test]
fn angles_advance_by_rate() {
    let a = frame_angles(41);
    let b = frame_angles(42);
    assert_eq!(b.roll_a - a.roll_a, ROLL_A_RATE);
    assert_eq!(b.pitch_a - a.pitch_a, PITCH_A_RATE);
    assert_eq!(b.roll_b - a.roll_b, ROLL_B_RATE);
    assert_eq!(b.pitch_b - a.pitch_b, PITCH_B_RATE);
}

#[test]
fn angles_of_last_frame_do_not_overflow() {
    let a = frame_angles(u32::MAX);
    assert_eq!(a.roll_a, (u32::MAX as i64) * 21);
    assert_eq!(a.roll_b, -(u32::MAX as i64) * 29);
}

#[test]
fn index_lists_of_both_parts() {
    let a = vec![0u16, 1, 3, 1, 4, 3, 1, 2, 4, 2, 5, 4, 0, 5, 2, 0, 3, 5];
    assert_eq!(indices_a_zad1(), a);
    assert_eq!(indices_a_zad2(), a);
    assert_eq!(indices_b_zad1(), vec![0u16, 1, 2]);
    assert_eq!(indices_b_zad2(), vec![0u16, 1, 2]);
}

#[test]
fn index_lists_are_triangle_lists() {
    let a = indices_a_zad1();
    let b = indices_b_zad1();
    assert_eq!(a.len() / 3, 6);
    assert_eq!(a.len() % 3, 0);
    assert_eq!(b.len() / 3, 1);
    assert!(a.iter().all(|&i| i < VERTEX_COUNT_A));
    assert!(b.iter().all(|&i| i < VERTEX_COUNT_B));
    for t in a.chunks(3) {
        assert!(t[0] != t[1] && t[1] != t[2] && t[2] != t[0]);
    }
}

#[test]
fn triangle_a_is_a_ring() {
    let a = indices_a_zad1();
    let mut edges = Vec::new();
    for t in a.chunks(3) {
        edges.push((t[0], t[1]));
        edges.push((t[1], t[2]));
        edges.push((t[2], t[0]));
    }
    let mut border: Vec<(u16, u16)> = edges
        .iter()
        .copied()
        .filter(|&(x, y)| !edges.contains(&(y, x)))
        .collect();
    border.sort();
    assert_eq!(border, vec![(0, 1), (1, 2), (2, 0), (3, 5), (4, 3), (5, 4)]);
    for (i, e) in edges.iter().enumerate() {
        assert!(!edges[i + 1..].contains(e));
    }
}

#[test]
fn vertex_layout_tiles_vertex() {
    let layout = vertex_layout();
    assert_eq!(layout.array_stride, 48);
    assert_eq!(VERTEX_STRIDE, 48);
    assert_eq!(layout.step_mode, VertexStepMode::Vertex);
    assert_eq!(layout.attributes.len(), 3);
    for (i, attr) in layout.attributes.iter().enumerate() {
        assert_eq!(attr.offset, 16 * i as u64);
        assert_eq!(attr.shader_location, i as u32);
        assert_eq!(attr.format, VertexFormat::Float32x4);
    }
}

fn decode(bytes: &[u8], little: bool) -> Vec<u16> {
    bytes
        .chunks(2)
        .map(|p| if little { p[0] as u16 | (p[1] as u16) << 8 } else { p[1] as u16 | (p[0] as u16) << 8 })
        .collect()
}

#[test]
fn index_buffers_hold_index_bytes() {
    for config in [true, false] {
        let (a, b) = scene_index_buffers(config);
        assert_eq!(a.num_indices, 18);
        assert_eq!(b.num_indices, 3);
        assert_eq!(a.contents.len(), 36);
        assert_eq!(b.contents.len(), 6);
        let le = decode(&a.contents, true) == indices_a_zad1()
            && decode(&b.contents, true) == indices_b_zad1();
        let be = decode(&a.contents, false) == indices_a_zad1()
            && decode(&b.contents, false) == indices_b_zad1();
        assert!(le || be);
    }
}

#[test]
fn index_buffer_bytes_on_this_machine() {
    let (_, b) = scene_index_buffers(true);
    let expected: Vec<u8> = [0u16, 1, 2].iter().flat_map(|i| i.to_ne_bytes()).collect();
    assert_eq!(b.contents, expected);
}

#[test]
fn fps_counter_reports_after_a_second() {
    let mut c = FpsCounter::new();
    assert_eq!(c.tick(400_000_000), None);
    assert_eq!(c.tick(400_000_000), None);
    assert_eq!(c.frame_count(), 2);
    assert_eq!(c.accum_nanos(), 800_000_000);
    assert_eq!(c.tick(200_000_000), Some(FpsReport { frames: 3, nanos: NANOS_PER_SECOND }));
    assert_eq!(c.frame_count(), 0);
    assert_eq!(c.accum_nanos(), 0);
}

#[test]
fn fps_counter_long_frame_saturates() {
    let mut c = FpsCounter::new();
    assert_eq!(c.tick(5), None);
    assert_eq!(c.tick(u64::MAX), Some(FpsReport { frames: 2, nanos: u64::MAX }));
    assert_eq!(c.accum_nanos(), 0);
}

#[test]
fn fps_counter_counts_every_frame_once() {
    let mut c = FpsCounter::new();
    let mut reported = 0u32;
    let times = [300_000_000u64, 900_000_000, 1, 2_000_000_000, 10, 20, 999_999_999];
    for t in times {
        if let Some(r) = c.tick(t) {
            reported += r.frames;
        }
    }
    assert_eq!(reported + c.frame_count(), times.len() as u32);
    assert!(c.accum_nanos() < NANOS_PER_SECOND);
}

#[test]
fn new_state_is_unconfigured() {
    let s = State::new(true, 640, 480);
    assert!(s.config_zad1());
    assert_eq!(s.width(), 640);
    assert_eq!(s.height(), 480);
    assert!(!s.is_surface_configured());
    assert_eq!(s.frame_index(), 0);
    assert_eq!(s.frame_count(), 0);
    assert!(s.can_update());
}

#[test]
fn resize_ignores_zero_sides() {
    let mut s = State::new(false, 640, 480);
    assert!(!s.resize(0, 300));
    assert!(!s.resize(300, 0));
    assert_eq!((s.width(), s.height()), (640, 480));
    assert!(!s.is_surface_configured());
    assert!(s.resize(800, 600));
    assert_eq!((s.width(), s.height()), (800, 600));
    assert!(s.is_surface_configured());
    assert!(!s.resize(0, 0));
    assert!(s.is_surface_configured());
    assert_eq!((s.width(), s.height()), (800, 600));
}

#[test]
fn escape_and_space_exit_when_pressed() {
    let s = State::new(true, 640, 480);
    assert!(s.handle_key(Key::Escape, true));
    assert!(s.handle_key(Key::Space, true));
    assert!(!s.handle_key(Key::Escape, false));
    assert!(!s.handle_key(Key::Space, false));
    assert!(!s.handle_key(Key::Other, true));
}

#[test]
fn part_one_stays_still() {
    let mut s = State::new(true, 640, 480);
    for _ in 0..5 {
        let u = s.update(16_000_000);
        assert_eq!(u, FrameUpdate { fps: None, angles: None });
    }
    assert_eq!(s.frame_index(), 0);
    assert_eq!(s.frame_count(), 5);
}

#[test]
fn part_two_animates() {
    let mut s = State::new(false, 640, 480);
    assert_eq!(s.update(16_000_000).angles, Some(frame_angles(0)));
    assert_eq!(s.update(16_000_000).angles, Some(frame_angles(1)));
    assert_eq!(s.update(16_000_000).angles, Some(frame_angles(2)));
    assert_eq!(s.frame_index(), 3);
}

#[test]
fn update_reports_frame_rate() {
    let mut s = State::new(false, 640, 480);
    assert_eq!(s.update(600_000_000).fps, None);
    assert_eq!(
        s.update(600_000_000).fps,
        Some(FpsReport { frames: 2, nanos: 1_200_000_000 })
    );
    assert_eq!(s.frame_count(), 0);
}

#[test]
fn render_skips_until_configured() {
    let s = State::new(false, 640, 480);
    for status in [
        SurfaceStatus::Success,
        SurfaceStatus::Suboptimal,
        SurfaceStatus::Lost,
        SurfaceStatus::Outdated,
    ] {
        assert_eq!(s.render(status), RenderStep::Skip { reconfigure: false });
    }
}

#[test]
fn render_follows_surface_status() {
    let mut s = State::new(false, 640, 480);
    s.resize(640, 480);
    assert_eq!(s.render(SurfaceStatus::Success), RenderStep::Draw { reconfigure: false });
    assert_eq!(s.render(SurfaceStatus::Suboptimal), RenderStep::Draw { reconfigure: true });
    assert_eq!(s.render(SurfaceStatus::Timeout), RenderStep::Skip { reconfigure: false });
    assert_eq!(s.render(SurfaceStatus::Occluded), RenderStep::Skip { reconfigure: false });
    assert_eq!(s.render(SurfaceStatus::Validation), RenderStep::Skip { reconfigure: false });
    assert_eq!(s.render(SurfaceStatus::Outdated), RenderStep::Skip { reconfigure: true });
    assert_eq!(s.render(SurfaceStatus::Lost), RenderStep::Fail);
}

#[test]
fn app_ignores_events_before_window() {
    let mut app = App::new(true);
    assert!(app.state().is_none());
    assert_eq!(app.window_event(WindowEvent::CloseRequested), Response::Ignore);
    assert_eq!(
        app.window_event(WindowEvent::RedrawRequested { elapsed_nanos: 5 }),
        Response::Ignore
    );
    assert!(app.state().is_none());
}

#[test]
fn app_routes_events() {
    let mut app = App::new(false);
    app.resumed(640, 480);
    assert!(!app.state().as_ref().unwrap().config_zad1());
    assert_eq!(app.window_event(WindowEvent::CursorMoved), Response::Ignore);
    assert_eq!(app.window_event(WindowEvent::Other), Response::Ignore);
    assert_eq!(
        app.window_event(WindowEvent::Resized { width: 0, height: 10 }),
        Response::Resized { reconfigure: false }
    );
    assert_eq!(
        app.window_event(WindowEvent::Resized { width: 1024, height: 768 }),
        Response::Resized { reconfigure: true }
    );
    assert_eq!(app.state().as_ref().unwrap().width(), 1024);
    assert_eq!(
        app.window_event(WindowEvent::RedrawRequested { elapsed_nanos: 10 }),
        Response::Redraw(FrameUpdate { fps: None, angles: Some(frame_angles(0)) })
    );
    assert_eq!(
        app.window_event(WindowEvent::KeyboardInput { key: Key::Other, pressed: true }),
        Response::Ignore
    );
    assert_eq!(
        app.window_event(WindowEvent::KeyboardInput { key: Key::Escape, pressed: true }),
        Response::Exit
    );
    assert_eq!(app.window_event(WindowEvent::CloseRequested), Response::Exit);
}

#[test]
fn animation_stops_after_last_frame() {
    let mut s = State::new(false, 640, 480);
    assert_eq!(s.frame_index(), FRAME_START);
    for n in FRAME_START..FRAME_LIMIT {
        assert_eq!(s.update(1_000).angles, Some(frame_angles(n)));
    }
    assert_eq!(s.frame_index(), FRAME_LIMIT);
    assert_eq!(FRAME_LIMIT - FRAME_START, 180);
    assert_eq!(s.update(1_000).angles, None);
    assert_eq!(s.update(1_000).angles, None);
    assert_eq!(s.frame_index(), FRAME_LIMIT);
}
