use sandbox2d::shader::Shader;
use sandbox2d::texture::{pixel_format, PixelFormat};
use sandbox2d::viewport::fit_viewport;
use sandbox2d::window::{WindowEvent, WindowState};

#[test]
fn new_shader_knows_no_location() {
    let s = Shader::create(7);
    assert_eq!(s.id(), 7);
    assert_eq!(s.cached_location(&"model".to_string()), None);
}

#[test]
fn remembered_location_is_found() {
    let mut s = Shader::create(3);
    s.remember_location("viewProjection".to_string(), 2);
    s.remember_location("model".to_string(), 5);
    assert_eq!(s.cached_location(&"viewProjection".to_string()), Some(2));
    assert_eq!(s.cached_location(&"model".to_string()), Some(5));
    assert_eq!(s.cached_location(&"sampler0".to_string()), None);
    assert_eq!(s.id(), 3);
}

#[test]
fn later_location_replaces_earlier() {
    let mut s = Shader::create(1);
    s.remember_location("color".to_string(), 4);
    s.remember_location("color".to_string(), -1);
    assert_eq!(s.cached_location(&"color".to_string()), Some(-1));
}

#[test]
fn pixel_formats_by_channel_count() {
    assert_eq!(pixel_format(3), Some(PixelFormat::Rgb8));
    assert_eq!(pixel_format(4), Some(PixelFormat::Rgba8));
    assert_eq!(pixel_format(1), None);
    assert_eq!(pixel_format(2), None);
    assert_eq!(pixel_format(0), None);
    assert_eq!(pixel_format(-4), None);
    assert_eq!(PixelFormat::Rgb8.bytes_per_pixel(), 3);
    assert_eq!(PixelFormat::Rgba8.bytes_per_pixel(), 4);
}

#[test]
fn new_window_state_is_looping() {
    let w = WindowState::new(600, 400);
    assert_eq!(w.width(), 600);
    assert_eq!(w.height(), 400);
    assert!(w.is_looping());
}

#[test]
fn close_stops_the_loop() {
    let mut w = WindowState::new(600, 400);
    w.close();
    assert!(!w.is_looping());
    assert_eq!(w.width(), 600);
}

#[test]
fn resize_event_sets_size_and_asks_for_viewport() {
    let mut w = WindowState::new(600, 400);
    assert_eq!(w.handle_event(WindowEvent::Resized(800, 450)), Some((800, 450)));
    assert_eq!(w.width(), 800);
    assert_eq!(w.height(), 450);
    assert!(w.is_looping());
}

#[test]
fn escape_event_closes_window() {
    let mut w = WindowState::new(600, 400);
    assert_eq!(w.handle_event(WindowEvent::EscapePressed), None);
    assert!(!w.is_looping());
    assert_eq!(w.handle_event(WindowEvent::Other), None);
    assert!(!w.is_looping());
}

#[test]
fn events_are_taken_in_order() {
    let mut w = WindowState::new(600, 400);
    let events = vec![
        WindowEvent::Resized(1024, 768),
        WindowEvent::Other,
        WindowEvent::Resized(1920, 1080),
    ];
    let viewports = w.handle_window_event(&events);
    assert_eq!(viewports, vec![(1024, 768), (1920, 1080)]);
    assert_eq!(w.width(), 1920);
    assert_eq!(w.height(), 1080);
    assert!(w.is_looping());
}

#[test]
fn no_events_change_nothing() {
    let mut w = WindowState::new(640, 480);
    let viewports = w.handle_window_event(&Vec::new());
    assert!(viewports.is_empty());
    assert_eq!((w.width(), w.height(), w.is_looping()), (640, 480, true));
}

#[test]
fn wide_window_is_pillarboxed() {
    // 2000x400 at 16:9: full height, width 400 * 16 / 9.
    assert_eq!(fit_viewport(2000, 400, 16, 9), (400 * 16, 400 * 9, 9));
    let (w, h, d) = fit_viewport(2000, 400, 16, 9);
    assert!(((w as f64 / d as f64) - 711.111_111).abs() < 1e-3);
    assert_eq!(h / d as u64, 400);
}

#[test]
fn tall_window_is_letterboxed() {
    // 600x400 at 16:9: full width, height 600 * 9 / 16 = 337.5.
    assert_eq!(fit_viewport(600, 400, 16, 9), (600 * 16, 600 * 9, 16));
    let (w, h, d) = fit_viewport(600, 400, 16, 9);
    assert_eq!(w as f64 / d as f64, 600.0);
    assert_eq!(h as f64 / d as f64, 337.5);
}

#[test]
fn window_at_target_ratio_is_filled() {
    let (w, h, d) = fit_viewport(1920, 1080, 16, 9);
    assert_eq!((w / d as u64, h / d as u64), (1920, 1080));
    assert_eq!((w % d as u64, h % d as u64), (0, 0));
}

#[test]
fn fitted_viewport_keeps_ratio() {
    for &(w, h) in &[(600u32, 400u32), (800, 450), (1, 1), (4000, 10), (10, 4000), (1366, 768), (2000, 400)] {
        let (fw, fh, d) = fit_viewport(w, h, 16, 9);
        assert!(d > 0 && fw > 0 && fh > 0);
        assert_eq!(fw * 9, fh * 16);
        assert!(fw <= w as u64 * d as u64 && fh <= h as u64 * d as u64);
        assert!(fw == w as u64 * d as u64 || fh == h as u64 * d as u64);
        let ratio = (fw as f64 / d as f64) / (fh as f64 / d as f64);
        assert!((ratio - 16.0 / 9.0).abs() <= 1e-9);
    }
}

#[test]
fn scaled_window_scales_viewport() {
    let (w1, h1, d1) = fit_viewport(100, 5, 16, 9);
    let (w2, h2, d2) = fit_viewport(200, 10, 16, 9);
    assert_eq!(d1, d2);
    assert_eq!((w2, h2), (2 * w1, 2 * h1));
    assert_eq!((w1 as f64 / d1 as f64, h1 as f64 / d1 as f64), (80.0 / 9.0, 5.0));
}

#[test]
fn one_pixel_window_gets_nonempty_viewport() {
    let (w, h, d) = fit_viewport(1, 1, 16, 9);
    assert_eq!((w, h, d), (16, 9, 16));
}

#[test]
fn largest_window_does_not_overflow() {
    let m = u32::MAX as u64;
    assert_eq!(fit_viewport(u32::MAX, u32::MAX, 16, 9), (m * 16, m * 9, 16));
    assert_eq!(fit_viewport(u32::MAX, 1, 16, 9), (16, 9, 9));
    assert_eq!(fit_viewport(u32::MAX, u32::MAX, u32::MAX, 1), (m * m, m, m as u32));
}

#[test]
fn two_batches_match_one_batch() {
    let first = vec![WindowEvent::Resized(800, 600), WindowEvent::EscapePressed];
    let second = vec![WindowEvent::Other, WindowEvent::Resized(300, 200)];
    let mut split = WindowState::new(10, 10);
    let mut seen = split.handle_window_event(&first);
    seen.extend(split.handle_window_event(&second));
    let mut whole = WindowState::new(10, 10);
    let all: Vec<WindowEvent> = first.iter().chain(second.iter()).copied().collect();
    let seen_whole = whole.handle_window_event(&all);
    assert_eq!(seen, seen_whole);
    assert_eq!(seen, vec![(800, 600), (300, 200)]);
    assert_eq!((split.width(), split.height(), split.is_looping()), (300, 200, false));
    assert_eq!((whole.width(), whole.height(), whole.is_looping()), (300, 200, false));
}
