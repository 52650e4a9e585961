use three_body_tui::engine::{next_fps, Key, Simulation, TickPlan};
use three_body_tui::physics::nbody_settings;
use three_body_tui::settings::Settings;

#[test]
fn fresh_engine_is_paused() {
    let s = Simulation::new();
    assert!(s.is_paused());
    assert!(!s.should_exit());
    assert_eq!(s.fps(), 60);
    assert_eq!(s.recent_logs(10), "");
}

#[test]
fn reserved_keys_are_claimed() {
    let mut s = Simulation::new();
    let mut p = nbody_settings();
    assert!(!s.handle_key_event(Key::Char(' '), &mut p));
    assert!(!s.is_paused());
    assert!(!s.handle_key_event(Key::Char('r'), &mut p));
    assert_eq!(s.begin_tick(), TickPlan { reset: true, update: true });
    assert_eq!(s.begin_tick(), TickPlan { reset: false, update: true });
    assert!(!s.handle_key_event(Key::Down, &mut p));
    assert_eq!(p.selected(), 1);
    assert!(!s.handle_key_event(Key::Right, &mut p));
    assert_eq!(p.get(1).value(), "1000");
    assert!(!s.handle_key_event(Key::Left, &mut p));
    assert_eq!(p.get(1).value(), "100");
    assert!(!s.handle_key_event(Key::Up, &mut p));
    assert_eq!(p.selected(), 0);
    assert!(!s.handle_key_event(Key::Char('q'), &mut p));
    assert!(s.should_exit());
}

#[test]
fn other_keys_are_forwarded() {
    let mut s = Simulation::new();
    let mut p = nbody_settings();
    assert!(s.handle_key_event(Key::Char('a'), &mut p));
    assert!(s.handle_key_event(Key::Other, &mut p));
    assert!(s.is_paused());
    assert!(!s.should_exit());
    assert_eq!(s.begin_tick(), TickPlan { reset: false, update: false });
}

#[test]
fn frame_rate_is_smoothed() {
    // 0.99 * 60 + 1000 / 16 * 0.01 = 60.025
    assert_eq!(next_fps(60, 16), 60);
    // 0.99 * 100 + 10 / 1 = 109
    assert_eq!(next_fps(100, 1), 109);
    // a zero-length frame counts as one millisecond
    assert_eq!(next_fps(60, 0), 69);
    assert_eq!(next_fps(0, 1000), 0);
    assert_eq!(next_fps(u64::MAX, 1), u64::MAX / 100 * 99 + (u64::MAX % 100 * 99 + 1000) / 100);
    let mut s = Simulation::new();
    s.record_frame(0);
    assert_eq!(s.fps(), 69);
}

#[test]
fn engine_log_is_bounded() {
    let mut s = Simulation::new();
    for i in 0..101 {
        s.log(&format!("{i}"));
    }
    assert_eq!(s.recent_logs(2), "99\n100\n");
    assert_eq!(s.recent_logs(1000).lines().count(), 100);
    assert!(s.recent_logs(1000).starts_with("1\n"));
}
