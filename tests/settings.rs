use three_body_tui::physics::nbody_settings;
use three_body_tui::settings::{Drag, Gravity, Setting, Settings, SettingsBlock, Speed};

#[test]
fn default_values_are_displayed() {
    assert_eq!(Speed::new().value(), "3");
    assert_eq!(Gravity::new().value(), "100");
    assert_eq!(Drag::new().value(), "0.99");
    assert_eq!(Speed::new().text(), "Speed:");
    assert_eq!(Gravity::new().text(), "Force (G):");
    assert_eq!(Drag::new().text(), "Drag:");
}

#[test]
fn gravity_steps_by_powers_of_ten() {
    let mut g = Gravity::new();
    g.increment();
    assert_eq!(g.value(), "1000");
    g.decrement();
    g.decrement();
    g.decrement();
    assert_eq!(g.value(), "1");
    g.decrement();
    assert_eq!(g.value(), "0");
    assert_eq!(g.0, -1);
}

#[test]
fn drag_steps_by_hundredths() {
    let mut d = Drag::new();
    d.increment();
    assert_eq!(d.value(), "1.00");
    d.increment();
    assert_eq!(d.value(), "1.01");
    let mut low = Drag(1);
    low.decrement();
    assert_eq!(low.value(), "0.00");
    low.decrement();
    assert_eq!(low.value(), "-0.01");
    assert_eq!(Drag(-250).value(), "-2.50");
}

#[test]
fn speed_may_go_negative() {
    let mut s = Speed(0);
    s.decrement();
    assert_eq!(s.value(), "-1");
    assert_eq!(Speed(-120).value(), "-120");
}

#[test]
fn steps_hold_at_the_ends_of_the_range() {
    let mut s = Speed(i64::MAX);
    s.increment();
    assert_eq!(s.0, i64::MAX);
    let mut d = Drag(i64::MIN);
    d.decrement();
    assert_eq!(d.0, i64::MIN);
    assert_eq!(Speed(i64::MIN).value(), "-9223372036854775808");
}

#[test]
fn increments_then_decrements_round_trip() {
    for start in [Setting::Speed(Speed::new()), Setting::Gravity(Gravity::new()), Setting::Drag(Drag::new())] {
        let shown = start.value();
        let mut s = start;
        for _ in 0..7 {
            s.increment();
        }
        assert_ne!(s.value(), shown);
        for _ in 0..7 {
            s.decrement();
        }
        assert_eq!(s.value(), shown);
        assert!(s == start);
    }
}

#[test]
fn panel_selection_is_clamped() {
    let mut p = nbody_settings();
    assert_eq!(p.selected(), 0);
    p.up();
    assert_eq!(p.selected(), 0);
    p.down();
    p.down();
    assert_eq!(p.selected(), 2);
    p.down();
    assert_eq!(p.selected(), 2);
    p.up();
    assert_eq!(p.selected(), 1);
}

#[test]
fn panel_adjusts_only_the_selected_setting() {
    let mut p = nbody_settings();
    p.down();
    p.right();
    assert_eq!(p.get(1).value(), "1000");
    assert_eq!(p.get(0).value(), "3");
    assert_eq!(p.get(2).value(), "0.99");
    p.left();
    p.left();
    assert_eq!(p.get(1).value(), "10");
}

#[test]
fn empty_panel_ignores_navigation() {
    let mut p = SettingsBlock::new(Vec::new());
    p.up();
    p.down();
    p.left();
    p.right();
    assert_eq!(p.selected(), 0);
    assert_eq!(p.len(), 0);
    assert!(p.render().is_empty());
}

#[test]
fn panel_renders_labels_values_and_selection() {
    let mut p = nbody_settings();
    p.down();
    let lines = p.render();
    assert_eq!(
        lines,
        vec![
            ("Speed:\t3".to_string(), false),
            ("Force (G):\t100".to_string(), true),
            ("Drag:\t0.99".to_string(), false),
        ]
    );
}
