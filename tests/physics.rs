use three_body_tui::physics::{
    count_row, inlier_vote, marker_colour, nbody_settings, pair_schedule, step_parameters, Colour,
    StepParameters,
};
use three_body_tui::settings::{Setting, SettingsBlock, Speed};
use three_body_tui::text::signed_text;

#[test]
fn pairs_of_three_bodies() {
    assert_eq!(pair_schedule(3), vec![(0, 1), (0, 2), (1, 2)]);
}

#[test]
fn pairs_of_four_bodies() {
    assert_eq!(pair_schedule(4), vec![(0, 1), (0, 2), (0, 3), (1, 2), (1, 3), (2, 3)]);
    assert_eq!(pair_schedule(10).len(), 45);
}

#[test]
fn no_pairs_for_zero_or_one_body() {
    assert!(pair_schedule(0).is_empty());
    assert!(pair_schedule(1).is_empty());
    assert!(inlier_vote(&Vec::new()).is_empty());
}

#[test]
fn vote_keeps_everyone_when_all_are_close() {
    let rows = vec![vec![true; 4]; 4];
    assert_eq!(inlier_vote(&rows), vec![true; 4]);
}

#[test]
fn vote_picks_the_first_largest_cluster() {
    // bodies 0, 1, 2 are close together; 3 is far off
    let rows = vec![
        vec![true, true, false, false],
        vec![true, true, true, false],
        vec![false, true, true, false],
        vec![false, false, false, true],
    ];
    assert_eq!(inlier_vote(&rows), vec![true, true, true, false]);
    let tie = vec![vec![true, false], vec![false, true]];
    assert_eq!(inlier_vote(&tie), vec![true, false]);
}

#[test]
fn vote_without_inliers_keeps_nobody() {
    let rows = vec![vec![false; 3]; 3];
    assert_eq!(inlier_vote(&rows), vec![false; 3]);
    assert_eq!(count_row(&vec![true, false, true]), 2);
}

#[test]
fn marker_colours_cycle() {
    assert_eq!(marker_colour(0), Colour::Red);
    assert_eq!(marker_colour(2), Colour::Yellow);
    assert_eq!(marker_colour(7), Colour::White);
    assert_eq!(marker_colour(9), Colour::Green);
}

#[test]
fn step_parameters_of_the_default_panel() {
    let p = nbody_settings();
    assert_eq!(
        step_parameters(&p),
        Some(StepParameters { speed: 3, gravity_exponent: 2, drag_hundredths: 99 })
    );
    assert_eq!(step_parameters(&SettingsBlock::new(vec![Setting::Speed(Speed(1))])), None);
}

#[test]
fn decimal_text() {
    assert_eq!(signed_text(0), "0");
    assert_eq!(signed_text(1205), "1205");
    assert_eq!(signed_text(-7), "-7");
}
