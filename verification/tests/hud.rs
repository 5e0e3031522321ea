use grapple_climb::shop::PointsSpent;
use grapple_climb::hud::{
    create_hints, transfer_score, update_hints, update_info_text, update_score_text, HintDisplay,
    HintsActivated, Score, ScoreData, ScoreDisplay, UiHint, UiHints, HINT_DURATION, REVEAL_INTERVAL,
};

const SECOND: u64 = 1_000_000_000;

fn score(timer: u64, current: (u64, u64), pending: (u64, u64)) -> Score {
    Score {
        timer,
        current: ScoreData { height: current.0, destruction: current.1 },
        to_be_added: ScoreData { height: pending.0, destruction: pending.1 },
    }
}

#[test]
fn total_adds_height_and_destruction() {
    assert_eq!(ScoreData { height: 40, destruction: 2 }.total(), 42);
    assert_eq!(ScoreData::default().total(), 0);
    assert_eq!(ScoreData { height: u64::MAX, destruction: 1 }.total(), u64::MAX);
    assert_eq!(ScoreData { height: u64::MAX - 1, destruction: 1 }.total(), u64::MAX);
}

#[test]
fn score_starts_empty() {
    assert_eq!(Score::default(), score(0, (0, 0), (0, 0)));
}

#[test]
fn points_are_revealed_one_at_a_time() {
    let mut s = score(0, (5, 1), (3, 2));
    transfer_score(&mut s, 1);
    assert_eq!(s, score(REVEAL_INTERVAL, (6, 2), (2, 1)));
    assert_eq!(REVEAL_INTERVAL, 200_000_000);
    // the timer runs down for a fifth of a second before the next point
    transfer_score(&mut s, 150_000_000);
    assert_eq!(s, score(50_000_000, (6, 2), (2, 1)));
    transfer_score(&mut s, 50_000_000);
    assert_eq!(s, score(0, (6, 2), (2, 1)));
    transfer_score(&mut s, 1);
    assert_eq!(s, score(REVEAL_INTERVAL, (7, 3), (1, 0)));
    transfer_score(&mut s, 10 * SECOND);
    assert_eq!(s, score(REVEAL_INTERVAL, (8, 3), (0, 0)));
    transfer_score(&mut s, 10 * SECOND);
    assert_eq!(s, score(REVEAL_INTERVAL, (8, 3), (0, 0)));
}

#[test]
fn no_time_reveals_nothing() {
    let mut s = score(0, (0, 0), (3, 3));
    transfer_score(&mut s, 0);
    assert_eq!(s, score(0, (0, 0), (3, 3)));
}

#[test]
fn reveal_stops_at_the_end_of_the_range() {
    let mut s = score(0, (u64::MAX, 7), (3, 3));
    transfer_score(&mut s, 1);
    assert_eq!(s, score(REVEAL_INTERVAL, (u64::MAX, 8), (3, 2)));
}

#[test]
fn shown_points_never_go_down_as_time_passes() {
    let mut s = score(0, (2, 0), (50, 7));
    let mut last = s.current;
    for frame in 0..500u64 {
        transfer_score(&mut s, 1 + (frame * 7_919_000) % 90_000_000);
        assert!(s.current.height >= last.height);
        assert!(s.current.destruction >= last.destruction);
        assert_eq!(s.current.total() + s.to_be_added.total(), 59);
        last = s.current;
    }
    assert_eq!(s.current, ScoreData { height: 52, destruction: 7 });
}

#[test]
fn score_text_shows_points_left_once_points_were_spent() {
    let s = score(0, (30, 12), (9, 9));
    assert_eq!(update_score_text(&s, &PointsSpent(0)), ScoreDisplay { total: 42, points_left: None });
    assert_eq!(update_score_text(&s, &PointsSpent(10)), ScoreDisplay { total: 42, points_left: Some(32) });
    assert_eq!(update_score_text(&s, &PointsSpent(42)), ScoreDisplay { total: 42, points_left: Some(0) });
    assert_eq!(update_score_text(&s, &PointsSpent(43)), ScoreDisplay { total: 42, points_left: Some(0) });
}

#[test]
fn info_panel_flips_on_its_key() {
    let mut visible = false;
    assert!(!update_info_text(&mut visible, false));
    assert!(!visible);
    assert!(update_info_text(&mut visible, true));
    assert!(visible);
    assert!(update_info_text(&mut visible, false));
    assert!(visible);
    assert!(!update_info_text(&mut visible, true));
    assert!(!visible);
}

fn fresh(text: &str, icon: &'static str) -> UiHint {
    UiHint { text: Some(text.to_string()), icon, duration: HINT_DURATION }
}

#[test]
fn hints_are_given_as_the_player_climbs() {
    let mut hints = UiHints::default();
    let mut activated = HintsActivated::default();
    create_hints(&mut hints, Some(600), &mut activated);
    assert!(hints.0.is_empty());
    assert_eq!(activated, HintsActivated::default());
    create_hints(&mut hints, Some(601), &mut activated);
    assert_eq!(
        hints.0,
        vec![fresh(
            "to use your grappling hook on an object.",
            "textures/keyboardmouse/Mouse_Left_Key_Dark.png"
        )]
    );
    assert_eq!(activated, HintsActivated { grapple: true, dash: false, info: false });
    create_hints(&mut hints, Some(100_000), &mut activated);
    assert_eq!(hints.0.len(), 1);
    create_hints(&mut hints, Some(100_001), &mut activated);
    assert_eq!(hints.0.len(), 2);
    assert_eq!(
        hints.0[1],
        fresh(
            "to dash. (Replinishes upon hooking to an object)",
            "textures/keyboardmouse/Mouse_Right_Key_Dark.png"
        )
    );
    create_hints(&mut hints, Some(300_000), &mut activated);
    assert_eq!(hints.0.len(), 2);
    create_hints(&mut hints, Some(300_001), &mut activated);
    assert_eq!(hints.0.len(), 3);
    assert_eq!(
        hints.0[2],
        fresh("to toggle additional info.", "textures/keyboardmouse/F3_Key_Dark.png")
    );
    assert_eq!(activated, HintsActivated { grapple: true, dash: true, info: true });
    assert_eq!(HINT_DURATION, 5 * SECOND);
}

#[test]
fn each_hint_is_given_once() {
    let mut hints = UiHints::default();
    let mut activated = HintsActivated::default();
    for y in [400_500, 0, -7, 400_500, 1_000_000, 50, 700] {
        create_hints(&mut hints, Some(y), &mut activated);
    }
    assert_eq!(hints.0.len(), 3);
    assert_eq!(hints.0[0].icon, "textures/keyboardmouse/Mouse_Left_Key_Dark.png");
    assert_eq!(hints.0[1].icon, "textures/keyboardmouse/Mouse_Right_Key_Dark.png");
    assert_eq!(hints.0[2].icon, "textures/keyboardmouse/F3_Key_Dark.png");
}

#[test]
fn no_hints_without_a_player() {
    let mut hints = UiHints::default();
    let mut activated = HintsActivated { grapple: false, dash: true, info: false };
    create_hints(&mut hints, None, &mut activated);
    assert!(hints.0.is_empty());
    assert_eq!(activated, HintsActivated { grapple: false, dash: true, info: false });
}

#[test]
fn hints_are_shown_one_at_a_time_in_order() {
    let mut hints = UiHints(vec![
        UiHint { text: Some("first".to_string()), icon: "one.png", duration: 2 * SECOND },
        UiHint { text: Some("second".to_string()), icon: "two.png", duration: SECOND },
    ]);
    assert_eq!(
        update_hints(&mut hints, SECOND),
        HintDisplay::Show { text: "first".to_string(), icon: "one.png" }
    );
    assert_eq!(
        hints.0,
        vec![
            UiHint { text: None, icon: "one.png", duration: SECOND },
            UiHint { text: Some("second".to_string()), icon: "two.png", duration: SECOND },
        ]
    );
    // on show already: nothing to do, and the second hint loses no time
    assert_eq!(update_hints(&mut hints, SECOND), HintDisplay::Keep);
    assert_eq!(hints.0[0].duration, 0);
    assert_eq!(hints.0[1].duration, SECOND);
    // out of time: dropped, and the display is hidden
    assert_eq!(update_hints(&mut hints, 1), HintDisplay::Hide);
    assert_eq!(
        hints.0,
        vec![UiHint { text: Some("second".to_string()), icon: "two.png", duration: SECOND }]
    );
    assert_eq!(
        update_hints(&mut hints, 1),
        HintDisplay::Show { text: "second".to_string(), icon: "two.png" }
    );
    assert_eq!(update_hints(&mut hints, SECOND), HintDisplay::Hide);
    assert!(hints.0.is_empty());
    assert_eq!(update_hints(&mut hints, SECOND), HintDisplay::Keep);
    assert!(hints.0.is_empty());
}

#[test]
fn a_hint_without_time_is_dropped_unseen() {
    let mut hints =
        UiHints(vec![UiHint { text: Some("late".to_string()), icon: "late.png", duration: 5 }]);
    assert_eq!(update_hints(&mut hints, 6), HintDisplay::Hide);
    assert!(hints.0.is_empty());
}
