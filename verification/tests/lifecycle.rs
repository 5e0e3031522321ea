use grapple_climb::entity::Entity;
use grapple_climb::lifecycle::{
    despawn_falling_objects, handle_fade_outs, DespawnOnLowerThanY, FadeStep, Fading,
    OutlineToonFadeOut, Thingajamig, DESPAWN_Y, OPAQUE,
};

const SECOND: u64 = 1_000_000_000;

fn tagged(entity: u64, y: i64, owned: &[u64]) -> DespawnOnLowerThanY {
    DespawnOnLowerThanY {
        entity: Entity(entity),
        y,
        owned: Thingajamig(owned.iter().map(|e| Entity(*e)).collect()),
    }
}

fn fading(entity: u64, fade: OutlineToonFadeOut, owned: &[u64]) -> Fading {
    Fading {
        entity: Entity(entity),
        fade,
        owned: Thingajamig(owned.iter().map(|e| Entity(*e)).collect()),
    }
}

#[test]
fn objects_far_below_the_player_are_removed() {
    assert_eq!(DESPAWN_Y, -100_000);
    let objects = vec![
        tagged(1, 299_999, &[]),
        tagged(2, 300_000, &[]),
        tagged(3, 300_001, &[]),
        tagged(4, -5_000_000, &[]),
        tagged(5, 900_000, &[]),
    ];
    let removed = despawn_falling_objects(Some(400_000), &objects);
    assert_eq!(removed, vec![Entity(1), Entity(4)]);
}

#[test]
fn nothing_is_removed_without_a_player() {
    let objects = vec![tagged(1, i64::MIN, &[2, 3])];
    assert_eq!(despawn_falling_objects(None, &objects), Vec::<Entity>::new());
}

#[test]
fn removal_line_does_not_wrap_at_the_ends_of_the_range() {
    let objects = vec![
        tagged(1, i64::MIN, &[]),
        tagged(2, i64::MAX, &[]),
        tagged(3, i64::MAX - 100_001, &[]),
        tagged(4, i64::MAX - 100_000, &[]),
    ];
    assert_eq!(despawn_falling_objects(Some(i64::MIN), &objects), Vec::<Entity>::new());
    assert_eq!(despawn_falling_objects(Some(i64::MIN + 100_000), &objects), Vec::<Entity>::new());
    assert_eq!(despawn_falling_objects(Some(i64::MIN + 100_001), &objects), vec![Entity(1)]);
    assert_eq!(despawn_falling_objects(Some(i64::MAX), &objects), vec![Entity(1), Entity(3)]);
}

#[test]
fn a_thingamajig_leaves_with_all_its_cuboids() {
    let objects = vec![
        tagged(10, 500_000, &[11, 12]),
        tagged(20, 0, &[21, 22, 23]),
        tagged(21, 2_000, &[]),
        tagged(30, 0, &[]),
    ];
    let removed = despawn_falling_objects(Some(400_000), &objects);
    // the thingamajig 20 is followed by all it owns, though cuboid 21 is listed on its own too
    assert_eq!(
        removed,
        vec![Entity(20), Entity(21), Entity(22), Entity(23), Entity(21), Entity(30)]
    );
    for kept in [10, 11, 12] {
        assert!(!removed.contains(&Entity(kept)));
    }
}

#[test]
fn fade_out_starts_opaque() {
    let fade = OutlineToonFadeOut::new(2 * SECOND);
    assert_eq!(fade, OutlineToonFadeOut { duration: 2 * SECOND, left: 2 * SECOND, spent: false });
    assert_eq!(fade.alpha(), 1_000_000);
    assert_eq!(OPAQUE, 1_000_000);
}

#[test]
fn fade_out_is_half_way_after_half_the_time() {
    let mut fade = OutlineToonFadeOut::new(2 * SECOND);
    fade.advance(SECOND);
    assert_eq!(fade.alpha(), 500_000);
    assert!(!fade.spent);
    fade.advance(SECOND / 2);
    assert_eq!(fade.alpha(), 250_000);
    let mut thirds = OutlineToonFadeOut::new(3);
    thirds.advance(1);
    assert_eq!(thirds.alpha(), 666_666);
}

#[test]
fn fade_out_ends_once_the_time_is_over() {
    let mut fade = OutlineToonFadeOut::new(2 * SECOND);
    fade.advance(2 * SECOND);
    // alpha has reached zero and has not dropped below it
    assert_eq!(fade.alpha(), 0);
    assert!(!fade.spent);
    fade.advance(0);
    assert!(!fade.spent);
    fade.advance(1);
    assert!(fade.spent);
    assert_eq!(fade.alpha(), 0);
    fade.advance(SECOND);
    assert!(fade.spent);
}

#[test]
fn fade_out_ends_however_the_time_is_cut() {
    let mut fade = OutlineToonFadeOut::new(2 * SECOND);
    let mut frames = 0;
    while !fade.spent {
        fade.advance(16_666_667);
        frames += 1;
    }
    // 120 frames make 2.00000004 s
    assert_eq!(frames, 120);
    let mut long = OutlineToonFadeOut::new(u64::MAX);
    long.advance(u64::MAX);
    assert!(!long.spent);
    long.advance(1);
    assert!(long.spent);
}

#[test]
fn fade_out_of_no_duration_ends_with_the_first_time_that_passes() {
    let mut fade = OutlineToonFadeOut::new(0);
    assert_eq!(fade.alpha(), 1_000_000);
    fade.advance(0);
    assert!(!fade.spent);
    fade.advance(1);
    assert!(fade.spent);
}

#[test]
fn fade_out_pass_shows_then_advances() {
    let entities = vec![
        fading(1, OutlineToonFadeOut::new(2 * SECOND), &[]),
        fading(2, OutlineToonFadeOut { duration: 2 * SECOND, left: SECOND, spent: false }, &[]),
    ];
    let out = handle_fade_outs(&entities, false, SECOND / 2);
    assert_eq!(
        out.steps,
        vec![
            FadeStep {
                entity: Entity(1),
                alpha: 1_000_000,
                fade: OutlineToonFadeOut {
                    duration: 2 * SECOND,
                    left: 3 * SECOND / 2,
                    spent: false
                },
            },
            FadeStep {
                entity: Entity(2),
                alpha: 500_000,
                fade: OutlineToonFadeOut { duration: 2 * SECOND, left: SECOND / 2, spent: false },
            },
        ]
    );
    assert!(out.removed.is_empty());
}

#[test]
fn faded_entities_are_removed_with_what_they_own() {
    let entities = vec![
        fading(1, OutlineToonFadeOut::new(2 * SECOND), &[100]),
        fading(2, OutlineToonFadeOut { duration: 2 * SECOND, left: 5, spent: false }, &[21, 22, 23]),
        fading(3, OutlineToonFadeOut { duration: 2 * SECOND, left: 6, spent: false }, &[31]),
        fading(4, OutlineToonFadeOut { duration: 2 * SECOND, left: 0, spent: false }, &[]),
    ];
    let out = handle_fade_outs(&entities, false, 6);
    assert_eq!(out.removed, vec![Entity(2), Entity(21), Entity(22), Entity(23), Entity(4)]);
    assert_eq!(out.steps.len(), 4);
    assert!(out.steps[1].fade.spent);
    assert!(!out.steps[2].fade.spent);
    assert_eq!(out.steps[2].fade.left, 0);
}

#[test]
fn nothing_fades_while_paused() {
    let entities = vec![fading(2, OutlineToonFadeOut::new(5), &[21])];
    let out = handle_fade_outs(&entities, true, 1_000);
    assert!(out.steps.is_empty());
    assert!(out.removed.is_empty());
}

#[test]
fn fade_out_of_two_seconds_removes_the_entity_after_two_seconds() {
    let mut entities = vec![fading(7, OutlineToonFadeOut::new(2 * SECOND), &[8, 9])];
    let mut passed: u64 = 0;
    let mut removed = Vec::new();
    while removed.is_empty() {
        let out = handle_fade_outs(&entities, false, 10_000_000);
        passed += 10_000_000;
        if passed == SECOND + 10_000_000 {
            // the alpha shown is the one reached before this frame: one second in
            assert_eq!(out.steps[0].alpha, 500_000);
        }
        entities[0].fade = out.steps[0].fade;
        removed = out.removed;
    }
    assert_eq!(passed, 2 * SECOND + 10_000_000);
    assert_eq!(removed, vec![Entity(7), Entity(8), Entity(9)]);
}
