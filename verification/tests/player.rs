use grapple_climb::clock::ClockCommand;
use grapple_climb::entity::Entity;
use grapple_climb::geometry::Vec3;
use grapple_climb::hud::{Score, ScoreData};
use grapple_climb::player::{
    at_level, player_create_hook, player_dash, player_look, player_move, player_update_score,
    player_use_and_remove_hook, Body, CameraLook, Highlight, HookOutcome, HookTarget,
    LookInput, LookOutcome, MouseMotion, MoveKeys, Player, RayHit, Upgrades, ACCELERATION,
    DASH_COOLDOWN, DASH_POWER, HOOK_RANGE, HOOK_SPEED, JUMP_VELOCITY,
};

const SECOND: u64 = 1_000_000_000;

fn keys(forward: bool, left: bool, back: bool, right: bool, jump: bool) -> MoveKeys {
    MoveKeys { forward, left, back, right, jump }
}

fn body(grounded: bool) -> Body {
    Body { forward: Vec3::new(0, 0, -1_000), right: Vec3::new(1_000, 0, 0), grounded }
}

fn zero() -> Vec3 {
    Vec3::new(0, 0, 0)
}

#[test]
fn constants_are_in_thousandths() {
    assert_eq!(ACCELERATION, 30_000);
    assert_eq!(JUMP_VELOCITY, 10_000);
    assert_eq!(HOOK_SPEED, 750);
    assert_eq!(HOOK_RANGE, 40_000);
    assert_eq!(DASH_POWER, 200_000);
    assert_eq!(DASH_COOLDOWN, SECOND);
}

#[test]
fn walking_gains_speed_along_the_held_keys() {
    // a second of walking forward gains the full acceleration
    assert_eq!(
        player_move(keys(true, false, false, false, false), Some(body(true)), SECOND),
        Some(Vec3::new(0, 0, -30_000))
    );
    // a frame of a sixtieth of a second: 30 * 16_666_667 / 1_000_000 = 500 and a bit
    assert_eq!(
        player_move(keys(false, false, false, true, false), Some(body(true)), 16_666_667),
        Some(Vec3::new(500, 0, 0))
    );
    assert_eq!(
        player_move(keys(false, true, true, false, false), Some(body(false)), SECOND / 2),
        Some(Vec3::new(-15_000, 0, 15_000))
    );
    assert_eq!(
        player_move(keys(false, false, false, false, false), Some(body(true)), SECOND),
        Some(zero())
    );
}

#[test]
fn opposite_keys_cancel() {
    assert_eq!(
        player_move(keys(true, false, true, false, false), Some(body(true)), SECOND),
        Some(zero())
    );
    assert_eq!(
        player_move(keys(true, true, true, true, false), Some(body(true)), SECOND),
        Some(zero())
    );
    assert_eq!(
        player_move(keys(true, true, false, true, false), Some(body(true)), SECOND),
        Some(Vec3::new(0, 0, -30_000))
    );
}

#[test]
fn walking_has_no_speed_limit() {
    let gain = player_move(keys(true, false, false, false, false), Some(body(true)), u64::MAX);
    // 30_000 * 1_000 * (2^64 - 1) / 10^12, rounded towards zero
    assert_eq!(gain, Some(Vec3::new(0, 0, -553_402_322_211_286)));
    let far = Body { forward: Vec3::new(i64::MAX, 0, 0), right: zero(), grounded: false };
    let gain = player_move(keys(true, false, false, false, false), Some(far), u64::MAX);
    assert_eq!(gain, Some(Vec3::new(i64::MAX, 0, 0)));
}

#[test]
fn a_jump_needs_ground_under_the_feet() {
    assert_eq!(
        player_move(keys(false, false, false, false, true), Some(body(true)), SECOND),
        Some(Vec3::new(0, 10_000, 0))
    );
    assert_eq!(
        player_move(keys(false, false, false, false, true), Some(body(false)), SECOND),
        Some(zero())
    );
    assert_eq!(
        player_move(keys(true, false, false, false, true), Some(body(true)), SECOND),
        Some(Vec3::new(0, 10_000, -30_000))
    );
}

#[test]
fn nobody_moves_without_a_player() {
    assert_eq!(player_move(keys(true, true, false, false, true), None, SECOND), None);
}

fn input(capture: bool, release: bool, motion: &[(i64, i64)]) -> LookInput {
    LookInput {
        capture,
        release,
        motion: motion.iter().map(|m| MouseMotion { dx: m.0, dy: m.1 }).collect(),
    }
}

#[test]
fn the_look_turns_only_while_the_cursor_is_captured() {
    let mut captured = false;
    let mut look = CameraLook::default();
    let out = player_look(&mut captured, Some(&mut look), &input(false, false, &[(5_000, 3_000)]));
    assert_eq!(out, LookOutcome { clock: None, yaw: 0, pitch: 0 });
    assert_eq!(look, CameraLook { yaw: 0, pitch: 0 });
    assert!(!captured);

    let out = player_look(
        &mut captured,
        Some(&mut look),
        &input(true, false, &[(5_000, 3_000), (-1_000, 1_000)]),
    );
    assert!(captured);
    // four pixels to the right turn by four thousandths of a radian the other way
    assert_eq!(out, LookOutcome { clock: Some(ClockCommand::Unpause), yaw: -4_000, pitch: -4_000 });
    assert_eq!(look, CameraLook { yaw: -4_000, pitch: -4_000 });

    let out = player_look(&mut captured, Some(&mut look), &input(false, false, &[(-10_000, 0)]));
    assert_eq!(out, LookOutcome { clock: None, yaw: 10_000, pitch: 0 });
    assert_eq!(look, CameraLook { yaw: 6_000, pitch: -4_000 });

    let out = player_look(&mut captured, Some(&mut look), &input(false, true, &[(-10_000, 7)]));
    assert!(!captured);
    assert_eq!(out, LookOutcome { clock: Some(ClockCommand::Pause), yaw: 0, pitch: 0 });
    assert_eq!(look, CameraLook { yaw: 6_000, pitch: -4_000 });
}

#[test]
fn letting_the_cursor_go_counts_over_capturing_it() {
    let mut captured = false;
    let mut look = CameraLook::default();
    let out = player_look(&mut captured, Some(&mut look), &input(true, true, &[(1, 1)]));
    assert!(!captured);
    assert_eq!(out, LookOutcome { clock: Some(ClockCommand::Pause), yaw: 0, pitch: 0 });
    let mut captured = true;
    let out = player_look(&mut captured, Some(&mut look), &input(true, true, &[(1, 1)]));
    assert!(!captured);
    assert_eq!(out.clock, Some(ClockCommand::Pause));
}

#[test]
fn the_look_stops_at_the_ends_of_the_range() {
    let mut captured = true;
    let mut look = CameraLook { yaw: i64::MAX - 1, pitch: 5 };
    let out = player_look(
        &mut captured,
        Some(&mut look),
        &input(false, false, &[(i64::MIN, i64::MAX), (-1, 1)]),
    );
    assert_eq!(out, LookOutcome { clock: None, yaw: i64::MAX, pitch: -i64::MAX });
    assert_eq!(look, CameraLook { yaw: i64::MAX, pitch: 5 - i64::MAX });
}

#[test]
fn nobody_looks_without_a_player() {
    let mut captured = false;
    let out = player_look(&mut captured, None, &input(true, false, &[(1, 1)]));
    assert!(!captured);
    assert_eq!(out, LookOutcome { clock: None, yaw: 0, pitch: 0 });
}

fn hit(entity: u64, targetable: bool) -> Option<RayHit> {
    Some(RayHit { entity: Entity(entity), targetable })
}

#[test]
fn the_candidate_lights_up_and_the_hook_takes_hold_on_a_press() {
    let mut player = Player { dash_available: false, ..Player::new() };
    let mut last = None;
    let light = player_create_hook(Some(&mut player), &mut last, hit(7, true), false);
    assert_eq!(light, Highlight { clear: None, light: Some(Entity(7)) });
    assert_eq!(last, Some(Entity(7)));
    assert_eq!(player.hooked_onto, None);
    assert!(!player.dash_available);

    let light = player_create_hook(Some(&mut player), &mut last, hit(7, true), true);
    assert_eq!(light, Highlight { clear: Some(Entity(7)), light: Some(Entity(7)) });
    assert_eq!(player.hooked_onto, Some(Entity(7)));
    assert!(player.dash_available);

    // while the hook holds on to it the candidate stays lit
    let light = player_create_hook(Some(&mut player), &mut last, None, false);
    assert_eq!(light, Highlight { clear: None, light: None });
    assert_eq!(last, Some(Entity(7)));

    // another candidate: the hook stays where it is
    let light = player_create_hook(Some(&mut player), &mut last, hit(9, true), false);
    assert_eq!(light, Highlight { clear: None, light: Some(Entity(9)) });
    assert_eq!(last, Some(Entity(9)));
    assert_eq!(player.hooked_onto, Some(Entity(7)));
    let light = player_create_hook(Some(&mut player), &mut last, None, true);
    assert_eq!(light, Highlight { clear: Some(Entity(9)), light: None });
    assert_eq!(player.hooked_onto, Some(Entity(7)));
}

#[test]
fn what_cannot_be_hooked_is_no_candidate() {
    let mut player = Player { dash_available: false, ..Player::new() };
    let mut last = Some(Entity(3));
    let light = player_create_hook(Some(&mut player), &mut last, hit(7, false), true);
    assert_eq!(light, Highlight { clear: Some(Entity(3)), light: None });
    assert_eq!(last, Some(Entity(3)));
    assert_eq!(player.hooked_onto, None);
    assert!(!player.dash_available);
}

#[test]
fn nobody_hooks_without_a_player() {
    let mut last = Some(Entity(3));
    let light = player_create_hook(None, &mut last, hit(7, true), true);
    assert_eq!(light, Highlight { clear: None, light: None });
    assert_eq!(last, Some(Entity(3)));
}

fn target(toward: Vec3) -> Option<HookTarget> {
    Some(HookTarget { toward, has_physics: true, has_outline: true })
}

fn idle() -> HookOutcome {
    HookOutcome { pulled: None, player_gain: zero(), target_gain: zero(), clear: None }
}

#[test]
fn the_hook_pulls_the_player_and_pulls_the_target_back() {
    let mut player = Player { hooked_onto: Some(Entity(7)), ..Player::new() };
    let out = player_use_and_remove_hook(Some(&mut player), target(Vec3::new(0, 1_000, 0)), false);
    assert_eq!(
        out,
        HookOutcome {
            pulled: Some(Entity(7)),
            player_gain: Vec3::new(0, 750, 0),
            target_gain: Vec3::new(0, -150, 0),
            clear: None,
        }
    );
    assert_eq!(player.hooked_onto, Some(Entity(7)));
    let out = player_use_and_remove_hook(Some(&mut player), target(Vec3::new(600, 0, -800)), false);
    assert_eq!(out.player_gain, Vec3::new(450, 0, -600));
    assert_eq!(out.target_gain, Vec3::new(-90, 0, 120));
}

#[test]
fn hook_strength_scales_the_pull() {
    let mut player = Player { hooked_onto: Some(Entity(7)), ..Player::new() };
    player.upgrades.hook_strength = 2;
    let out = player_use_and_remove_hook(Some(&mut player), target(Vec3::new(1_000, 0, 0)), false);
    assert_eq!(out.player_gain, Vec3::new(2_250, 0, 0));
    assert_eq!(out.target_gain, Vec3::new(-450, 0, 0));
    assert_eq!(player.upgrades.hook_pull(), 2_250);
    assert_eq!(player.upgrades.hook_reach(), 40_000);
    player.upgrades.hook_range = 3;
    assert_eq!(player.upgrades.hook_reach(), 160_000);
    assert_eq!(at_level(u64::MAX, u64::MAX), (u64::MAX as u128) << 64);
}

#[test]
fn a_target_without_physics_is_not_pulled_back() {
    let mut player = Player { hooked_onto: Some(Entity(7)), ..Player::new() };
    let out = player_use_and_remove_hook(
        Some(&mut player),
        Some(HookTarget { toward: Vec3::new(0, 0, 1_000), has_physics: false, has_outline: false }),
        true,
    );
    assert_eq!(
        out,
        HookOutcome {
            pulled: Some(Entity(7)),
            player_gain: Vec3::new(0, 0, 750),
            target_gain: zero(),
            clear: None,
        }
    );
    assert_eq!(player.hooked_onto, None);
}

#[test]
fn letting_go_of_the_button_lets_go_of_the_hook() {
    let mut player = Player { hooked_onto: Some(Entity(7)), ..Player::new() };
    let out = player_use_and_remove_hook(Some(&mut player), target(Vec3::new(0, 1_000, 0)), true);
    assert_eq!(out.clear, Some(Entity(7)));
    assert_eq!(out.player_gain, Vec3::new(0, 750, 0));
    assert_eq!(player.hooked_onto, None);
    let out = player_use_and_remove_hook(Some(&mut player), target(Vec3::new(0, 1_000, 0)), true);
    assert_eq!(out, idle());

    // the hooked entity is gone: nothing is pulled, and the hook still lets go
    let mut player = Player { hooked_onto: Some(Entity(7)), ..Player::new() };
    let out = player_use_and_remove_hook(Some(&mut player), None, false);
    assert_eq!(out, idle());
    assert_eq!(player.hooked_onto, Some(Entity(7)));
    let out = player_use_and_remove_hook(Some(&mut player), None, true);
    assert_eq!(out, idle());
    assert_eq!(player.hooked_onto, None);
    assert_eq!(player_use_and_remove_hook(None, target(zero()), true), idle());
}

#[test]
fn a_dash_needs_a_dash_to_be_had() {
    let mut player = Player { dash_available: false, ..Player::new() };
    let mut last = 0;
    let aim = Vec3::new(0, 0, -1_000);
    assert_eq!(player_dash(Some(&mut player), &mut last, true, 5 * SECOND, aim), None);
    assert_eq!(player, Player { dash_available: false, ..Player::new() });
    assert_eq!(last, 0);
}

#[test]
fn a_dash_gains_its_power_along_the_aim() {
    let mut player = Player::new();
    let mut last = 0;
    let aim = Vec3::new(0, 0, -1_000);
    assert_eq!(
        player_dash(Some(&mut player), &mut last, true, 5 * SECOND, aim),
        Some(Vec3::new(0, 0, -200_000))
    );
    assert!(!player.dash_available);
    assert_eq!(last, 5 * SECOND);
    // used up until the next hook
    assert_eq!(player_dash(Some(&mut player), &mut last, true, 50 * SECOND, aim), None);
    assert_eq!(last, 5 * SECOND);

    let mut strong = Player::new();
    strong.upgrades.dash_strength = 4;
    let mut last = 0;
    assert_eq!(
        player_dash(Some(&mut strong), &mut last, true, SECOND, Vec3::new(600, 800, 0)),
        Some(Vec3::new(600_000, 800_000, 0))
    );
    assert_eq!(strong.upgrades.dash_impulse(), 1_000_000);
}

#[test]
fn a_dash_waits_for_the_cooldown() {
    let mut player = Player::new();
    let mut last = 3 * SECOND;
    let aim = Vec3::new(1_000, 0, 0);
    assert_eq!(player_dash(Some(&mut player), &mut last, true, 4 * SECOND - 1, aim), None);
    // turned down, the dash is still to be had
    assert!(player.dash_available);
    assert_eq!(last, 3 * SECOND);
    assert_eq!(player_dash(Some(&mut player), &mut last, true, 2 * SECOND, aim), None);
    assert_eq!(player_dash(Some(&mut player), &mut last, false, 9 * SECOND, aim), None);
    assert!(player.dash_available);
    assert_eq!(
        player_dash(Some(&mut player), &mut last, true, 4 * SECOND, aim),
        Some(Vec3::new(200_000, 0, 0))
    );
    assert_eq!(last, 4 * SECOND);
    // a new hook brings the dash back, the cooldown still holds
    let mut seen = None;
    player_create_hook(Some(&mut player), &mut seen, hit(1, true), true);
    assert!(player.dash_available);
    assert_eq!(player_dash(Some(&mut player), &mut last, true, 4 * SECOND + 5, aim), None);
    assert_eq!(
        player_dash(Some(&mut player), &mut last, true, 5 * SECOND, aim),
        Some(Vec3::new(200_000, 0, 0))
    );
    let mut last = 0;
    assert_eq!(player_dash(None, &mut last, true, 5 * SECOND, aim), None);
    assert_eq!(last, 0);
}

fn with_height(height: u64) -> Score {
    Score { current: ScoreData { height, destruction: 3 }, ..Score::default() }
}

#[test]
fn height_earns_a_point_for_every_ten_units() {
    let at = |y: i64| {
        let mut score = Score::default();
        player_update_score(Some(y), &mut score);
        score.current.height
    };
    assert_eq!(at(0), 0);
    assert_eq!(at(9_999), 0);
    assert_eq!(at(10_000), 1);
    assert_eq!(at(400_500), 40);
    assert_eq!(at(-400_500), 0);
    assert_eq!(at(i64::MIN), 0);
    assert_eq!(at(i64::MAX), 922_337_203_685_477);
}

#[test]
fn height_points_never_go_down() {
    let mut score = with_height(0);
    let mut best = 0;
    for y in [400_500, 10_000, -5_000_000, 1_234_567, 1_234_000, i64::MIN, 2_000_000, 0] {
        player_update_score(Some(y), &mut score);
        assert!(score.current.height >= best);
        best = score.current.height;
    }
    assert_eq!(score, with_height(200));
    player_update_score(None, &mut score);
    assert_eq!(score, with_height(200));
}

#[test]
fn upgrades_start_at_level_zero() {
    assert_eq!(Upgrades::default(), Upgrades { hook_range: 0, hook_strength: 0, dash_strength: 0 });
    assert_eq!(
        Player::new(),
        Player { hooked_onto: None, dash_available: true, upgrades: Upgrades::default() }
    );
}
