//! The player controller: walking and jumping, looking around, the
//! grappling hook, the dash, and the score earned by height.

use crate::clock::ClockCommand;
use crate::entity::Entity;
use crate::geometry::{clamp_i64, saturating_sum, Vec3, UNIT};
use crate::hud::Score;
use vstd::prelude::*;

verus! {

/// Speed gained per second while a movement key is held.
pub const ACCELERATION: u64 = 30_000;

/// Upward speed gained by a jump.
pub const JUMP_VELOCITY: u64 = 10_000;

/// Speed gained towards the hooked entity on every frame, before upgrades.
pub const HOOK_SPEED: u64 = 750;

/// The hooked entity is pulled back with one part in this many of the
/// player's pull.
pub const HOOK_REACTION: u64 = 5;

/// Reach of the grappling hook, before upgrades.
pub const HOOK_RANGE: u64 = 40_000;

/// Speed gained by a dash, before upgrades.
pub const DASH_POWER: u64 = 200_000;

/// Time that has to pass between two dashes.
pub const DASH_COOLDOWN: u64 = 1_000_000_000;

/// What a direction times an acceleration times a time is divided by: the
/// length of a direction, a thousand, times the nanoseconds of a second.
pub const UNIT_SECOND: u64 = 1_000_000_000_000;

/// The altitude that earns one height point.
pub const HEIGHT_PER_POINT: i64 = 10_000;

/// The level of each upgrade. A level of zero is the game as it starts.
#[derive(Clone, Copy, Debug, PartialEq, Eq, Structural)]
pub struct Upgrades {
    pub hook_range: u64,
    pub hook_strength: u64,
    pub dash_strength: u64,
}

impl Default for Upgrades {
    fn default() -> (upgrades: Upgrades)
        ensures
            upgrades == (Upgrades { hook_range: 0, hook_strength: 0, dash_strength: 0 }),
    {
        Upgrades { hook_range: 0, hook_strength: 0, dash_strength: 0 }
    }
}

/// `base` at upgrade level `level`: every level adds the base once more.
pub open spec fn upgraded(base: u64, level: u64) -> int {
    base * (level + 1)
}

/// `base` at upgrade level `level`.
pub fn at_level(base: u64, level: u64) -> (value: u128)
    ensures
        value == upgraded(base, level),
{
    assert(base * (level + 1) <= 0xffff_ffff_ffff_ffff * 0x1_0000_0000_0000_0000)
        by (nonlinear_arith)
        requires
            0 <= base <= 0xffff_ffff_ffff_ffff,
            0 <= level <= 0xffff_ffff_ffff_ffff,
    ;
    (base as u128) * (level as u128 + 1)
}

impl Upgrades {
    /// How far the grappling hook reaches.
    pub fn hook_reach(&self) -> (reach: u128)
        ensures
            reach == upgraded(HOOK_RANGE, self.hook_range),
    {
        at_level(HOOK_RANGE, self.hook_range)
    }

    /// The speed the hook adds to the player on every frame.
    pub fn hook_pull(&self) -> (speed: u128)
        ensures
            speed == upgraded(HOOK_SPEED, self.hook_strength),
    {
        at_level(HOOK_SPEED, self.hook_strength)
    }

    /// The speed a dash adds to the player.
    pub fn dash_impulse(&self) -> (speed: u128)
        ensures
            speed == upgraded(DASH_POWER, self.dash_strength),
    {
        at_level(DASH_POWER, self.dash_strength)
    }
}

/// The player's own state.
#[derive(Clone, Copy, Debug, PartialEq, Eq, Structural)]
pub struct Player {
    /// The entity the grappling hook holds on to.
    pub hooked_onto: Option<Entity>,
    /// Whether a dash is to be had. A dash uses it up, a new hook brings it
    /// back.
    pub dash_available: bool,
    pub upgrades: Upgrades,
}

impl Player {
    /// The player as the game starts: not hooked, with a dash to be had.
    pub fn new() -> (player: Player)
        ensures
            player == (Player {
                hooked_onto: None,
                dash_available: true,
                upgrades: Upgrades { hook_range: 0, hook_strength: 0, dash_strength: 0 },
            }),
    {
        Player {
            hooked_onto: None,
            dash_available: true,
            upgrades: Upgrades { hook_range: 0, hook_strength: 0, dash_strength: 0 },
        }
    }
}

/// The movement keys as they are held in one frame.
#[derive(Clone, Copy, Debug, PartialEq, Eq, Structural)]
pub struct MoveKeys {
    pub forward: bool,
    pub left: bool,
    pub back: bool,
    pub right: bool,
    /// Whether the jump key went down in this frame.
    pub jump: bool,
}

/// What walking and jumping read of the player's body.
#[derive(Clone, Copy, Debug, PartialEq, Eq, Structural)]
pub struct Body {
    /// The direction the body faces, a thousand long.
    pub forward: Vec3,
    /// The direction to the body's right, a thousand long.
    pub right: Vec3,
    /// Whether the body stands on something.
    pub grounded: bool,
}

/// `direction` if the key is held, else no displacement.
pub open spec fn held(key: bool, direction: Vec3) -> Vec3 {
    if key {
        direction
    } else {
        Vec3 { x: 0, y: 0, z: 0 }
    }
}

/// The directions of the held keys added up: forward, left, back, right.
pub open spec fn walk_direction(keys: MoveKeys, body: Body) -> Vec3 {
    held(keys.forward, body.forward).displaced(held(keys.left, body.right.reversed())).displaced(
        held(keys.back, body.forward.reversed()),
    ).displaced(held(keys.right, body.right))
}

/// The speed a jump adds, if one is granted.
pub open spec fn jump_gain(keys: MoveKeys, body: Body) -> Vec3 {
    if keys.jump && body.grounded {
        Vec3 { x: 0, y: JUMP_VELOCITY as i64, z: 0 }
    } else {
        Vec3 { x: 0, y: 0, z: 0 }
    }
}

/// The velocity gained in a frame of `delta`: the walk direction at
/// `ACCELERATION` for that time, and the jump.
pub open spec fn move_gain(keys: MoveKeys, body: Body, delta: u64) -> Vec3 {
    walk_direction(keys, body).scaled((ACCELERATION * delta) as u128, UNIT_SECOND).displaced(
        jump_gain(keys, body),
    )
}

fn add_if(sum: Vec3, key: bool, direction: Vec3) -> (total: Vec3)
    ensures
        total == sum.displaced(held(key, direction)),
{
    if key {
        sum.offset(direction)
    } else {
        sum.offset(Vec3 { x: 0, y: 0, z: 0 })
    }
}

/// One frame of walking and jumping: the velocity the player gains.
///
/// The directions of the held keys are added up, so that opposite keys
/// cancel, and the player gains speed along the sum at `ACCELERATION` for the
/// time `delta`. There is no limit on the speed that builds up. A jump adds
/// `JUMP_VELOCITY` upwards, and is granted only to a player on the ground in
/// the frame the key goes down. `body` is `None` when there is no player, and
/// then nothing is gained.
pub fn player_move(keys: MoveKeys, body: Option<Body>, delta: u64) -> (gain: Option<Vec3>)
    ensures
        gain == match body {
            Some(body) => Some(move_gain(keys, body, delta)),
            None => None,
        },
{
    let body = match body {
        Some(body) => body,
        None => {
            return None;
        },
    };
    let mut direction = Vec3 { x: 0, y: 0, z: 0 };
    direction = add_if(direction, keys.forward, body.forward);
    assert(direction == held(keys.forward, body.forward));
    direction = add_if(direction, keys.left, body.right.reverse());
    direction = add_if(direction, keys.back, body.forward.reverse());
    direction = add_if(direction, keys.right, body.right);
    let speed: u128 = (ACCELERATION as u128) * (delta as u128);
    let walked = direction.scale(speed, UNIT_SECOND);
    let jumped = if keys.jump && body.grounded {
        Vec3 { x: 0, y: JUMP_VELOCITY as i64, z: 0 }
    } else {
        Vec3 { x: 0, y: 0, z: 0 }
    };
    Some(walked.offset(jumped))
}

/// Where the player looks, apart from the body it walks with: the turn
/// about the vertical axis and the tilt up or down, as angles in millionths
/// of a radian. The grappling hook and the dash aim along it.
#[derive(Clone, Copy, Debug, PartialEq, Eq, Structural)]
pub struct CameraLook {
    pub yaw: i64,
    pub pitch: i64,
}

impl Default for CameraLook {
    fn default() -> (look: CameraLook)
        ensures
            look == (CameraLook { yaw: 0, pitch: 0 }),
    {
        CameraLook { yaw: 0, pitch: 0 }
    }
}

/// One movement of the mouse, in thousandths of a pixel.
#[derive(Clone, Copy, Debug, PartialEq, Eq, Structural)]
pub struct MouseMotion {
    pub dx: i64,
    pub dy: i64,
}

/// What one frame brings for looking around.
pub struct LookInput {
    /// Whether the button that captures the cursor went down.
    pub capture: bool,
    /// Whether the key that lets the cursor go went down.
    pub release: bool,
    /// The mouse movements of the frame.
    pub motion: Vec<MouseMotion>,
}

/// What a frame of looking around changes outside the player.
#[derive(Clone, Copy, Debug, PartialEq, Eq, Structural)]
pub struct LookOutcome {
    /// What the simulation clock is asked to do, if anything.
    pub clock: Option<ClockCommand>,
    /// The angle the body turns by about the vertical axis.
    pub yaw: i64,
    /// The angle the camera tilts by.
    pub pitch: i64,
}

/// The sum of the horizontal movements, held within `i64` at every step.
pub open spec fn total_dx(motion: Seq<MouseMotion>) -> i64
    decreases motion.len(),
{
    if motion.len() == 0 {
        0
    } else {
        clamp_i64(total_dx(motion.drop_last()) + motion.last().dx)
    }
}

/// The sum of the vertical movements, held within `i64` at every step.
pub open spec fn total_dy(motion: Seq<MouseMotion>) -> i64
    decreases motion.len(),
{
    if motion.len() == 0 {
        0
    } else {
        clamp_i64(total_dy(motion.drop_last()) + motion.last().dy)
    }
}

/// Whether the cursor is captured once the frame's presses are counted. A
/// release counts over a capture in the same frame.
pub open spec fn captured_after(captured: bool, capture: bool, release: bool) -> bool {
    if release {
        false
    } else if capture {
        true
    } else {
        captured
    }
}

/// What the frame's presses ask of the clock: capturing the cursor lets the
/// simulation run, letting it go pauses it.
pub open spec fn clock_after(capture: bool, release: bool) -> Option<ClockCommand> {
    if release {
        Some(ClockCommand::Pause)
    } else if capture {
        Some(ClockCommand::Unpause)
    } else {
        None
    }
}

/// The angle a mouse movement turns by: a thousandth of a radian against
/// every pixel.
pub open spec fn turned_by(moved: i64) -> i64 {
    clamp_i64(-moved)
}

fn turn_for(moved: i64) -> (angle: i64)
    ensures
        angle == turned_by(moved),
{
    if moved == i64::MIN {
        i64::MAX
    } else {
        -moved
    }
}

/// One frame of looking around.
///
/// The cursor is captured by `capture` and let go by `release`; capturing it
/// lets the simulation run and letting it go pauses it. While the cursor is
/// captured the frame's mouse movements turn the look, the body following
/// the turn about the vertical axis and the camera the tilt. `look` is `None`
/// when there is no player, and then nothing changes.
pub fn player_look(captured: &mut bool, look: Option<&mut CameraLook>, input: &LookInput) -> (outcome:
    LookOutcome)
    ensures
        look is None ==> *final(captured) == *old(captured) && outcome == (LookOutcome {
            clock: None,
            yaw: 0,
            pitch: 0,
        }),
        look matches Some(look) ==> {
            &&& *final(captured) == captured_after(*old(captured), input.capture, input.release)
            &&& outcome.clock == clock_after(input.capture, input.release)
            &&& outcome.yaw == if *final(captured) {
                turned_by(total_dx(input.motion@))
            } else {
                0
            }
            &&& outcome.pitch == if *final(captured) {
                turned_by(total_dy(input.motion@))
            } else {
                0
            }
            &&& *final(look) == (CameraLook {
                yaw: clamp_i64(look.yaw + outcome.yaw),
                pitch: clamp_i64(look.pitch + outcome.pitch),
            })
        },
{
    let look = match look {
        Some(look) => look,
        None => {
            return LookOutcome { clock: None, yaw: 0, pitch: 0 };
        },
    };
    let mut clock: Option<ClockCommand> = None;
    if input.capture {
        *captured = true;
        clock = Some(ClockCommand::Unpause);
    }
    if input.release {
        *captured = false;
        clock = Some(ClockCommand::Pause);
    }
    let mut yaw: i64 = 0;
    let mut pitch: i64 = 0;
    if *captured {
        let mut dx: i64 = 0;
        let mut dy: i64 = 0;
        for i in 0..input.motion.len()
            invariant
                dx == total_dx(input.motion@.take(i as int)),
                dy == total_dy(input.motion@.take(i as int)),
        {
            assert(input.motion@.take(i + 1).drop_last() == input.motion@.take(i as int));
            dx = saturating_sum(dx, input.motion[i].dx);
            dy = saturating_sum(dy, input.motion[i].dy);
        }
        assert(input.motion@.take(input.motion@.len() as int) == input.motion@);
        yaw = turn_for(dx);
        pitch = turn_for(dy);
        look.yaw = saturating_sum(look.yaw, yaw);
        look.pitch = saturating_sum(look.pitch, pitch);
    }
    LookOutcome { clock, yaw, pitch }
}

/// What the aiming ray hit first, the player aside.
#[derive(Clone, Copy, Debug, PartialEq, Eq, Structural)]
pub struct RayHit {
    pub entity: Entity,
    /// Whether the entity can be hooked: it has a collider and an outline to
    /// light up.
    pub targetable: bool,
}

/// Which outlines to change.
#[derive(Clone, Copy, Debug, PartialEq, Eq, Structural)]
pub struct Highlight {
    /// The entity whose outline goes dark, if any. It goes dark first.
    pub clear: Option<Entity>,
    /// The entity whose outline lights up, if any.
    pub light: Option<Entity>,
}

/// The entity the hook can be thrown at.
pub open spec fn candidate(hit: Option<RayHit>) -> Option<Entity> {
    match hit {
        Some(hit) => if hit.targetable {
            Some(hit.entity)
        } else {
            None
        },
        None => None,
    }
}

/// The player after aiming at `hit`, with the hook button pressed or not.
pub open spec fn hooked(player: Player, hit: Option<RayHit>, grab: bool) -> Player {
    if grab && candidate(hit) is Some {
        Player { hooked_onto: candidate(hit), dash_available: true, ..player }
    } else {
        player
    }
}

/// One frame of aiming the grappling hook.
///
/// `hit` is what a ray along the look direction, as long as the hook
/// reaches, hit first. If that can be hooked it is the candidate: its
/// outline lights up, and it is remembered in `last_entity`. The outline of
/// the candidate remembered before goes dark unless the hook holds on to it.
/// When the hook button goes down on a candidate the hook takes hold of it,
/// and a dash is to be had again. Without a player nothing changes.
pub fn player_create_hook(
    player: Option<&mut Player>,
    last_entity: &mut Option<Entity>,
    hit: Option<RayHit>,
    grab: bool,
) -> (highlight: Highlight)
    ensures
        player is None ==> *final(last_entity) == *old(last_entity) && highlight == (Highlight {
            clear: None,
            light: None,
        }),
        player matches Some(player) ==> {
            &&& *final(player) == hooked(*player, hit, grab)
            &&& *final(last_entity) == if candidate(hit) is Some {
                candidate(hit)
            } else {
                *old(last_entity)
            }
            &&& highlight.clear == if *old(last_entity) != player.hooked_onto {
                *old(last_entity)
            } else {
                None
            }
            &&& highlight.light == candidate(hit)
        },
{
    let player = match player {
        Some(player) => player,
        None => {
            return Highlight { clear: None, light: None };
        },
    };
    let clear = if *last_entity != player.hooked_onto {
        *last_entity
    } else {
        None
    };
    let mut light: Option<Entity> = None;
    if let Some(hit) = hit {
        if hit.targetable {
            *last_entity = Some(hit.entity);
            light = Some(hit.entity);
            if grab {
                player.hooked_onto = Some(hit.entity);
                player.dash_available = true;
            }
        }
    }
    Highlight { clear, light }
}

/// What is known of the entity the hook holds on to.
#[derive(Clone, Copy, Debug, PartialEq, Eq, Structural)]
pub struct HookTarget {
    /// The direction from the player to the entity, a thousand long.
    pub toward: Vec3,
    /// Whether the entity has a velocity to change.
    pub has_physics: bool,
    /// Whether the entity has an outline to change.
    pub has_outline: bool,
}

/// What the hook does in one frame.
#[derive(Clone, Copy, Debug, PartialEq, Eq, Structural)]
pub struct HookOutcome {
    /// The entity the hook pulls on, if any.
    pub pulled: Option<Entity>,
    /// The velocity the player gains.
    pub player_gain: Vec3,
    /// The velocity the pulled entity gains.
    pub target_gain: Vec3,
    /// The entity whose outline goes dark, if any.
    pub clear: Option<Entity>,
}

/// A hook that does nothing.
pub open spec fn idle_hook() -> HookOutcome {
    HookOutcome {
        pulled: None,
        player_gain: Vec3 { x: 0, y: 0, z: 0 },
        target_gain: Vec3 { x: 0, y: 0, z: 0 },
        clear: None,
    }
}

/// What the hook does in one frame, for a player hooked as `player` says.
pub open spec fn hook_outcome(player: Player, target: Option<HookTarget>, let_go: bool) -> HookOutcome {
    match (player.hooked_onto, target) {
        (Some(entity), Some(target)) => HookOutcome {
            pulled: Some(entity),
            player_gain: target.toward.scaled(
                upgraded(HOOK_SPEED, player.upgrades.hook_strength) as u128,
                UNIT,
            ),
            target_gain: if target.has_physics {
                target.toward.reversed().scaled(
                    (upgraded(HOOK_SPEED, player.upgrades.hook_strength) / HOOK_REACTION as int) as u128,
                    UNIT,
                )
            } else {
                Vec3 { x: 0, y: 0, z: 0 }
            },
            clear: if let_go && target.has_outline {
                Some(entity)
            } else {
                None
            },
        },
        _ => idle_hook(),
    }
}

/// The player once the hook button was let go, or not.
pub open spec fn released(player: Player, let_go: bool) -> Player {
    if let_go {
        Player { hooked_onto: None, ..player }
    } else {
        player
    }
}

/// One frame of the hook at work.
///
/// While the hook holds on to an entity that is still there, the player
/// gains `HOOK_SPEED`, times the hook strength, towards it, and the entity,
/// if it has physics, a fifth of that towards the player. This is a push
/// given anew on every frame, not a rope. When the hook button is let go the
/// hook lets go and the entity's outline goes dark. `target` is `None` when
/// the hooked entity is gone. Without a player nothing happens.
pub fn player_use_and_remove_hook(
    player: Option<&mut Player>,
    target: Option<HookTarget>,
    let_go: bool,
) -> (outcome: HookOutcome)
    ensures
        player is None ==> outcome == idle_hook(),
        player matches Some(player) ==> {
            &&& outcome == hook_outcome(*player, target, let_go)
            &&& *final(player) == released(*player, let_go)
        },
{
    let still = Vec3 { x: 0, y: 0, z: 0 };
    let mut outcome = HookOutcome { pulled: None, player_gain: still, target_gain: still, clear: None };
    if let Some(player) = player {
        if let Some(entity) = player.hooked_onto {
            if let Some(target) = target {
                let speed = player.upgrades.hook_pull();
                outcome.pulled = Some(entity);
                outcome.player_gain = target.toward.scale(speed, UNIT);
                if target.has_physics {
                    outcome.target_gain = target.toward.reverse().scale(
                        speed / (HOOK_REACTION as u128),
                        UNIT,
                    );
                }
                if let_go && target.has_outline {
                    outcome.clear = Some(entity);
                }
            }
            if let_go {
                player.hooked_onto = None;
            }
        }
    }
    outcome
}

/// Whether a dash is granted: the button went down, a dash is to be had, and
/// the last dash is at least `DASH_COOLDOWN` ago.
pub open spec fn dash_granted(player: Player, last_dash_time: u64, pressed: bool, elapsed: u64) -> bool {
    pressed && player.dash_available && elapsed - last_dash_time >= DASH_COOLDOWN
}

/// The player after a frame of the dash: a dash that is granted is used up.
pub open spec fn dashed(player: Player, last_dash_time: u64, pressed: bool, elapsed: u64) -> Player {
    if dash_granted(player, last_dash_time, pressed, elapsed) {
        Player { dash_available: false, ..player }
    } else {
        player
    }
}

/// The velocity a dash along `aim` adds.
pub open spec fn dash_gain(player: Player, aim: Vec3) -> Vec3 {
    aim.scaled(upgraded(DASH_POWER, player.upgrades.dash_strength) as u128, UNIT)
}

/// One frame of the dash: the velocity the player gains, if any.
///
/// A dash is granted when the dash button goes down, a dash is to be had and
/// the last one is at least `DASH_COOLDOWN` ago. The player then gains, at
/// once, `DASH_POWER` times the dash strength along `aim`, the look
/// direction a thousand long; the dash is used up and the time is noted.
/// Otherwise nothing changes and nothing is gained. Without a player nothing
/// happens.
pub fn player_dash(
    player: Option<&mut Player>,
    last_dash_time: &mut u64,
    pressed: bool,
    elapsed: u64,
    aim: Vec3,
) -> (gain: Option<Vec3>)
    ensures
        player is None ==> gain is None && *final(last_dash_time) == *old(last_dash_time),
        player matches Some(player) ==> {
            &&& *final(player) == dashed(*player, *old(last_dash_time), pressed, elapsed)
            &&& if dash_granted(*player, *old(last_dash_time), pressed, elapsed) {
                gain == Some(dash_gain(*player, aim)) && *final(last_dash_time) == elapsed
            } else {
                gain is None && *final(last_dash_time) == *old(last_dash_time)
            }
        },
{
    if let Some(player) = player {
        let cooled_down = elapsed >= *last_dash_time && elapsed - *last_dash_time >= DASH_COOLDOWN;
        if pressed && player.dash_available && cooled_down {
            player.dash_available = false;
            *last_dash_time = elapsed;
            return Some(aim.scale(player.upgrades.dash_impulse(), UNIT));
        }
    }
    None
}

/// One thing the controller does with the player in a frame.
pub enum Action {
    /// Aiming the hook at what the ray hit, with the hook button pressed or
    /// not.
    Aim { hit: Option<RayHit>, grab: bool },
    /// The hook at work, with the hook button let go or not.
    Pull { let_go: bool },
    /// The dash, with the dash button pressed or not, at a time on the
    /// clock and with the time of the last dash.
    Dash { pressed: bool, elapsed: u64, last_dash_time: u64 },
}

impl Player {
    /// The player after one action of the controller.
    pub open spec fn after(self, action: Action) -> Player {
        match action {
            Action::Aim { hit, grab } => hooked(self, hit, grab),
            Action::Pull { let_go } => released(self, let_go),
            Action::Dash { pressed, elapsed, last_dash_time } => dashed(
                self,
                last_dash_time,
                pressed,
                elapsed,
            ),
        }
    }
}

/// The hook takes hold only when the hook button goes down on a candidate,
/// and it lets go in the frame the button is let go.
pub proof fn lemma_hook_follows_the_button(player: Player, action: Action)
    ensures
        player.after(action).hooked_onto != player.hooked_onto ==> {
            ||| action matches Action::Aim { hit, grab } && grab && candidate(hit) is Some
                && player.after(action).hooked_onto == candidate(hit)
            ||| action matches Action::Pull { let_go } && let_go && player.after(
                action,
            ).hooked_onto is None
        },
        action matches Action::Pull { let_go } ==> (let_go ==> player.after(action).hooked_onto
            is None),
{
}

/// A dash goes with a dash that is granted and comes back only with a new
/// hook.
pub proof fn lemma_dash_comes_back_with_a_hook(player: Player, action: Action)
    ensures
        !player.dash_available && player.after(action).dash_available ==> (
        action matches Action::Aim { hit, grab } && grab && candidate(hit) is Some && player.after(
            action,
        ).hooked_onto == candidate(hit)),
        player.dash_available && !player.after(action).dash_available ==> (
        action matches Action::Dash { pressed, elapsed, last_dash_time } && dash_granted(
            player,
            last_dash_time,
            pressed,
            elapsed,
        )),
        player.after(action).upgrades == player.upgrades,
{
}

/// The height points an altitude is worth: one for every ten world units
/// above the ground, none below it.
pub open spec fn height_points(y: i64) -> u64 {
    if y <= 0 {
        0
    } else {
        (y / HEIGHT_PER_POINT) as u64
    }
}

/// Raises the height points shown to what the player's altitude is worth.
/// They never go down, however far the player falls. Without a player the
/// score stays as it is.
pub fn player_update_score(player_y: Option<i64>, score: &mut Score)
    ensures
        *final(score) == match player_y {
            Some(y) => old(score).raised_to(height_points(y)),
            None => *old(score),
        },
        final(score).current.height >= old(score).current.height,
        final(score).current.total() >= old(score).current.total(),
{
    if let Some(y) = player_y {
        let worth: u64 = if y <= 0 {
            0
        } else {
            (y / HEIGHT_PER_POINT) as u64
        };
        if worth > score.current.height {
            score.current.height = worth;
        }
    }
}

} // verus!
