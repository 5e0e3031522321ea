//! The spawn director: what falls into the world, where and how often.

use crate::geometry::Vec3;
use crate::random::{gen_range, gen_ratio};
use crate::thingamajig::{
    lemma_thingamajig_size, planned, Shape, ThingamajigPlan, ThingamajigView,
};
use rand::thread_rng;
use vstd::arithmetic::div_mod::{
    lemma_fundamental_div_mod, lemma_fundamental_div_mod_converse, lemma_mod_bound,
};
use vstd::prelude::*;

verus! {

/// Squared distance under which two static spheres count as clustered.
pub const MIN_SPHERE_DISTANCE: u64 = 3_000_000_000;

/// Squared distance under which two thingamajigs count as clustered.
pub const MIN_THINGAMAJIG_DISTANCE: u64 = 20_000_000_000;

/// Static spheres appear within this distance of the player on each axis.
pub const STATIC_SPREAD: i64 = 100_000;

/// Falling spheres and thingamajigs appear within this horizontal distance
/// of the player on each axis.
pub const FALLING_SPREAD: i64 = 200_000;

/// Falling spheres and thingamajigs appear this far above the player.
pub const SPAWN_HEIGHT: i64 = 100_000;

/// Vertical speed a falling sphere starts with.
pub const FALL_SPEED: i64 = -10_000;

/// What the first spawn tier asks the host to create.
#[derive(Clone, Copy, Debug, PartialEq, Eq, Structural)]
pub enum Obstacle {
    /// A small sphere that falls.
    Falling { position: Vec3, velocity: Vec3 },
    /// A large sphere that stays where it is.
    Static { position: Vec3 },
}

/// Whether some point of `others` lies at a squared distance below `limit`
/// from `p`.
pub open spec fn any_closer(others: Seq<Vec3>, p: Vec3, limit: u64) -> bool {
    exists|i: int| 0 <= i < others.len() && (#[trigger] others[i]).distance_squared(p) < limit
}

/// Whether `p` would crowd one of `others`.
pub fn crowded(others: &Vec<Vec3>, p: Vec3, limit: u64) -> (near: bool)
    ensures
        near == any_closer(others@, p, limit),
{
    for i in 0..others.len()
        invariant
            forall|j: int| 0 <= j < i ==> !((#[trigger] others@[j]).distance_squared(p) < limit),
    {
        if others[i].closer_than(p, limit) {
            return true;
        }
    }
    false
}

/// Where a static sphere drawn at offset `by` from the player would stand,
/// if it is let in.
pub open spec fn static_sphere_outcome(player: Vec3, spheres: Seq<Vec3>, by: Vec3) -> Option<
    Obstacle,
> {
    if any_closer(spheres, player.displaced(by), MIN_SPHERE_DISTANCE) {
        None
    } else {
        Some(Obstacle::Static { position: player.displaced(by) })
    }
}

/// One attempt at a static sphere, at offset `by` from the player. The
/// attempt gives nothing when the place is within `MIN_SPHERE_DISTANCE` of a
/// sphere of `spheres`.
pub fn static_sphere_attempt(player: Vec3, spheres: &Vec<Vec3>, by: Vec3) -> (made: Option<
    Obstacle,
>)
    ensures
        made == static_sphere_outcome(player, spheres@, by),
{
    let position = player.offset(by);
    if crowded(spheres, position, MIN_SPHERE_DISTANCE) {
        None
    } else {
        Some(Obstacle::Static { position })
    }
}

/// A static sphere is never let in within `MIN_SPHERE_DISTANCE` of one that
/// is there already, wherever the player stands.
pub proof fn lemma_crowded_sphere_rejected(player: Vec3, spheres: Seq<Vec3>, by: Vec3, i: int)
    requires
        0 <= i < spheres.len(),
        spheres[i].distance_squared(player.displaced(by)) < MIN_SPHERE_DISTANCE,
    ensures
        static_sphere_outcome(player, spheres, by) is None,
{
}

/// The place `SPAWN_HEIGHT` above the player, moved sideways by `dx` and `dz`.
pub open spec fn overhead(player: Vec3, dx: i64, dz: i64) -> Vec3 {
    player.displaced(Vec3 { x: dx, y: SPAWN_HEIGHT, z: dz })
}

/// The falling sphere drawn at sideways offset `dx`, `dz`.
pub open spec fn falling_sphere_at(player: Vec3, dx: i64, dz: i64) -> Obstacle {
    Obstacle::Falling {
        position: overhead(player, dx, dz),
        velocity: Vec3 { x: 0, y: FALL_SPEED, z: 0 },
    }
}

/// A falling sphere above the player, moved sideways by `dx` and `dz`,
/// moving straight down.
pub fn falling_sphere(player: Vec3, dx: i64, dz: i64) -> (made: Obstacle)
    ensures
        made == falling_sphere_at(player, dx, dz),
{
    Obstacle::Falling {
        position: player.offset(Vec3 { x: dx, y: SPAWN_HEIGHT, z: dz }),
        velocity: Vec3 { x: 0, y: FALL_SPEED, z: 0 },
    }
}

/// One attempt at a thingamajig of `shape` above the player, moved sideways
/// by `dx` and `dz`. The attempt gives nothing when the place is within
/// `MIN_THINGAMAJIG_DISTANCE` of a center of `thingamajigs`.
pub fn thingamajig_attempt(
    player: Vec3,
    thingamajigs: &Vec<Vec3>,
    dx: i64,
    dz: i64,
    shape: Shape,
) -> (made: Option<ThingamajigPlan>)
    ensures
        any_closer(thingamajigs@, overhead(player, dx, dz), MIN_THINGAMAJIG_DISTANCE)
            <==> made is None,
        made matches Some(plan) ==> plan@ == planned(overhead(player, dx, dz), shape),
        made matches Some(plan) ==> 120 <= plan.cuboids@.len() <= 200,
{
    let center = player.offset(Vec3 { x: dx, y: SPAWN_HEIGHT, z: dz });
    if crowded(thingamajigs, center, MIN_THINGAMAJIG_DISTANCE) {
        None
    } else {
        Some(ThingamajigPlan::new(center, shape))
    }
}

/// Time between two spawn attempts of each tier. Zero switches a tier off.
#[derive(Clone, Copy, Debug, PartialEq, Eq, Structural)]
pub struct SpawnSettings {
    pub lvl1_spawn: u64,
    pub lvl2_spawn: u64,
}

/// The spawn intervals for a player at altitude `y`, a function of the
/// altitude alone. The higher the player, the shorter the first tier's
/// interval and the denser its spawns: 80 ms up to 200 world units, 70 ms up
/// to 300, 40 ms up to 500 and 20 ms above. The second tier is switched off
/// up to 300 world units and attempts every 500 ms above.
pub open spec fn settings_at(y: i64) -> SpawnSettings {
    if y > 500_000 {
        SpawnSettings { lvl1_spawn: 20_000_000, lvl2_spawn: 500_000_000 }
    } else if y > 300_000 {
        SpawnSettings { lvl1_spawn: 40_000_000, lvl2_spawn: 500_000_000 }
    } else if y > 200_000 {
        SpawnSettings { lvl1_spawn: 70_000_000, lvl2_spawn: 0 }
    } else {
        SpawnSettings { lvl1_spawn: 80_000_000, lvl2_spawn: 0 }
    }
}

impl Default for SpawnSettings {
    /// The intervals on the ground: the first tier at 80 ms, the second
    /// switched off.
    fn default() -> (settings: SpawnSettings)
        ensures
            settings == settings_at(0),
    {
        SpawnSettings { lvl1_spawn: 80_000_000, lvl2_spawn: 0 }
    }
}

/// Sets the spawn intervals for the player's altitude. Without a player
/// they stay as they are.
pub fn modify_spawn_settings(settings: &mut SpawnSettings, player_y: Option<i64>)
    ensures
        *final(settings) == match player_y {
            Some(y) => settings_at(y),
            None => *old(settings),
        },
{
    if let Some(y) = player_y {
        if y > 500_000 {
            settings.lvl1_spawn = 20_000_000;
            settings.lvl2_spawn = 500_000_000;
        } else if y > 300_000 {
            settings.lvl1_spawn = 40_000_000;
            settings.lvl2_spawn = 500_000_000;
        } else if y > 200_000 {
            settings.lvl1_spawn = 70_000_000;
            settings.lvl2_spawn = 0;
        } else {
            settings.lvl1_spawn = 80_000_000;
            settings.lvl2_spawn = 0;
        }
    }
}

/// Climbing never lengthens a spawn interval. The first tier always runs;
/// the second runs exactly above 300 world units, and there its interval
/// does not grow either.
pub proof fn lemma_intervals_shrink_with_altitude(low: i64, high: i64)
    requires
        low <= high,
    ensures
        settings_at(high).lvl1_spawn <= settings_at(low).lvl1_spawn,
        settings_at(low).lvl1_spawn > 0,
        settings_at(low).lvl2_spawn > 0 <==> low > 300_000,
        low > 300_000 ==> settings_at(high).lvl2_spawn <= settings_at(low).lvl2_spawn,
{
}

/// The time up to which each tier has made its spawn attempts.
#[derive(Clone, Copy, Debug, PartialEq, Eq, Structural)]
pub struct SpawnDirector {
    pub last_time_elapsed_lvl1: u64,
    pub last_time_elapsed_lvl2: u64,
}

impl Default for SpawnDirector {
    fn default() -> (director: SpawnDirector)
        ensures
            director == (SpawnDirector { last_time_elapsed_lvl1: 0, last_time_elapsed_lvl2: 0 }),
    {
        SpawnDirector { last_time_elapsed_lvl1: 0, last_time_elapsed_lvl2: 0 }
    }
}

/// Number of spawn attempts a tier makes to catch up from `last` to `now`:
/// one for every `interval` begun in between.
pub open spec fn attempts(last: u64, now: u64, interval: u64) -> nat {
    if interval == 0 || last >= now {
        0
    } else {
        ((now - last + interval - 1) / (interval as int)) as nat
    }
}

/// The time up to which a tier has made its attempts once it has caught up
/// with `now`. A tier that is switched off follows the clock.
pub open spec fn caught_up(last: u64, now: u64, interval: u64) -> u64 {
    if interval == 0 {
        now
    } else if last + attempts(last, now, interval) * interval > u64::MAX {
        u64::MAX
    } else {
        (last + attempts(last, now, interval) * interval) as u64
    }
}

impl SpawnDirector {
    /// The director after one pass at time `elapsed`. A paused pass follows
    /// the clock; a pass without a player changes nothing; any other pass
    /// catches up.
    pub open spec fn after_pass(
        self,
        settings: SpawnSettings,
        paused: bool,
        elapsed: u64,
        player: bool,
    ) -> Self {
        if paused {
            SpawnDirector { last_time_elapsed_lvl1: elapsed, last_time_elapsed_lvl2: elapsed }
        } else if !player {
            self
        } else {
            SpawnDirector {
                last_time_elapsed_lvl1: caught_up(
                    self.last_time_elapsed_lvl1,
                    elapsed,
                    settings.lvl1_spawn,
                ),
                last_time_elapsed_lvl2: caught_up(
                    self.last_time_elapsed_lvl2,
                    elapsed,
                    settings.lvl2_spawn,
                ),
            }
        }
    }
}

/// After `made` steps of `interval` from `last`, the first of which to reach
/// `now` was the last one, `made` is the number of attempts.
proof fn lemma_attempts(last: u64, now: u64, interval: u64, made: nat)
    requires
        interval > 0,
        last + made * interval >= now,
        made > 0 ==> last + (made - 1) * interval < now,
    ensures
        made == attempts(last, now, interval),
{
    if made == 0 {
        assert(made * interval == 0);
    } else {
        assert((made - 1) * interval == made * interval - interval) by (nonlinear_arith);
        assert(last < now) by (nonlinear_arith)
            requires
                last + (made - 1) * interval < now,
                made >= 1,
                interval > 0,
        ;
        let x = now - last + interval - 1;
        let r = x - made * interval;
        lemma_fundamental_div_mod_converse(x, interval as int, made as int, r);
    }
}

/// Time spent paused earns no spawn attempts. Whatever the director held
/// before, a paused pass at `paused_at` leaves it at `paused_at`; a pass at
/// that same time then owes nothing, and a later pass at `resumed_at` owes
/// one attempt for every interval begun since `paused_at` and no more.
pub proof fn lemma_pause_owes_nothing(
    director: SpawnDirector,
    settings: SpawnSettings,
    paused_at: u64,
    resumed_at: u64,
    player: bool,
)
    requires
        paused_at <= resumed_at,
    ensures
        ({
            let frozen = director.after_pass(settings, true, paused_at, player);
            let owed1 = attempts(frozen.last_time_elapsed_lvl1, resumed_at, settings.lvl1_spawn);
            let owed2 = attempts(frozen.last_time_elapsed_lvl2, resumed_at, settings.lvl2_spawn);
            &&& frozen.last_time_elapsed_lvl1 == paused_at
            &&& frozen.last_time_elapsed_lvl2 == paused_at
            &&& attempts(frozen.last_time_elapsed_lvl1, paused_at, settings.lvl1_spawn) == 0
            &&& attempts(frozen.last_time_elapsed_lvl2, paused_at, settings.lvl2_spawn) == 0
            &&& owed1 * settings.lvl1_spawn < (resumed_at - paused_at) + settings.lvl1_spawn
                || owed1 == 0
            &&& owed2 * settings.lvl2_spawn < (resumed_at - paused_at) + settings.lvl2_spawn
                || owed2 == 0
        }),
{
    lemma_attempts_bound(paused_at, resumed_at, settings.lvl1_spawn);
    lemma_attempts_bound(paused_at, resumed_at, settings.lvl2_spawn);
}

/// The attempts a tier owes cover less than the time to catch up and one
/// interval more.
proof fn lemma_attempts_bound(last: u64, now: u64, interval: u64)
    ensures
        attempts(last, now, interval) == 0 || attempts(last, now, interval) * interval < (now
            - last) + interval,
{
    if interval > 0 && last < now {
        let x = now - last + interval - 1;
        let d = interval as int;
        lemma_fundamental_div_mod(x, d);
        lemma_mod_bound(x, d);
        assert((x / d) * d == d * (x / d)) by (nonlinear_arith);
    }
}

/// What a spawn pass hands back: the spheres of the first tier and the
/// thingamajigs of the second, each in the order of the attempts.
pub struct Spawned {
    pub obstacles: Vec<Obstacle>,
    pub thingamajigs: Vec<ThingamajigPlan>,
}

/// Whether `d` is an offset the director may draw within `spread`.
pub open spec fn within_spread(d: i64, spread: i64) -> bool {
    -spread <= d < spread
}

/// The draws behind one attempt of the first tier.
#[derive(Clone, Copy, Debug, PartialEq, Eq, Structural)]
pub struct SphereDraw {
    /// Whether the attempt is at a static sphere, which it is one time in
    /// ten. Otherwise it makes a falling sphere.
    pub is_static: bool,
    /// Where the static sphere lies from the player.
    pub by: Vec3,
    /// How far sideways from the player the falling sphere starts.
    pub dx: i64,
    pub dz: i64,
}

impl SphereDraw {
    /// Whether the offsets lie within what the director draws.
    pub open spec fn in_range(self) -> bool {
        &&& within_spread(self.by.x, STATIC_SPREAD)
        &&& within_spread(self.by.y, STATIC_SPREAD)
        &&& within_spread(self.by.z, STATIC_SPREAD)
        &&& within_spread(self.dx, FALLING_SPREAD)
        &&& within_spread(self.dz, FALLING_SPREAD)
    }
}

/// What one attempt of the first tier makes of its draws: a static sphere,
/// unless it is crowded out, or else a falling sphere.
pub open spec fn tier1_outcome(player: Vec3, spheres: Seq<Vec3>, draw: SphereDraw) -> Option<
    Obstacle,
> {
    if draw.is_static {
        static_sphere_outcome(player, spheres, draw.by)
    } else {
        Some(falling_sphere_at(player, draw.dx, draw.dz))
    }
}

/// What the attempts of the first tier make of their draws, in order.
pub open spec fn tier1_outcomes(player: Vec3, spheres: Seq<Vec3>, draws: Seq<SphereDraw>) -> Seq<
    Obstacle,
>
    decreases draws.len(),
{
    if draws.len() == 0 {
        Seq::empty()
    } else {
        match tier1_outcome(player, spheres, draws.last()) {
            Some(made) => tier1_outcomes(player, spheres, draws.drop_last()).push(made),
            None => tier1_outcomes(player, spheres, draws.drop_last()),
        }
    }
}

/// One attempt of the first tier, from its draws: a static sphere at offset
/// `by` if `is_static`, which gives nothing when the place is crowded, and
/// else a falling sphere moved sideways by `dx` and `dz`.
pub fn tier1_attempt(
    player: Vec3,
    spheres: &Vec<Vec3>,
    is_static: bool,
    by: Vec3,
    dx: i64,
    dz: i64,
) -> (made: Option<Obstacle>)
    ensures
        made == if is_static {
            static_sphere_outcome(player, spheres@, by)
        } else {
            Some(falling_sphere_at(player, dx, dz))
        },
        made == tier1_outcome(player, spheres@, (SphereDraw { is_static, by, dx, dz })),
{
    if is_static {
        static_sphere_attempt(player, spheres, by)
    } else {
        Some(falling_sphere(player, dx, dz))
    }
}

/// The draws behind one attempt of the second tier.
#[derive(Clone, Copy, Debug, PartialEq, Eq, Structural)]
pub struct ThingamajigDraw {
    /// Whether the attempt goes ahead, which it does one time in ten.
    pub goes_ahead: bool,
    /// How far sideways from the player the thingamajig is centered.
    pub dx: i64,
    pub dz: i64,
    /// Whether the thingamajig is a block, which it is one time in two.
    /// Otherwise it is a ball.
    pub block: bool,
}

impl ThingamajigDraw {
    /// Whether the offsets lie within what the director draws.
    pub open spec fn in_range(self) -> bool {
        within_spread(self.dx, FALLING_SPREAD) && within_spread(self.dz, FALLING_SPREAD)
    }

    /// The shape drawn.
    pub open spec fn shape(self) -> Shape {
        if self.block {
            Shape::Block
        } else {
            Shape::Ball
        }
    }
}

/// What one attempt of the second tier makes of its draws: nothing unless
/// the attempt goes on to a place and the place is free, and then the plan
/// of a thingamajig of the drawn shape.
pub open spec fn tier2_outcome(player: Vec3, thingamajigs: Seq<Vec3>, draw: ThingamajigDraw) -> Option<
    ThingamajigView,
> {
    if draw.goes_ahead && !any_closer(
        thingamajigs,
        overhead(player, draw.dx, draw.dz),
        MIN_THINGAMAJIG_DISTANCE,
    ) {
        Some(planned(overhead(player, draw.dx, draw.dz), draw.shape()))
    } else {
        None
    }
}

/// What the attempts of the second tier make of their draws, in order.
pub open spec fn tier2_outcomes(
    player: Vec3,
    thingamajigs: Seq<Vec3>,
    draws: Seq<ThingamajigDraw>,
) -> Seq<ThingamajigView>
    decreases draws.len(),
{
    if draws.len() == 0 {
        Seq::empty()
    } else {
        match tier2_outcome(player, thingamajigs, draws.last()) {
            Some(made) => tier2_outcomes(player, thingamajigs, draws.drop_last()).push(made),
            None => tier2_outcomes(player, thingamajigs, draws.drop_last()),
        }
    }
}

/// A plan that may be there, as its view.
pub open spec fn plan_view(made: Option<ThingamajigPlan>) -> Option<ThingamajigView> {
    match made {
        Some(plan) => Some(plan@),
        None => None,
    }
}

/// The plans as their views.
pub open spec fn plan_views(plans: Seq<ThingamajigPlan>) -> Seq<ThingamajigView> {
    plans.map_values(|plan: ThingamajigPlan| plan@)
}

/// One attempt of the second tier, from its draws: nothing unless `goes_ahead`,
/// and else a thingamajig above the player, moved sideways by `dx` and `dz`,
/// a block if `block` and a ball if not, which gives nothing when the place
/// is crowded.
pub fn tier2_attempt(
    player: Vec3,
    thingamajigs: &Vec<Vec3>,
    goes_ahead: bool,
    dx: i64,
    dz: i64,
    block: bool,
) -> (made: Option<ThingamajigPlan>)
    ensures
        plan_view(made) == tier2_outcome(
            player,
            thingamajigs@,
            (ThingamajigDraw { goes_ahead, dx, dz, block }),
        ),
{
    if goes_ahead {
        let shape = if block {
            Shape::Block
        } else {
            Shape::Ball
        };
        thingamajig_attempt(player, thingamajigs, dx, dz, shape)
    } else {
        None
    }
}

/// Whether the first tier can make `obstacle` for a player at `player`, with
/// static spheres at `spheres`: whether some draws in range give it.
pub open spec fn possible_obstacle(player: Vec3, spheres: Seq<Vec3>, obstacle: Obstacle) -> bool {
    exists|draw: SphereDraw|
        draw.in_range() && #[trigger] tier1_outcome(player, spheres, draw) == Some(obstacle)
}

/// Whether the second tier can make `plan` for a player at `player`, with
/// thingamajigs centered at `thingamajigs`: whether some draws in range
/// give it.
pub open spec fn possible_thingamajig(
    player: Vec3,
    thingamajigs: Seq<Vec3>,
    plan: ThingamajigView,
) -> bool {
    exists|draw: ThingamajigDraw|
        draw.in_range() && #[trigger] tier2_outcome(player, thingamajigs, draw) == Some(plan)
}

/// Every static sphere the first tier makes keeps its distance from the
/// spheres that are there already, and every thingamajig the second tier
/// makes from the thingamajigs that are there already.
pub proof fn lemma_spawns_keep_distance(
    player: Vec3,
    spheres: Seq<Vec3>,
    thingamajigs: Seq<Vec3>,
    obstacle: Obstacle,
    plan: ThingamajigView,
)
    ensures
        possible_obstacle(player, spheres, obstacle) ==> (obstacle matches Obstacle::Static {
            position,
        } ==> !any_closer(spheres, position, MIN_SPHERE_DISTANCE)),
        possible_thingamajig(player, thingamajigs, plan) ==> !any_closer(
            thingamajigs,
            plan.center,
            MIN_THINGAMAJIG_DISTANCE,
        ),
{
}

/// One more attempt adds its outcome, if it has one, behind the others.
proof fn lemma_tier1_next(player: Vec3, spheres: Seq<Vec3>, draws: Seq<SphereDraw>, draw: SphereDraw)
    ensures
        tier1_outcomes(player, spheres, draws.push(draw)) == match tier1_outcome(
            player,
            spheres,
            draw,
        ) {
            Some(made) => tier1_outcomes(player, spheres, draws).push(made),
            None => tier1_outcomes(player, spheres, draws),
        },
{
    assert(draws.push(draw).drop_last() =~= draws);
}

/// One more attempt adds its outcome, if it has one, behind the others.
proof fn lemma_tier2_next(
    player: Vec3,
    thingamajigs: Seq<Vec3>,
    draws: Seq<ThingamajigDraw>,
    draw: ThingamajigDraw,
)
    ensures
        tier2_outcomes(player, thingamajigs, draws.push(draw)) == match tier2_outcome(
            player,
            thingamajigs,
            draw,
        ) {
            Some(made) => tier2_outcomes(player, thingamajigs, draws).push(made),
            None => tier2_outcomes(player, thingamajigs, draws),
        },
{
    assert(draws.push(draw).drop_last() =~= draws);
}

/// One pass of the spawn director.
///
/// Each tier keeps the time up to which it has made its attempts, and makes
/// one attempt per interval until that time has caught up with `elapsed`.
/// While the simulation is paused, and for a tier whose interval is zero,
/// that time follows the clock and nothing is attempted, so that no attempt
/// is owed for the time spent paused. Without a player nothing is attempted
/// and, unless paused, nothing changes.
///
/// Every attempt draws at random and hands its draws to `tier1_attempt` or
/// `tier2_attempt`: a static sphere one time in ten and a falling sphere
/// otherwise, a thingamajig one time in ten, of either shape. What comes
/// back is what those functions make, in order, of as many draws in range as
/// there were attempts owed. Which draws they were is not known beforehand.
pub fn spawn_falling_objects(
    director: &mut SpawnDirector,
    settings: &SpawnSettings,
    paused: bool,
    elapsed: u64,
    player: Option<Vec3>,
    spheres: &Vec<Vec3>,
    thingamajigs: &Vec<Vec3>,
) -> (spawned: Spawned)
    ensures
        *final(director) == old(director).after_pass(*settings, paused, elapsed, player is Some),
        player is None || paused ==> spawned.obstacles@.len() == 0 && spawned.thingamajigs@.len()
            == 0,
        player matches Some(at) ==> (!paused ==> exists|draws: Seq<SphereDraw>|
            {
                &&& draws.len() == attempts(
                    old(director).last_time_elapsed_lvl1,
                    elapsed,
                    settings.lvl1_spawn,
                )
                &&& forall|i: int| 0 <= i < draws.len() ==> (#[trigger] draws[i]).in_range()
                &&& spawned.obstacles@ == #[trigger] tier1_outcomes(at, spheres@, draws)
            }),
        player matches Some(at) ==> (!paused ==> exists|draws: Seq<ThingamajigDraw>|
            {
                &&& draws.len() == attempts(
                    old(director).last_time_elapsed_lvl2,
                    elapsed,
                    settings.lvl2_spawn,
                )
                &&& forall|i: int| 0 <= i < draws.len() ==> (#[trigger] draws[i]).in_range()
                &&& plan_views(spawned.thingamajigs@) == #[trigger] tier2_outcomes(
                    at,
                    thingamajigs@,
                    draws,
                )
            }),
        spawned.obstacles@.len() <= attempts(
            old(director).last_time_elapsed_lvl1,
            elapsed,
            settings.lvl1_spawn,
        ),
        player is Some && !paused && spheres@.len() == 0 ==> spawned.obstacles@.len() == attempts(
            old(director).last_time_elapsed_lvl1,
            elapsed,
            settings.lvl1_spawn,
        ),
        spawned.thingamajigs@.len() <= attempts(
            old(director).last_time_elapsed_lvl2,
            elapsed,
            settings.lvl2_spawn,
        ),
        forall|i: int|
            0 <= i < spawned.obstacles@.len() ==> possible_obstacle(
                player.unwrap(),
                spheres@,
                #[trigger] spawned.obstacles@[i],
            ),
        forall|i: int|
            0 <= i < spawned.thingamajigs@.len() ==> possible_thingamajig(
                player.unwrap(),
                thingamajigs@,
                (#[trigger] spawned.thingamajigs@[i])@,
            ),
        forall|i: int|
            0 <= i < spawned.thingamajigs@.len() ==> 120 <= (
            #[trigger] spawned.thingamajigs@[i]).cuboids@.len() <= 200,
{
    let mut obstacles: Vec<Obstacle> = Vec::new();
    let mut plans: Vec<ThingamajigPlan> = Vec::new();
    if paused {
        director.last_time_elapsed_lvl1 = elapsed;
        director.last_time_elapsed_lvl2 = elapsed;
        return Spawned { obstacles, thingamajigs: plans };
    }
    let player = match player {
        Some(player) => player,
        None => {
            return Spawned { obstacles, thingamajigs: plans };
        },
    };
    let mut rng = thread_rng();

    let start1: u64 = director.last_time_elapsed_lvl1;
    let interval1: u64 = settings.lvl1_spawn;
    let mut last1: u64 = if interval1 == 0 {
        elapsed
    } else {
        start1
    };
    let ghost mut made: nat = 0;
    let ghost mut draws1: Seq<SphereDraw> = Seq::empty();
    proof {
        assert(made * interval1 == 0);
    }
    while last1 < elapsed
        invariant
            interval1 > 0 ==> last1 == if start1 + made * interval1 > u64::MAX {
                u64::MAX
            } else {
                (start1 + made * interval1) as u64
            },
            interval1 == 0 ==> last1 == elapsed && made == 0,
            made > 0 ==> start1 + (made - 1) * interval1 < elapsed,
            draws1.len() == made,
            forall|i: int| 0 <= i < draws1.len() ==> (#[trigger] draws1[i]).in_range(),
            obstacles@ == tier1_outcomes(player, spheres@, draws1),
            obstacles@.len() <= made,
            spheres@.len() == 0 ==> obstacles@.len() == made,
            forall|i: int|
                0 <= i < obstacles@.len() ==> possible_obstacle(
                    player,
                    spheres@,
                    #[trigger] obstacles@[i],
                ),
        decreases elapsed.saturating_sub(last1),
    {
        let is_static = gen_ratio(&mut rng, 1, 10);
        let mut by = Vec3 { x: 0, y: 0, z: 0 };
        let mut dx: i64 = 0;
        let mut dz: i64 = 0;
        if is_static {
            by.x = gen_range(&mut rng, -STATIC_SPREAD, STATIC_SPREAD);
            by.y = gen_range(&mut rng, -STATIC_SPREAD, STATIC_SPREAD);
            by.z = gen_range(&mut rng, -STATIC_SPREAD, STATIC_SPREAD);
        } else {
            dx = gen_range(&mut rng, -FALLING_SPREAD, FALLING_SPREAD);
            dz = gen_range(&mut rng, -FALLING_SPREAD, FALLING_SPREAD);
        }
        let ghost draw = SphereDraw { is_static, by, dx, dz };
        proof {
            lemma_tier1_next(player, spheres@, draws1, draw);
            draws1 = draws1.push(draw);
        }
        if let Some(sphere) = tier1_attempt(player, spheres, is_static, by, dx, dz) {
            assert(tier1_outcome(player, spheres@, draw) == Some(sphere));
            obstacles.push(sphere);
        }
        proof {
            assert((made + 1) * interval1 == made * interval1 + interval1) by (nonlinear_arith);
            made = made + 1;
        }
        last1 = last1.saturating_add(interval1);
    }
    proof {
        if interval1 > 0 {
            lemma_attempts(start1, elapsed, interval1, made);
        }
        assert(obstacles@ == tier1_outcomes(player, spheres@, draws1));
    }
    director.last_time_elapsed_lvl1 = last1;

    let start2: u64 = director.last_time_elapsed_lvl2;
    let interval2: u64 = settings.lvl2_spawn;
    let mut last2: u64 = if interval2 == 0 {
        elapsed
    } else {
        start2
    };
    let ghost mut tried: nat = 0;
    let ghost mut draws2: Seq<ThingamajigDraw> = Seq::empty();
    proof {
        assert(tried * interval2 == 0);
        assert(plan_views(plans@) =~= Seq::<ThingamajigView>::empty());
    }
    while last2 < elapsed
        invariant
            interval2 > 0 ==> last2 == if start2 + tried * interval2 > u64::MAX {
                u64::MAX
            } else {
                (start2 + tried * interval2) as u64
            },
            interval2 == 0 ==> last2 == elapsed && tried == 0,
            tried > 0 ==> start2 + (tried - 1) * interval2 < elapsed,
            draws2.len() == tried,
            forall|i: int| 0 <= i < draws2.len() ==> (#[trigger] draws2[i]).in_range(),
            plan_views(plans@) == tier2_outcomes(player, thingamajigs@, draws2),
            plans@.len() <= tried,
            forall|i: int|
                0 <= i < plans@.len() ==> possible_thingamajig(
                    player,
                    thingamajigs@,
                    (#[trigger] plans@[i])@,
                ),
            forall|i: int|
                0 <= i < plans@.len() ==> 120 <= (#[trigger] plans@[i]).cuboids@.len() <= 200,
        decreases elapsed.saturating_sub(last2),
    {
        let goes_ahead = gen_ratio(&mut rng, 1, 10);
        let mut dx: i64 = 0;
        let mut dz: i64 = 0;
        let mut block = false;
        if goes_ahead {
            dx = gen_range(&mut rng, -FALLING_SPREAD, FALLING_SPREAD);
            dz = gen_range(&mut rng, -FALLING_SPREAD, FALLING_SPREAD);
            block = gen_ratio(&mut rng, 1, 2);
        }
        let ghost draw = ThingamajigDraw { goes_ahead, dx, dz, block };
        proof {
            lemma_tier2_next(player, thingamajigs@, draws2, draw);
            draws2 = draws2.push(draw);
        }
        if let Some(plan) = tier2_attempt(player, thingamajigs, goes_ahead, dx, dz, block) {
            proof {
                assert(tier2_outcome(player, thingamajigs@, draw) == Some(plan@));
                lemma_thingamajig_size(plan.center, plan.shape);
                assert(plan_views(plans@.push(plan)) =~= plan_views(plans@).push(plan@));
            }
            plans.push(plan);
        }
        proof {
            assert((tried + 1) * interval2 == tried * interval2 + interval2) by (nonlinear_arith);
            tried = tried + 1;
        }
        last2 = last2.saturating_add(interval2);
    }
    proof {
        if interval2 > 0 {
            lemma_attempts(start2, elapsed, interval2, tried);
        }
        assert(plan_views(plans@) == tier2_outcomes(player, thingamajigs@, draws2));
    }
    director.last_time_elapsed_lvl2 = last2;
    Spawned { obstacles, thingamajigs: plans }
}

} // verus!
