//! Removal of falling objects: below the player, and after a fade-out.

use crate::entity::Entity;
use vstd::prelude::*;

verus! {

/// How far below the player a falling object is removed.
pub const DESPAWN_Y: i64 = -100_000;

/// The cuboids a thingamajig owns. They leave the world together with it.
#[derive(Clone, Debug, PartialEq, Eq)]
pub struct Thingajamig(pub Vec<Entity>);

/// An entity up for removal: what it owns, and whether it is to leave.
pub struct Candidate {
    pub entity: Entity,
    pub owned: Seq<Entity>,
    pub leaves: bool,
}

impl Candidate {
    /// The entity followed by what it owns.
    pub open spec fn group(self) -> Seq<Entity> {
        seq![self.entity] + self.owned
    }
}

/// What leaves the world: every candidate that is to leave, followed by what
/// it owns, in the order of the candidates.
pub open spec fn leaving(candidates: Seq<Candidate>) -> Seq<Entity>
    decreases candidates.len(),
{
    if candidates.len() == 0 {
        Seq::empty()
    } else if candidates.last().leaves {
        leaving(candidates.drop_last()) + candidates.last().group()
    } else {
        leaving(candidates.drop_last())
    }
}

/// Removal is whole: a candidate that is to leave is among the removed
/// together with everything it owns.
pub proof fn lemma_leaves_with_all_owned(candidates: Seq<Candidate>, i: int)
    requires
        0 <= i < candidates.len(),
        candidates[i].leaves,
    ensures
        leaving(candidates).contains(candidates[i].entity),
        forall|k: int|
            0 <= k < candidates[i].owned.len() ==> leaving(candidates).contains(
                #[trigger] candidates[i].owned[k],
            ),
    decreases candidates.len(),
{
    let all = leaving(candidates);
    let rest = leaving(candidates.drop_last());
    if i == candidates.len() - 1 {
        let group = candidates[i].group();
        assert(all[rest.len() as int] == group[0]);
        assert forall|k: int| 0 <= k < candidates[i].owned.len() implies all.contains(
            #[trigger] candidates[i].owned[k],
        ) by {
            assert(all[rest.len() + k + 1] == group[k + 1]);
        }
    } else {
        lemma_leaves_with_all_owned(candidates.drop_last(), i);
        assert(all[rest.index_of(candidates[i].entity)] == candidates[i].entity);
        assert forall|k: int| 0 <= k < candidates[i].owned.len() implies all.contains(
            #[trigger] candidates[i].owned[k],
        ) by {
            let e = candidates[i].owned[k];
            assert(rest.contains(candidates.drop_last()[i].owned[k]));
            assert(all[rest.index_of(e)] == e);
        }
    }
}

/// Nothing else is removed: every removed entity is a candidate that is to
/// leave, or is owned by one.
pub proof fn lemma_leaving_only_marked(candidates: Seq<Candidate>, entity: Entity)
    requires
        leaving(candidates).contains(entity),
    ensures
        exists|i: int|
            0 <= i < candidates.len() && candidates[i].leaves && (
            #[trigger] candidates[i]).group().contains(entity),
    decreases candidates.len(),
{
    let all = leaving(candidates);
    let rest = leaving(candidates.drop_last());
    let last = candidates.len() - 1;
    if candidates.len() == 0 {
    } else if rest.contains(entity) {
        lemma_leaving_only_marked(candidates.drop_last(), entity);
        let i = choose|i: int|
            0 <= i < candidates.drop_last().len() && candidates.drop_last()[i].leaves && (
            #[trigger] candidates.drop_last()[i]).group().contains(entity);
        assert(candidates[i].group().contains(entity));
    } else {
        let at = all.index_of(entity);
        assert(at >= rest.len()) by {
            if at < rest.len() {
                assert(rest[at] == entity);
            }
        }
        assert(candidates[last].group()[at - rest.len()] == entity);
    }
}

/// Appends `entity` and what it owns to `out`.
fn push_group(out: &mut Vec<Entity>, entity: Entity, owned: &Thingajamig)
    ensures
        final(out)@ == old(out)@ + (Candidate { entity, owned: owned.0@, leaves: true }).group(),
{
    out.push(entity);
    for k in 0..owned.0.len()
        invariant
            out@ == old(out)@ + seq![entity] + owned.0@.take(k as int),
    {
        out.push(owned.0[k]);
        assert(owned.0@.take(k + 1) == owned.0@.take(k as int).push(owned.0@[k as int]));
    }
    assert(owned.0@.take(owned.0@.len() as int) == owned.0@);
}

/// An entity that is removed once it is far enough below the player: its
/// altitude, and what it owns.
#[derive(Clone, Debug, PartialEq, Eq)]
pub struct DespawnOnLowerThanY {
    pub entity: Entity,
    pub y: i64,
    pub owned: Thingajamig,
}

/// Whether an object at altitude `y` is too far below a player at `player_y`.
pub open spec fn too_low(y: i64, player_y: i64) -> bool {
    y < DESPAWN_Y + player_y
}

/// The tagged entities as candidates: those too far below the player leave.
pub open spec fn fall_candidates(tagged: Seq<DespawnOnLowerThanY>, player_y: i64) -> Seq<
    Candidate,
> {
    tagged.map_values(
        |t: DespawnOnLowerThanY|
            Candidate { entity: t.entity, owned: t.owned.0@, leaves: too_low(t.y, player_y) },
    )
}

/// Lists what is to be removed for being too far below the player: each
/// tagged entity lower than `DESPAWN_Y` under the player, and with it
/// everything it owns. Without a player nothing is removed.
pub fn despawn_falling_objects(player_y: Option<i64>, tagged: &Vec<DespawnOnLowerThanY>) -> (removed:
    Vec<Entity>)
    ensures
        removed@ == match player_y {
            Some(y) => leaving(fall_candidates(tagged@, y)),
            None => Seq::empty(),
        },
{
    let mut removed: Vec<Entity> = Vec::new();
    if let Some(player_y) = player_y {
        let ghost candidates = fall_candidates(tagged@, player_y);
        for i in 0..tagged.len()
            invariant
                candidates == fall_candidates(tagged@, player_y),
                removed@ == leaving(candidates.take(i as int)),
        {
            assert(candidates.take(i + 1).drop_last() == candidates.take(i as int));
            if (tagged[i].y as i128) < DESPAWN_Y as i128 + player_y as i128 {
                push_group(&mut removed, tagged[i].entity, &tagged[i].owned);
            }
        }
        assert(candidates.take(tagged@.len() as int) == candidates);
    }
    removed
}

/// A fade-out: the material's alpha goes from one to zero over `duration`,
/// and the entity is removed once alpha has dropped below zero.
#[derive(Clone, Copy, Debug, PartialEq, Eq, Structural)]
pub struct OutlineToonFadeOut {
    /// Time over which alpha goes from one to zero.
    pub duration: u64,
    /// Time left until alpha reaches zero.
    pub left: u64,
    /// Whether alpha has dropped below zero.
    pub spent: bool,
}

/// Alpha is given in millionths.
pub const OPAQUE: u32 = 1_000_000;

impl OutlineToonFadeOut {
    /// A fade-out at its start: alpha is one.
    pub fn new(duration: u64) -> (fade: Self)
        ensures
            fade == (OutlineToonFadeOut { duration, left: duration, spent: false }),
    {
        OutlineToonFadeOut { duration, left: duration, spent: false }
    }

    /// Alpha in millionths: the share of the duration that is left, rounded
    /// down, and never more than one. A fade-out of no duration is opaque
    /// until it is spent.
    pub open spec fn alpha_millionths(self) -> int {
        if self.spent {
            0
        } else if self.left >= self.duration {
            OPAQUE as int
        } else {
            self.left * OPAQUE / (self.duration as int)
        }
    }

    /// Alpha in millionths.
    pub fn alpha(&self) -> (alpha: u32)
        ensures
            alpha == self.alpha_millionths(),
            alpha <= OPAQUE,
    {
        if self.spent {
            0
        } else if self.left >= self.duration {
            OPAQUE
        } else {
            let left: u128 = self.left as u128;
            let duration: u128 = self.duration as u128;
            assert(left * OPAQUE / (duration as int) < OPAQUE) by (nonlinear_arith)
                requires
                    0 <= left < duration,
                    OPAQUE > 0,
            ;
            assert(left * OPAQUE <= 0xffff_ffff_ffff_ffff * OPAQUE) by (nonlinear_arith)
                requires
                    0 <= left <= 0xffff_ffff_ffff_ffff,
            ;
            (left * (OPAQUE as u128) / duration) as u32
        }
    }

    /// The fade-out after `delta` more of simulation time. Alpha drops below
    /// zero when more time has passed than the duration.
    pub open spec fn advanced(self, delta: u64) -> Self {
        if delta > self.left {
            OutlineToonFadeOut { duration: self.duration, left: 0, spent: true }
        } else {
            OutlineToonFadeOut {
                duration: self.duration,
                left: (self.left - delta) as u64,
                spent: self.spent,
            }
        }
    }

    /// Lets `delta` of simulation time pass.
    pub fn advance(&mut self, delta: u64)
        ensures
            *final(self) == old(self).advanced(delta),
    {
        if delta > self.left {
            self.left = 0;
            self.spent = true;
        } else {
            self.left = self.left - delta;
        }
    }

    /// The fade-out after each of `deltas` has passed in turn.
    pub open spec fn advanced_by_all(self, deltas: Seq<u64>) -> Self
        decreases deltas.len(),
    {
        if deltas.len() == 0 {
            self
        } else {
            self.advanced_by_all(deltas.drop_last()).advanced(deltas.last())
        }
    }
}

/// The sum of `deltas`.
pub open spec fn total_time(deltas: Seq<u64>) -> int
    decreases deltas.len(),
{
    if deltas.len() == 0 {
        0
    } else {
        total_time(deltas.drop_last()) + deltas.last()
    }
}

/// A fade-out ends exactly when more simulation time has passed than its
/// duration, however the time is cut into frames. Until then the time left
/// is the duration less the time passed.
pub proof fn lemma_fade_out_ends(duration: u64, deltas: Seq<u64>)
    ensures
        ({
            let fade = (OutlineToonFadeOut { duration, left: duration, spent: false }).advanced_by_all(
                deltas,
            );
            &&& fade.duration == duration
            &&& fade.spent <==> total_time(deltas) > duration
            &&& !fade.spent ==> fade.left == duration - total_time(deltas)
        }),
    decreases deltas.len(),
{
    if deltas.len() > 0 {
        lemma_fade_out_ends(duration, deltas.drop_last());
        lemma_total_time_positive(deltas.drop_last());
    }
}

proof fn lemma_total_time_positive(deltas: Seq<u64>)
    ensures
        total_time(deltas) >= 0,
    decreases deltas.len(),
{
    if deltas.len() > 0 {
        lemma_total_time_positive(deltas.drop_last());
    }
}

/// An entity that is fading out, and what it owns.
#[derive(Clone, Debug, PartialEq, Eq)]
pub struct Fading {
    pub entity: Entity,
    pub fade: OutlineToonFadeOut,
    pub owned: Thingajamig,
}

/// One entity's share of a fade-out pass.
#[derive(Clone, Copy, Debug, PartialEq, Eq, Structural)]
pub struct FadeStep {
    pub entity: Entity,
    /// The alpha to show this frame, in millionths.
    pub alpha: u32,
    /// The fade-out as it stands after this frame.
    pub fade: OutlineToonFadeOut,
}

/// What a fade-out pass hands back.
pub struct FadeOuts {
    /// One step for each fading entity, in their order.
    pub steps: Vec<FadeStep>,
    /// What is to be removed: each entity whose fade-out has ended, and with
    /// it everything it owns.
    pub removed: Vec<Entity>,
}

/// The step of one fading entity when `delta` passes.
pub open spec fn fade_step(fading: Fading, delta: u64) -> FadeStep {
    FadeStep {
        entity: fading.entity,
        alpha: fading.fade.alpha_millionths() as u32,
        fade: fading.fade.advanced(delta),
    }
}

/// The fading entities as candidates: those whose fade-out ends when `delta`
/// passes leave.
pub open spec fn fade_candidates(fading: Seq<Fading>, delta: u64) -> Seq<Candidate> {
    fading.map_values(
        |f: Fading|
            Candidate { entity: f.entity, owned: f.owned.0@, leaves: f.fade.advanced(delta).spent },
    )
}

/// One pass over the fading entities. Each is shown at the alpha it has
/// reached, then `delta` of simulation time passes for it; an entity whose
/// alpha drops below zero is removed with everything it owns. While the
/// simulation is paused nothing fades.
pub fn handle_fade_outs(fading: &Vec<Fading>, paused: bool, delta: u64) -> (out: FadeOuts)
    ensures
        paused ==> out.steps@.len() == 0 && out.removed@.len() == 0,
        !paused ==> out.steps@ == fading@.map_values(|f: Fading| fade_step(f, delta)),
        !paused ==> out.removed@ == leaving(fade_candidates(fading@, delta)),
{
    let mut steps: Vec<FadeStep> = Vec::new();
    let mut removed: Vec<Entity> = Vec::new();
    if !paused {
        let ghost candidates = fade_candidates(fading@, delta);
        let ghost wanted = fading@.map_values(|f: Fading| fade_step(f, delta));
        for i in 0..fading.len()
            invariant
                candidates == fade_candidates(fading@, delta),
                wanted == fading@.map_values(|f: Fading| fade_step(f, delta)),
                steps@ == wanted.take(i as int),
                removed@ == leaving(candidates.take(i as int)),
        {
            assert(candidates.take(i + 1).drop_last() == candidates.take(i as int));
            assert(wanted.take(i + 1) == wanted.take(i as int).push(wanted[i as int]));
            let alpha = fading[i].fade.alpha();
            let mut fade = fading[i].fade;
            fade.advance(delta);
            steps.push(FadeStep { entity: fading[i].entity, alpha, fade });
            if fade.spent {
                push_group(&mut removed, fading[i].entity, &fading[i].owned);
            }
        }
        assert(candidates.take(fading@.len() as int) == candidates);
        assert(wanted.take(fading@.len() as int) == wanted);
    }
    FadeOuts { steps, removed }
}

} // verus!
