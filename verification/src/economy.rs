//! What holds of score and spending over a whole game.
//!
//! The score is raised by the player's altitude, revealed by the reveal
//! timer and spent in the shop. Each of these is one step here; the laws
//! below hold along every sequence of steps.

use crate::hud::Score;
use crate::player::{height_points, Upgrades};
use crate::shop::{after_purchase, lemma_purchase_within_means, PointsSpent, UpgradeKeys};
use vstd::prelude::*;

verus! {

/// The score, the points spent and the upgrades bought with them.
pub struct Economy {
    pub score: Score,
    pub spent: PointsSpent,
    pub upgrades: Upgrades,
}

/// One thing that happens to the economy.
pub enum Step {
    /// The player is seen at an altitude.
    Altitude(i64),
    /// Time passes on the reveal timer.
    Reveal(u64),
    /// Upgrade keys go down while the shop is open.
    Purchase(UpgradeKeys),
}

impl Economy {
    /// The points spent do not exceed the points shown.
    pub open spec fn within_means(self) -> bool {
        self.spent.0 <= self.score.current.total()
    }

    /// The economy after one step.
    pub open spec fn after(self, step: Step) -> Economy {
        match step {
            Step::Altitude(y) => Economy { score: self.score.raised_to(height_points(y)), ..self },
            Step::Reveal(delta) => Economy { score: self.score.after(delta), ..self },
            Step::Purchase(keys) => Economy {
                score: self.score,
                spent: after_purchase(self.score, self.spent, self.upgrades, keys.chosen()).0,
                upgrades: after_purchase(self.score, self.spent, self.upgrades, keys.chosen()).1,
            },
        }
    }

    /// The economy after each of `steps` in turn.
    pub open spec fn after_all(self, steps: Seq<Step>) -> Economy
        decreases steps.len(),
    {
        if steps.len() == 0 {
            self
        } else {
            self.after_all(steps.drop_last()).after(steps.last())
        }
    }
}

/// No step takes shown points away, takes spent points back, or takes the
/// points spent beyond the points shown.
pub proof fn lemma_step(economy: Economy, step: Step)
    ensures
        economy.after(step).score.current.height >= economy.score.current.height,
        economy.after(step).score.current.destruction >= economy.score.current.destruction,
        economy.after(step).score.current.total() >= economy.score.current.total(),
        economy.after(step).spent.0 >= economy.spent.0,
        economy.within_means() ==> economy.after(step).within_means(),
{
    if let Step::Purchase(keys) = step {
        lemma_purchase_within_means(economy.score, economy.spent, economy.upgrades, keys.chosen());
    }
}

/// The height points shown never go down: not when the player falls, not
/// when points are revealed, not when points are spent. The same holds of
/// the destruction points and of the total.
pub proof fn lemma_score_never_falls(economy: Economy, steps: Seq<Step>, earlier: int, later: int)
    requires
        0 <= earlier <= later <= steps.len(),
    ensures
        economy.after_all(steps.take(earlier)).score.current.height <= economy.after_all(
            steps.take(later),
        ).score.current.height,
        economy.after_all(steps.take(earlier)).score.current.destruction <= economy.after_all(
            steps.take(later),
        ).score.current.destruction,
        economy.after_all(steps.take(earlier)).score.current.total() <= economy.after_all(
            steps.take(later),
        ).score.current.total(),
        economy.after_all(steps.take(earlier)).spent.0 <= economy.after_all(
            steps.take(later),
        ).spent.0,
    decreases later - earlier,
{
    if earlier < later {
        lemma_score_never_falls(economy, steps, earlier, later - 1);
        assert(steps.take(later).drop_last() == steps.take(later - 1));
        lemma_step(economy.after_all(steps.take(later - 1)), steps.take(later).last());
    }
}

/// Whatever is bought, in whatever order, the points spent never exceed the
/// points shown.
pub proof fn lemma_spending_within_means(economy: Economy, steps: Seq<Step>)
    requires
        economy.within_means(),
    ensures
        economy.after_all(steps).within_means(),
    decreases steps.len(),
{
    if steps.len() > 0 {
        lemma_spending_within_means(economy, steps.drop_last());
        lemma_step(economy.after_all(steps.drop_last()), steps.last());
    }
}

} // verus!
