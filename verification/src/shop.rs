//! The upgrade shop: what an upgrade costs, and what a purchase changes.

use crate::hud::Score;
use crate::clock::ClockCommand;
use crate::player::{Player, Upgrades};
use vstd::prelude::*;

verus! {

/// The points spent on upgrades so far.
#[derive(Clone, Copy, Debug, PartialEq, Eq, Structural)]
pub struct PointsSpent(pub u64);

impl Default for PointsSpent {
    fn default() -> (spent: PointsSpent)
        ensures
            spent == PointsSpent(0),
    {
        PointsSpent(0)
    }
}

/// Whether the shop is open.
#[derive(Clone, Copy, Debug, PartialEq, Eq, Structural)]
pub struct IsShopping(pub bool);

impl Default for IsShopping {
    fn default() -> (shopping: IsShopping)
        ensures
            shopping == IsShopping(false),
    {
        IsShopping(false)
    }
}

/// What is done to the shop overlay.
#[derive(Clone, Copy, Debug, PartialEq, Eq, Structural)]
pub enum ShopCommand {
    /// Build the overlay.
    SetupShop,
    /// Take the overlay down.
    DespawnShop,
}

/// What opening or closing the shop asks for.
#[derive(Clone, Copy, Debug, PartialEq, Eq, Structural)]
pub struct ShopToggle {
    pub overlay: ShopCommand,
    pub clock: ClockCommand,
}

/// Opens the shop when it is closed and closes it when it is open, once for
/// every press of the shop key. Opening the shop builds the overlay and
/// pauses the simulation; closing it takes the overlay down and lets the
/// simulation run.
pub fn enter_exit_shop(shopping: &mut IsShopping, toggle_just_pressed: bool) -> (toggle: Option<
    ShopToggle,
>)
    ensures
        final(shopping).0 == (old(shopping).0 != toggle_just_pressed),
        toggle == if !toggle_just_pressed {
            None
        } else if old(shopping).0 {
            Some(ShopToggle { overlay: ShopCommand::DespawnShop, clock: ClockCommand::Unpause })
        } else {
            Some(ShopToggle { overlay: ShopCommand::SetupShop, clock: ClockCommand::Pause })
        },
{
    if !toggle_just_pressed {
        None
    } else if shopping.0 {
        shopping.0 = false;
        Some(ShopToggle { overlay: ShopCommand::DespawnShop, clock: ClockCommand::Unpause })
    } else {
        shopping.0 = true;
        Some(ShopToggle { overlay: ShopCommand::SetupShop, clock: ClockCommand::Pause })
    }
}

/// The price of the upgrade from `level` to the next.
pub open spec fn price(level: u64) -> int {
    level * level * 3 + 10
}

/// The price of the upgrade from `level` to the next, or nothing where the
/// price is beyond `u64`.
pub fn get_price(level: u64) -> (cost: Option<u64>)
    ensures
        cost == if price(level) <= u64::MAX {
            Some(price(level) as u64)
        } else {
            None
        },
{
    let square = match level.checked_mul(level) {
        Some(square) => square,
        None => {
            return None;
        },
    };
    let triple = match square.checked_mul(3) {
        Some(triple) => triple,
        None => {
            return None;
        },
    };
    assert(triple == level * level * 3) by (nonlinear_arith)
        requires
            triple == square * 3,
            square == level * level,
    ;
    triple.checked_add(10)
}

/// Prices rise with every level.
pub proof fn lemma_price_rises(lower: u64, higher: u64)
    requires
        lower < higher,
    ensures
        price(lower) < price(higher),
{
    assert(lower * lower < higher * higher) by (nonlinear_arith)
        requires
            0 <= lower < higher,
    ;
    assert(lower * lower * 3 < higher * higher * 3) by (nonlinear_arith)
        requires
            lower * lower < higher * higher,
    ;
}

/// The three upgrades on offer.
#[derive(Clone, Copy, Debug, PartialEq, Eq, Structural)]
pub enum Upgrade {
    HookRange,
    HookStrength,
    DashStrength,
}

/// The upgrade keys that went down in one frame.
#[derive(Clone, Copy, Debug, PartialEq, Eq, Structural)]
pub struct UpgradeKeys {
    pub hook_range: bool,
    pub hook_strength: bool,
    pub dash_strength: bool,
}

impl UpgradeKeys {
    /// The upgrade asked for: the first of the three whose key went down.
    pub open spec fn chosen(self) -> Option<Upgrade> {
        if self.hook_range {
            Some(Upgrade::HookRange)
        } else if self.hook_strength {
            Some(Upgrade::HookStrength)
        } else if self.dash_strength {
            Some(Upgrade::DashStrength)
        } else {
            None
        }
    }
}

impl Upgrades {
    /// The level of one upgrade.
    pub open spec fn level(self, upgrade: Upgrade) -> u64 {
        match upgrade {
            Upgrade::HookRange => self.hook_range,
            Upgrade::HookStrength => self.hook_strength,
            Upgrade::DashStrength => self.dash_strength,
        }
    }

    /// These levels with one upgrade a level higher.
    pub open spec fn raised(self, upgrade: Upgrade) -> Upgrades {
        match upgrade {
            Upgrade::HookRange => Upgrades { hook_range: (self.hook_range + 1) as u64, ..self },
            Upgrade::HookStrength => Upgrades {
                hook_strength: (self.hook_strength + 1) as u64,
                ..self
            },
            Upgrade::DashStrength => Upgrades {
                dash_strength: (self.dash_strength + 1) as u64,
                ..self
            },
        }
    }
}

/// The points that can still be spent.
pub open spec fn points_left(score: Score, spent: PointsSpent) -> int {
    if spent.0 > score.current.total() {
        0
    } else {
        score.current.total() - spent.0
    }
}

/// Whether the next level of `upgrade` can be bought: the points left must
/// be more than its price.
pub open spec fn affordable(score: Score, spent: PointsSpent, upgrades: Upgrades, upgrade: Upgrade) -> bool {
    points_left(score, spent) > price(upgrades.level(upgrade))
}

/// What the shop shows for one upgrade.
#[derive(Clone, Copy, Debug, PartialEq, Eq, Structural)]
pub struct Offer {
    /// The level on offer, or nothing where it is beyond `u64`.
    pub next_level: Option<u64>,
    /// Its price, or nothing where it is beyond `u64`.
    pub price: Option<u64>,
}

/// What the shop shows.
#[derive(Clone, Copy, Debug, PartialEq, Eq, Structural)]
pub struct ShopText {
    pub hook_range: Offer,
    pub hook_strength: Offer,
    pub dash_strength: Offer,
}

/// The offer for the upgrade from `level` to the next.
pub open spec fn offer_at(level: u64) -> Offer {
    Offer {
        next_level: if level < u64::MAX {
            Some((level + 1) as u64)
        } else {
            None
        },
        price: if price(level) <= u64::MAX {
            Some(price(level) as u64)
        } else {
            None
        },
    }
}

fn offer(level: u64) -> (offer: Offer)
    ensures
        offer == offer_at(level),
{
    Offer { next_level: level.checked_add(1), price: get_price(level) }
}

/// The points spent and the levels after the upgrade asked for, if any, was
/// bought or turned down.
pub open spec fn after_purchase(
    score: Score,
    spent: PointsSpent,
    upgrades: Upgrades,
    chosen: Option<Upgrade>,
) -> (PointsSpent, Upgrades) {
    match chosen {
        Some(upgrade) => if affordable(score, spent, upgrades, upgrade) {
            (
                PointsSpent((spent.0 + price(upgrades.level(upgrade))) as u64),
                upgrades.raised(upgrade),
            )
        } else {
            (spent, upgrades)
        },
        None => (spent, upgrades),
    }
}

/// A purchase never takes the points spent beyond the points shown, and
/// never takes points back.
pub proof fn lemma_purchase_within_means(
    score: Score,
    spent: PointsSpent,
    upgrades: Upgrades,
    chosen: Option<Upgrade>,
)
    ensures
        after_purchase(score, spent, upgrades, chosen).0.0 >= spent.0,
        spent.0 <= score.current.total() ==> after_purchase(score, spent, upgrades, chosen).0.0
            <= score.current.total(),
        chosen matches Some(upgrade) ==> (affordable(score, spent, upgrades, upgrade) ==> {
            &&& after_purchase(score, spent, upgrades, chosen).0.0 == spent.0 + price(
                upgrades.level(upgrade),
            )
            &&& upgrades.level(upgrade) < u64::MAX
        }),
{
    if let Some(upgrade) = chosen {
        if affordable(score, spent, upgrades, upgrade) {
            let level = upgrades.level(upgrade);
            assert(level * level * 3 >= 0 && level < u64::MAX) by (nonlinear_arith)
                requires
                    level * level * 3 + 10 <= u64::MAX,
                    0 <= level <= u64::MAX,
            ;
        }
    }
}

/// Buys the next level of `upgrade` if the points left are more than its
/// price.
fn buy(score: &Score, points_spent: &mut PointsSpent, upgrades: &mut Upgrades, upgrade: Upgrade)
    ensures
        (*final(points_spent), *final(upgrades)) == after_purchase(
            *score,
            *old(points_spent),
            *old(upgrades),
            Some(upgrade),
        ),
{
    let left = score.current.total().saturating_sub(points_spent.0);
    let level = match upgrade {
        Upgrade::HookRange => upgrades.hook_range,
        Upgrade::HookStrength => upgrades.hook_strength,
        Upgrade::DashStrength => upgrades.dash_strength,
    };
    if let Some(cost) = get_price(level) {
        if left > cost {
            proof {
                lemma_purchase_within_means(*score, *points_spent, *upgrades, Some(upgrade));
            }
            points_spent.0 = points_spent.0 + cost;
            match upgrade {
                Upgrade::HookRange => {
                    upgrades.hook_range = level + 1;
                },
                Upgrade::HookStrength => {
                    upgrades.hook_strength = level + 1;
                },
                Upgrade::DashStrength => {
                    upgrades.dash_strength = level + 1;
                },
            }
        }
    }
}

/// One frame of the shop.
///
/// While the shop is open it shows, for each upgrade, the level on offer and
/// its price, as they stand before this frame's purchase. The first upgrade
/// whose key went down is bought if the points left, those shown less those
/// spent, are more than its price: the price is added to the points spent
/// and the upgrade goes up one level. There is no way back. While the shop
/// is closed, and without a player, nothing is shown and nothing is bought.
pub fn do_upgrades(
    keys: UpgradeKeys,
    is_shopping: &IsShopping,
    points: &Score,
    points_spent: &mut PointsSpent,
    player: Option<&mut Player>,
) -> (text: Option<ShopText>)
    ensures
        !is_shopping.0 || player is None ==> text is None && *final(points_spent) == *old(
            points_spent,
        ),
        !is_shopping.0 ==> (player matches Some(player) ==> *final(player) == *player),
        is_shopping.0 ==> (player matches Some(player) ==> {
            &&& text == Some(
                ShopText {
                    hook_range: offer_at(player.upgrades.hook_range),
                    hook_strength: offer_at(player.upgrades.hook_strength),
                    dash_strength: offer_at(player.upgrades.dash_strength),
                },
            )
            &&& (*final(points_spent), final(player).upgrades) == after_purchase(
                *points,
                *old(points_spent),
                player.upgrades,
                keys.chosen(),
            )
            &&& final(player).hooked_onto == player.hooked_onto
            &&& final(player).dash_available == player.dash_available
        }),
        final(points_spent).0 >= old(points_spent).0,
        old(points_spent).0 <= points.current.total() ==> final(points_spent).0
            <= points.current.total(),
{
    if !is_shopping.0 {
        return None;
    }
    let player = match player {
        Some(player) => player,
        None => {
            return None;
        },
    };
    proof {
        lemma_purchase_within_means(*points, *points_spent, player.upgrades, keys.chosen());
    }
    let text = ShopText {
        hook_range: offer(player.upgrades.hook_range),
        hook_strength: offer(player.upgrades.hook_strength),
        dash_strength: offer(player.upgrades.dash_strength),
    };
    if keys.hook_range {
        buy(points, points_spent, &mut player.upgrades, Upgrade::HookRange);
    } else if keys.hook_strength {
        buy(points, points_spent, &mut player.upgrades, Upgrade::HookStrength);
    } else if keys.dash_strength {
        buy(points, points_spent, &mut player.upgrades, Upgrade::DashStrength);
    }
    Some(text)
}

} // verus!
