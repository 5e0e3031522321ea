use grapple_climb::hud::{Score, ScoreData};
use grapple_climb::clock::ClockCommand;
use grapple_climb::player::{Player, Upgrades};
use grapple_climb::shop::{
    do_upgrades, enter_exit_shop, get_price, IsShopping, Offer, PointsSpent, ShopCommand, ShopText,
    ShopToggle, UpgradeKeys,
};

fn points(height: u64, destruction: u64) -> Score {
    Score { current: ScoreData { height, destruction }, ..Score::default() }
}

fn key(hook_range: bool, hook_strength: bool, dash_strength: bool) -> UpgradeKeys {
    UpgradeKeys { hook_range, hook_strength, dash_strength }
}

fn open() -> IsShopping {
    IsShopping(true)
}

#[test]
fn prices_are_three_times_the_level_squared_plus_ten() {
    assert_eq!(get_price(0), Some(10));
    assert_eq!(get_price(1), Some(13));
    assert_eq!(get_price(2), Some(22));
    assert_eq!(get_price(3), Some(37));
    assert_eq!(get_price(10), Some(310));
    assert_eq!(get_price(1_000_000), Some(3_000_000_000_010));
}

#[test]
fn prices_beyond_the_range_are_not_quoted() {
    // 3 * 2_479_700_524^2 + 10 is the last price below 2^64
    assert_eq!(get_price(2_479_700_524), Some(18_446_744_066_177_623_738));
    assert_eq!(get_price(2_479_700_525), None);
    assert_eq!(get_price(1 << 32), None);
    assert_eq!(get_price(u64::MAX), None);
}

#[test]
fn prices_rise_with_the_level() {
    let mut last = 0;
    for level in 0..2_000u64 {
        let price = get_price(level).unwrap();
        assert!(price > last);
        last = price;
    }
}

#[test]
fn shop_opens_and_closes_on_its_key() {
    let mut shopping = IsShopping::default();
    assert_eq!(shopping, IsShopping(false));
    assert_eq!(enter_exit_shop(&mut shopping, false), None);
    assert_eq!(shopping, IsShopping(false));
    assert_eq!(
        enter_exit_shop(&mut shopping, true),
        Some(ShopToggle { overlay: ShopCommand::SetupShop, clock: ClockCommand::Pause })
    );
    assert_eq!(shopping, IsShopping(true));
    assert_eq!(enter_exit_shop(&mut shopping, false), None);
    assert_eq!(shopping, IsShopping(true));
    assert_eq!(
        enter_exit_shop(&mut shopping, true),
        Some(ShopToggle { overlay: ShopCommand::DespawnShop, clock: ClockCommand::Unpause })
    );
    assert_eq!(shopping, IsShopping(false));
}

#[test]
fn an_upgrade_is_bought_when_more_points_are_left_than_it_costs() {
    let mut player = Player::new();
    let mut spent = PointsSpent::default();
    // ten points left do not buy what costs ten
    do_upgrades(key(true, false, false), &open(), &points(10, 0), &mut spent, Some(&mut player));
    assert_eq!(spent, PointsSpent(0));
    assert_eq!(player, Player::new());
    // eleven do
    do_upgrades(key(true, false, false), &open(), &points(8, 3), &mut spent, Some(&mut player));
    assert_eq!(spent, PointsSpent(10));
    assert_eq!(player.upgrades, Upgrades { hook_range: 1, hook_strength: 0, dash_strength: 0 });
    // the next level costs 13: 24 shown less 10 spent leave 14
    do_upgrades(key(true, false, false), &open(), &points(20, 3), &mut spent, Some(&mut player));
    assert_eq!(spent, PointsSpent(10));
    do_upgrades(key(true, false, false), &open(), &points(20, 4), &mut spent, Some(&mut player));
    assert_eq!(spent, PointsSpent(23));
    assert_eq!(player.upgrades.hook_range, 2);
}

#[test]
fn each_upgrade_has_its_own_level_and_price() {
    let mut player = Player::new();
    player.upgrades = Upgrades { hook_range: 3, hook_strength: 1, dash_strength: 0 };
    let mut spent = PointsSpent(5);
    let score = points(30, 0);
    // 25 points left: the hook range at 37 is out of reach
    do_upgrades(key(true, false, false), &open(), &score, &mut spent, Some(&mut player));
    assert_eq!(spent, PointsSpent(5));
    do_upgrades(key(false, true, false), &open(), &score, &mut spent, Some(&mut player));
    assert_eq!(spent, PointsSpent(18));
    assert_eq!(player.upgrades, Upgrades { hook_range: 3, hook_strength: 2, dash_strength: 0 });
    do_upgrades(key(false, false, true), &open(), &score, &mut spent, Some(&mut player));
    assert_eq!(spent, PointsSpent(28));
    assert_eq!(player.upgrades, Upgrades { hook_range: 3, hook_strength: 2, dash_strength: 1 });
    // two points left buy nothing
    do_upgrades(key(false, false, true), &open(), &score, &mut spent, Some(&mut player));
    assert_eq!(spent, PointsSpent(28));
}

#[test]
fn the_first_key_counts_when_several_go_down() {
    let mut player = Player::new();
    let mut spent = PointsSpent(0);
    do_upgrades(key(true, true, true), &open(), &points(100, 0), &mut spent, Some(&mut player));
    assert_eq!(player.upgrades, Upgrades { hook_range: 1, hook_strength: 0, dash_strength: 0 });
    assert_eq!(spent, PointsSpent(10));
    do_upgrades(key(false, true, true), &open(), &points(100, 0), &mut spent, Some(&mut player));
    assert_eq!(player.upgrades, Upgrades { hook_range: 1, hook_strength: 1, dash_strength: 0 });
    // a first key that cannot be served does not pass the turn on
    let mut poor = Player::new();
    poor.upgrades.hook_range = 50;
    let mut spent = PointsSpent(0);
    do_upgrades(key(true, true, true), &open(), &points(100, 0), &mut spent, Some(&mut poor));
    assert_eq!(spent, PointsSpent(0));
    assert_eq!(poor.upgrades, Upgrades { hook_range: 50, hook_strength: 0, dash_strength: 0 });
}

#[test]
fn the_shop_shows_the_offers_as_they_stood() {
    let mut player = Player::new();
    player.upgrades = Upgrades { hook_range: 0, hook_strength: 2, dash_strength: u64::MAX };
    let mut spent = PointsSpent(0);
    let text =
        do_upgrades(key(true, false, false), &open(), &points(100, 0), &mut spent, Some(&mut player));
    assert_eq!(
        text,
        Some(ShopText {
            hook_range: Offer { next_level: Some(1), price: Some(10) },
            hook_strength: Offer { next_level: Some(3), price: Some(22) },
            dash_strength: Offer { next_level: None, price: None },
        })
    );
    assert_eq!(player.upgrades.hook_range, 1);
}

#[test]
fn a_closed_shop_sells_nothing() {
    let mut player = Player::new();
    let mut spent = PointsSpent(0);
    let closed = IsShopping(false);
    let text =
        do_upgrades(key(true, true, true), &closed, &points(100, 0), &mut spent, Some(&mut player));
    assert_eq!(text, None);
    assert_eq!(spent, PointsSpent(0));
    assert_eq!(player, Player::new());
    assert_eq!(do_upgrades(key(true, true, true), &open(), &points(100, 0), &mut spent, None), None);
    assert_eq!(spent, PointsSpent(0));
}

#[test]
fn buying_keeps_the_hook_and_the_dash() {
    let mut player = Player::new();
    player.hooked_onto = Some(grapple_climb::entity::Entity(4));
    player.dash_available = false;
    let mut spent = PointsSpent(0);
    do_upgrades(key(false, false, true), &open(), &points(100, 0), &mut spent, Some(&mut player));
    assert_eq!(player.hooked_onto, Some(grapple_climb::entity::Entity(4)));
    assert!(!player.dash_available);
    assert_eq!(player.upgrades.dash_strength, 1);
}

#[test]
fn points_spent_never_exceed_the_points_shown() {
    let mut player = Player::new();
    let mut spent = PointsSpent(0);
    let score = points(700, 300);
    for round in 0..200u32 {
        let keys = key(round % 3 == 0, round % 3 == 1, round % 3 == 2);
        let before = spent;
        do_upgrades(keys, &open(), &score, &mut spent, Some(&mut player));
        assert!(spent.0 >= before.0);
        assert!(spent.0 <= score.current.total());
    }
    // six levels of each upgrade cost 225 apiece, two more at 118 make 911; the next one,
    // again at 118, needs more than the 89 that are left
    assert_eq!(player.upgrades, Upgrades { hook_range: 7, hook_strength: 7, dash_strength: 6 });
    assert_eq!(spent, PointsSpent(911));
}

#[test]
fn points_spent_beyond_the_points_shown_buy_nothing() {
    let mut player = Player::new();
    let mut spent = PointsSpent(500);
    do_upgrades(key(true, false, false), &open(), &points(100, 0), &mut spent, Some(&mut player));
    assert_eq!(spent, PointsSpent(500));
    assert_eq!(player, Player::new());
}

#[test]
fn a_full_score_still_buys() {
    let mut player = Player::new();
    let mut spent = PointsSpent(u64::MAX - 11);
    let score = points(u64::MAX, u64::MAX);
    do_upgrades(key(true, false, false), &open(), &score, &mut spent, Some(&mut player));
    assert_eq!(spent, PointsSpent(u64::MAX - 1));
    assert_eq!(player.upgrades.hook_range, 1);
    do_upgrades(key(true, false, false), &open(), &score, &mut spent, Some(&mut player));
    assert_eq!(spent, PointsSpent(u64::MAX - 1));
}
