use fs_feeds::FeedError;
use fs_feeds::FillType;
use fs_feeds::FillTypes;
use fs_feeds::History;
use fs_feeds::Period;
use fs_feeds::SeasonPeriod;
use fs_feeds::calculate_economy_price;

#[test]
fn price_of_100_is_316() {
    assert_eq!(calculate_economy_price(100), Ok(316));
}

#[test]
fn price_of_1_rounds_down_to_3() {
    assert_eq!(calculate_economy_price(1), Ok(3));
}

#[test]
fn price_of_50_is_158() {
    assert_eq!(calculate_economy_price(50), Ok(158));
}

#[test]
fn price_of_zero_is_zero() {
    assert_eq!(calculate_economy_price(0), Ok(0));
}

#[test]
fn price_rounds_to_nearest() {
    // 4 * 3.16 = 12.64 rounds up; 3 * 3.16 = 9.48 rounds down.
    assert_eq!(calculate_economy_price(4), Ok(13));
    assert_eq!(calculate_economy_price(3), Ok(9));
}

#[test]
fn negative_price_rounds_away_from_zero_symmetrically() {
    assert_eq!(calculate_economy_price(-1), Ok(-3));
    assert_eq!(calculate_economy_price(-100), Ok(-316));
    assert_eq!(calculate_economy_price(-4), Ok(-13));
}

#[test]
fn price_overflow_is_reported_not_wrapped() {
    assert_eq!(calculate_economy_price(i32::MAX), Err(FeedError::NumericOverflow));
    assert_eq!(calculate_economy_price(i32::MIN), Err(FeedError::NumericOverflow));
}

#[test]
fn large_bases_near_the_width_boundary() {
    // 679570433 * 3.16 rounds to 2147442568, still inside the width.
    assert_eq!(calculate_economy_price(679_570_433), Ok(2_147_442_568));
    // i32::MAX / 3 scaled by 3.16 no longer fits.
    assert_eq!(calculate_economy_price(i32::MAX / 3), Err(FeedError::NumericOverflow));
}

#[test]
fn history_keeps_document_order() {
    let history = History {
        periods: vec![
            Period { period: SeasonPeriod::LateWinter, value: 7 },
            Period { period: SeasonPeriod::EarlySpring, value: 3 },
        ],
    };
    assert_eq!(history.periods[0].period, SeasonPeriod::LateWinter);
    assert_eq!(history.periods[1].period, SeasonPeriod::EarlySpring);
}

#[test]
fn fill_type_optionals_stay_absent() {
    let ft = FillType { fill_type: "WHEAT".to_string(), total_amount: None, history: None };
    assert!(ft.total_amount.is_none());
    assert!(ft.history.is_none());
    let fts = FillTypes { fill_type: vec![ft] };
    assert_eq!(fts.fill_type.len(), 1);
}
