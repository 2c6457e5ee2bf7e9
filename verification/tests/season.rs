use fs_feeds::FeedError;
use fs_feeds::SeasonPeriod;

#[test]
fn early_spring_renders_with_space() {
    assert_eq!(SeasonPeriod::EarlySpring.render(), "Early Spring");
}

#[test]
fn late_winter_renders_with_space() {
    assert_eq!(SeasonPeriod::LateWinter.render(), "Late Winter");
}

#[test]
fn mid_summer_token_decodes() {
    assert_eq!(SeasonPeriod::from_token("MID_SUMMER"), Ok(SeasonPeriod::MidSummer));
}

#[test]
fn unknown_token_is_a_hard_failure() {
    assert_eq!(SeasonPeriod::from_token("FOO"), Err(FeedError::UnknownPeriodToken));
}

#[test]
fn empty_token_is_a_hard_failure() {
    assert_eq!(SeasonPeriod::from_token(""), Err(FeedError::UnknownPeriodToken));
}

#[test]
fn lowercase_token_is_not_recognized() {
    assert_eq!(SeasonPeriod::from_token("mid_summer"), Err(FeedError::UnknownPeriodToken));
}

#[test]
fn default_period_is_early_spring() {
    assert_eq!(SeasonPeriod::default(), SeasonPeriod::EarlySpring);
}

#[test]
fn every_token_round_trips() {
    let all = [
        SeasonPeriod::EarlySpring,
        SeasonPeriod::MidSpring,
        SeasonPeriod::LateSpring,
        SeasonPeriod::EarlySummer,
        SeasonPeriod::MidSummer,
        SeasonPeriod::LateSummer,
        SeasonPeriod::EarlyAutumn,
        SeasonPeriod::MidAutumn,
        SeasonPeriod::LateAutumn,
        SeasonPeriod::EarlyWinter,
        SeasonPeriod::MidWinter,
        SeasonPeriod::LateWinter,
    ];
    for p in all {
        assert_eq!(SeasonPeriod::from_token(&p.token()), Ok(p));
    }
}

#[test]
fn tokens_are_upper_snake() {
    assert_eq!(SeasonPeriod::EarlySpring.token(), "EARLY_SPRING");
    assert_eq!(SeasonPeriod::LateWinter.token(), "LATE_WINTER");
}

#[test]
fn chronological_indexes_follow_the_cycle() {
    assert_eq!(SeasonPeriod::EarlySpring.chronological_index(), 0);
    assert_eq!(SeasonPeriod::MidSummer.chronological_index(), 4);
    assert_eq!(SeasonPeriod::LateWinter.chronological_index(), 11);
    assert!(
        SeasonPeriod::LateSpring.chronological_index()
            < SeasonPeriod::EarlySummer.chronological_index()
    );
}
