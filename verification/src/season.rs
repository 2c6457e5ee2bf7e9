//! The season-period codec: a closed, cyclical twelve-value enumeration with
//! a lossless wire-token mapping and a separate human-readable rendering.

use vstd::prelude::*;
use crate::error::FeedError;
use crate::strutil::str_equal;

verus! {

/// One of the twelve fixed sub-seasons used to bucket historical economy
/// data: {Early, Mid, Late} x {Spring, Summer, Autumn, Winter}, in canonical
/// chronological order Spring -> Summer -> Autumn -> Winter and
/// Early -> Mid -> Late within each season.
#[derive(Clone, Copy, Debug, PartialEq, Eq, Structural)]
pub enum SeasonPeriod {
    EarlySpring,
    MidSpring,
    LateSpring,
    EarlySummer,
    MidSummer,
    LateSummer,
    EarlyAutumn,
    MidAutumn,
    LateAutumn,
    EarlyWinter,
    MidWinter,
    LateWinter,
}

impl Default for SeasonPeriod {
    /// The default period is the first of the cycle.
    fn default() -> (r: Self)
        ensures
            r == SeasonPeriod::EarlySpring,
    {
        SeasonPeriod::EarlySpring
    }
}

/// The fixed upper-snake wire token of each period.
pub open spec fn token_spec(p: SeasonPeriod) -> Seq<char> {
    match p {
        SeasonPeriod::EarlySpring => "EARLY_SPRING"@,
        SeasonPeriod::MidSpring => "MID_SPRING"@,
        SeasonPeriod::LateSpring => "LATE_SPRING"@,
        SeasonPeriod::EarlySummer => "EARLY_SUMMER"@,
        SeasonPeriod::MidSummer => "MID_SUMMER"@,
        SeasonPeriod::LateSummer => "LATE_SUMMER"@,
        SeasonPeriod::EarlyAutumn => "EARLY_AUTUMN"@,
        SeasonPeriod::MidAutumn => "MID_AUTUMN"@,
        SeasonPeriod::LateAutumn => "LATE_AUTUMN"@,
        SeasonPeriod::EarlyWinter => "EARLY_WINTER"@,
        SeasonPeriod::MidWinter => "MID_WINTER"@,
        SeasonPeriod::LateWinter => "LATE_WINTER"@,
    }
}

/// The period a wire token decodes to, if it is one of the twelve.
pub open spec fn parse_token_spec(s: Seq<char>) -> Option<SeasonPeriod> {
    if s == token_spec(SeasonPeriod::EarlySpring) {
        Some(SeasonPeriod::EarlySpring)
    } else if s == token_spec(SeasonPeriod::MidSpring) {
        Some(SeasonPeriod::MidSpring)
    } else if s == token_spec(SeasonPeriod::LateSpring) {
        Some(SeasonPeriod::LateSpring)
    } else if s == token_spec(SeasonPeriod::EarlySummer) {
        Some(SeasonPeriod::EarlySummer)
    } else if s == token_spec(SeasonPeriod::MidSummer) {
        Some(SeasonPeriod::MidSummer)
    } else if s == token_spec(SeasonPeriod::LateSummer) {
        Some(SeasonPeriod::LateSummer)
    } else if s == token_spec(SeasonPeriod::EarlyAutumn) {
        Some(SeasonPeriod::EarlyAutumn)
    } else if s == token_spec(SeasonPeriod::MidAutumn) {
        Some(SeasonPeriod::MidAutumn)
    } else if s == token_spec(SeasonPeriod::LateAutumn) {
        Some(SeasonPeriod::LateAutumn)
    } else if s == token_spec(SeasonPeriod::EarlyWinter) {
        Some(SeasonPeriod::EarlyWinter)
    } else if s == token_spec(SeasonPeriod::MidWinter) {
        Some(SeasonPeriod::MidWinter)
    } else if s == token_spec(SeasonPeriod::LateWinter) {
        Some(SeasonPeriod::LateWinter)
    } else {
        None
    }
}

/// The human-readable rendering of each period, `"<Period> <Season>"`. This
/// rendering is for display only and takes no part in wire round-tripping.
pub open spec fn render_spec(p: SeasonPeriod) -> Seq<char> {
    match p {
        SeasonPeriod::EarlySpring => "Early Spring"@,
        SeasonPeriod::MidSpring => "Mid Spring"@,
        SeasonPeriod::LateSpring => "Late Spring"@,
        SeasonPeriod::EarlySummer => "Early Summer"@,
        SeasonPeriod::MidSummer => "Mid Summer"@,
        SeasonPeriod::LateSummer => "Late Summer"@,
        SeasonPeriod::EarlyAutumn => "Early Autumn"@,
        SeasonPeriod::MidAutumn => "Mid Autumn"@,
        SeasonPeriod::LateAutumn => "Late Autumn"@,
        SeasonPeriod::EarlyWinter => "Early Winter"@,
        SeasonPeriod::MidWinter => "Mid Winter"@,
        SeasonPeriod::LateWinter => "Late Winter"@,
    }
}

/// The position of a period in the canonical chronological cycle, starting
/// from zero at early spring.
pub open spec fn chronological_index_spec(p: SeasonPeriod) -> int {
    match p {
        SeasonPeriod::EarlySpring => 0,
        SeasonPeriod::MidSpring => 1,
        SeasonPeriod::LateSpring => 2,
        SeasonPeriod::EarlySummer => 3,
        SeasonPeriod::MidSummer => 4,
        SeasonPeriod::LateSummer => 5,
        SeasonPeriod::EarlyAutumn => 6,
        SeasonPeriod::MidAutumn => 7,
        SeasonPeriod::LateAutumn => 8,
        SeasonPeriod::EarlyWinter => 9,
        SeasonPeriod::MidWinter => 10,
        SeasonPeriod::LateWinter => 11,
    }
}

impl SeasonPeriod {
    /// Encodes this period as its wire token.
    pub fn token(&self) -> (r: String)
        ensures
            r@ == token_spec(*self),
    {
        match self {
            SeasonPeriod::EarlySpring => "EARLY_SPRING".to_owned(),
            SeasonPeriod::MidSpring => "MID_SPRING".to_owned(),
            SeasonPeriod::LateSpring => "LATE_SPRING".to_owned(),
            SeasonPeriod::EarlySummer => "EARLY_SUMMER".to_owned(),
            SeasonPeriod::MidSummer => "MID_SUMMER".to_owned(),
            SeasonPeriod::LateSummer => "LATE_SUMMER".to_owned(),
            SeasonPeriod::EarlyAutumn => "EARLY_AUTUMN".to_owned(),
            SeasonPeriod::MidAutumn => "MID_AUTUMN".to_owned(),
            SeasonPeriod::LateAutumn => "LATE_AUTUMN".to_owned(),
            SeasonPeriod::EarlyWinter => "EARLY_WINTER".to_owned(),
            SeasonPeriod::MidWinter => "MID_WINTER".to_owned(),
            SeasonPeriod::LateWinter => "LATE_WINTER".to_owned(),
        }
    }

    /// Decodes a wire token. An unrecognized token is a hard failure, never
    /// silently mapped to the default period.
    pub fn from_token(token: &str) -> (r: Result<SeasonPeriod, FeedError>)
        ensures
            r matches Ok(p) ==> parse_token_spec(token@) == Some(p),
            r is Err <==> parse_token_spec(token@) is None,
            r is Err ==> r == Err::<SeasonPeriod, FeedError>(FeedError::UnknownPeriodToken),
    {
        if str_equal(token, "EARLY_SPRING") {
            Ok(SeasonPeriod::EarlySpring)
        } else if str_equal(token, "MID_SPRING") {
            Ok(SeasonPeriod::MidSpring)
        } else if str_equal(token, "LATE_SPRING") {
            Ok(SeasonPeriod::LateSpring)
        } else if str_equal(token, "EARLY_SUMMER") {
            Ok(SeasonPeriod::EarlySummer)
        } else if str_equal(token, "MID_SUMMER") {
            Ok(SeasonPeriod::MidSummer)
        } else if str_equal(token, "LATE_SUMMER") {
            Ok(SeasonPeriod::LateSummer)
        } else if str_equal(token, "EARLY_AUTUMN") {
            Ok(SeasonPeriod::EarlyAutumn)
        } else if str_equal(token, "MID_AUTUMN") {
            Ok(SeasonPeriod::MidAutumn)
        } else if str_equal(token, "LATE_AUTUMN") {
            Ok(SeasonPeriod::LateAutumn)
        } else if str_equal(token, "EARLY_WINTER") {
            Ok(SeasonPeriod::EarlyWinter)
        } else if str_equal(token, "MID_WINTER") {
            Ok(SeasonPeriod::MidWinter)
        } else if str_equal(token, "LATE_WINTER") {
            Ok(SeasonPeriod::LateWinter)
        } else {
            Err(FeedError::UnknownPeriodToken)
        }
    }

    /// Renders this period for display, e.g. `"Early Spring"`.
    pub fn render(&self) -> (r: String)
        ensures
            r@ == render_spec(*self),
    {
        match self {
            SeasonPeriod::EarlySpring => "Early Spring".to_owned(),
            SeasonPeriod::MidSpring => "Mid Spring".to_owned(),
            SeasonPeriod::LateSpring => "Late Spring".to_owned(),
            SeasonPeriod::EarlySummer => "Early Summer".to_owned(),
            SeasonPeriod::MidSummer => "Mid Summer".to_owned(),
            SeasonPeriod::LateSummer => "Late Summer".to_owned(),
            SeasonPeriod::EarlyAutumn => "Early Autumn".to_owned(),
            SeasonPeriod::MidAutumn => "Mid Autumn".to_owned(),
            SeasonPeriod::LateAutumn => "Late Autumn".to_owned(),
            SeasonPeriod::EarlyWinter => "Early Winter".to_owned(),
            SeasonPeriod::MidWinter => "Mid Winter".to_owned(),
            SeasonPeriod::LateWinter => "Late Winter".to_owned(),
        }
    }

    /// This period's position in the canonical chronological cycle; sorting
    /// by this index respects the canonical order even though stored history
    /// sequences keep document order.
    pub fn chronological_index(&self) -> (i: u8)
        ensures
            i as int == chronological_index_spec(*self),
    {
        match self {
            SeasonPeriod::EarlySpring => 0,
            SeasonPeriod::MidSpring => 1,
            SeasonPeriod::LateSpring => 2,
            SeasonPeriod::EarlySummer => 3,
            SeasonPeriod::MidSummer => 4,
            SeasonPeriod::LateSummer => 5,
            SeasonPeriod::EarlyAutumn => 6,
            SeasonPeriod::MidAutumn => 7,
            SeasonPeriod::LateAutumn => 8,
            SeasonPeriod::EarlyWinter => 9,
            SeasonPeriod::MidWinter => 10,
            SeasonPeriod::LateWinter => 11,
        }
    }
}

/// Law: the wire mapping is lossless. Encoding any period and decoding the
/// token yields the same period back.
pub proof fn lemma_token_round_trip(p: SeasonPeriod)
    ensures
        parse_token_spec(token_spec(p)) == Some(p),
{
    reveal_strlit("EARLY_SPRING");
    reveal_strlit("MID_SPRING");
    reveal_strlit("LATE_SPRING");
    reveal_strlit("EARLY_SUMMER");
    reveal_strlit("MID_SUMMER");
    reveal_strlit("LATE_SUMMER");
    reveal_strlit("EARLY_AUTUMN");
    reveal_strlit("MID_AUTUMN");
    reveal_strlit("LATE_AUTUMN");
    reveal_strlit("EARLY_WINTER");
    reveal_strlit("MID_WINTER");
    reveal_strlit("LATE_WINTER");
    assert("EARLY_SPRING"@.len() == 12 && "EARLY_SPRING"@[6] == 'S' && "EARLY_SPRING"@[7] == 'P');
    assert("EARLY_SUMMER"@.len() == 12 && "EARLY_SUMMER"@[6] == 'S' && "EARLY_SUMMER"@[7] == 'U');
    assert("EARLY_AUTUMN"@.len() == 12 && "EARLY_AUTUMN"@[6] == 'A');
    assert("EARLY_WINTER"@.len() == 12 && "EARLY_WINTER"@[6] == 'W');
    assert("MID_SPRING"@.len() == 10 && "MID_SPRING"@[4] == 'S' && "MID_SPRING"@[5] == 'P');
    assert("MID_SUMMER"@.len() == 10 && "MID_SUMMER"@[4] == 'S' && "MID_SUMMER"@[5] == 'U');
    assert("MID_AUTUMN"@.len() == 10 && "MID_AUTUMN"@[4] == 'A');
    assert("MID_WINTER"@.len() == 10 && "MID_WINTER"@[4] == 'W');
    assert("LATE_SPRING"@.len() == 11 && "LATE_SPRING"@[5] == 'S' && "LATE_SPRING"@[6] == 'P');
    assert("LATE_SUMMER"@.len() == 11 && "LATE_SUMMER"@[5] == 'S' && "LATE_SUMMER"@[6] == 'U');
    assert("LATE_AUTUMN"@.len() == 11 && "LATE_AUTUMN"@[5] == 'A');
    assert("LATE_WINTER"@.len() == 11 && "LATE_WINTER"@[5] == 'W');
    match p {
        SeasonPeriod::EarlySpring => {
            assert(parse_token_spec(token_spec(p)) == Some(p));
        },
        SeasonPeriod::MidSpring => {
            assert(parse_token_spec(token_spec(p)) == Some(p));
        },
        SeasonPeriod::LateSpring => {
            assert(parse_token_spec(token_spec(p)) == Some(p));
        },
        SeasonPeriod::EarlySummer => {
            assert(parse_token_spec(token_spec(p)) == Some(p));
        },
        SeasonPeriod::MidSummer => {
            assert(parse_token_spec(token_spec(p)) == Some(p));
        },
        SeasonPeriod::LateSummer => {
            assert(parse_token_spec(token_spec(p)) == Some(p));
        },
        SeasonPeriod::EarlyAutumn => {
            assert(parse_token_spec(token_spec(p)) == Some(p));
        },
        SeasonPeriod::MidAutumn => {
            assert(parse_token_spec(token_spec(p)) == Some(p));
        },
        SeasonPeriod::LateAutumn => {
            assert(parse_token_spec(token_spec(p)) == Some(p));
        },
        SeasonPeriod::EarlyWinter => {
            assert(parse_token_spec(token_spec(p)) == Some(p));
        },
        SeasonPeriod::MidWinter => {
            assert(parse_token_spec(token_spec(p)) == Some(p));
        },
        SeasonPeriod::LateWinter => {
            assert(parse_token_spec(token_spec(p)) == Some(p));
        },
    }
}

/// Law: the chronological index identifies a period. Sorting by it can never
/// conflate two distinct periods, so an order built on it respects the
/// canonical cycle.
pub proof fn lemma_chronological_index_injective(p1: SeasonPeriod, p2: SeasonPeriod)
    requires
        chronological_index_spec(p1) == chronological_index_spec(p2),
    ensures
        p1 == p2,
{
}

/// Law: decoding is the inverse of encoding. A token that decodes to a
/// period is exactly that period's token, so distinct periods have distinct
/// tokens.
pub proof fn lemma_token_injective(s: Seq<char>, p: SeasonPeriod)
    requires
        parse_token_spec(s) == Some(p),
    ensures
        s == token_spec(p),
{
}

} // verus!
