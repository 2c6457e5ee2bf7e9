//! The economy sub-document of the savegame feed, and the price transform.

use vstd::prelude::*;
use crate::error::FeedError;
use crate::season::SeasonPeriod;

verus! {

/// The economy document: repeated great demands and repeated fill types.
/// Either list defaults to empty when its container element carries no
/// entries.
#[derive(Clone, Debug)]
pub struct Economy {
    pub great_demands: GreatDemands,
    pub fill_types: FillTypes,
}

/// Container of the repeated `greatDemand` elements, in document order.
#[derive(Clone, Debug)]
pub struct GreatDemands {
    pub great_demand: Vec<GreatDemand>,
}

/// Container of the repeated `fillType` elements, in document order.
#[derive(Clone, Debug)]
pub struct FillTypes {
    pub fill_type: Vec<FillType>,
}

/// A temporary, multiplier-boosted purchase event for one fill type.
#[derive(Clone, Debug)]
pub struct GreatDemand {
    pub unique_id: String,
    pub fill_type_name: String,
    /// The demand multiplier is a fractional wire value; it is carried
    /// verbatim as its decimal text, since this library does not model
    /// floating-point values.
    pub demand_multiplier: String,
    pub demand_start_day: i32,
    pub demand_start_hour: i32,
    pub demand_duration: i32,
    /// Wire-native flag text, kept as transmitted.
    pub is_running: String,
    /// Wire-native flag text, kept as transmitted.
    pub is_valid: String,
}

/// A trackable material/resource category in the simulated economy.
#[derive(Clone, Debug)]
pub struct FillType {
    pub fill_type: String,
    pub total_amount: Option<i32>,
    pub history: Option<History>,
}

/// Ordered sequence of period entries; sequence order is document order, not
/// necessarily chronological order.
#[derive(Clone, Debug)]
pub struct History {
    pub periods: Vec<Period>,
}

/// One bucket of historical economy data: a season-period key and its value.
#[derive(Clone, Copy, Debug, PartialEq, Eq, Structural)]
pub struct Period {
    pub period: SeasonPeriod,
    pub value: i32,
}

/// The adjusted price for a base price: the base scaled by the fixed
/// multiplier 3.16, rounded to the nearest integer with ties away from zero.
/// Stated over the exact rational 316/100.
pub open spec fn price_spec(base: int) -> int {
    if base >= 0 {
        (base * 316 + 50) / 100
    } else {
        -(((-base) * 316 + 50) / 100)
    }
}

/// Maps a base price to the adjusted economy price.
///
/// The multiplier 3.16 is an opaque, externally derived constant of the
/// simulated game's economy; it must not be altered without re-deriving it
/// from the target game version. A result that does not fit the input's
/// integer width is reported as an overflow, never wrapped.
pub fn calculate_economy_price(base_price: i32) -> (r: Result<i32, FeedError>)
    ensures
        r matches Ok(p) ==> p == price_spec(base_price as int),
        r is Ok <==> i32::MIN <= price_spec(base_price as int) <= i32::MAX,
        r is Err ==> r == Err::<i32, FeedError>(FeedError::NumericOverflow),
{
    let wide: i64 = base_price as i64;
    if wide >= 0 {
        let magnitude: u64 = wide as u64;
        let scaled: u64 = (magnitude * 316 + 50) / 100;
        if scaled <= 2147483647 {
            Ok(scaled as i32)
        } else {
            Err(FeedError::NumericOverflow)
        }
    } else {
        let magnitude: u64 = (-wide) as u64;
        let scaled: u64 = (magnitude * 316 + 50) / 100;
        if scaled <= 2147483648 {
            Ok((-(scaled as i64)) as i32)
        } else {
            Err(FeedError::NumericOverflow)
        }
    }
}

} // verus!
