//! The live-stats document: server summary, slot/player summary, vehicle
//! list and mod list, as the JSON stats feed reports them.

use vstd::prelude::*;
use crate::error::FeedError;
use crate::mods::DssMod;
use crate::mods::Mod;
use crate::mods::mods_from_stats;

verus! {

/// The live-stats document. The server and slot summaries are independently
/// optional; the vehicle and mod lists are always present and default to
/// empty sequences when the payload omits them, to simplify downstream
/// iteration.
#[derive(Clone, Debug)]
pub struct DssData {
    pub server: Option<Server>,
    pub slots: Option<Slots>,
    pub vehicles: Vec<Vehicle>,
    pub mods: Vec<Mod>,
}

impl DssData {
    /// Composes a live-stats document from its decoded sections. An absent
    /// vehicle list or mod list yields an empty sequence, never an error;
    /// mod records are bridged to unified entities with the live-stats tag,
    /// in order.
    pub fn from_sections(
        server: Option<Server>,
        slots: Option<Slots>,
        vehicles: Option<Vec<Vehicle>>,
        mods: Option<Vec<DssMod>>,
    ) -> (r: DssData)
        ensures
            r.server == server,
            r.slots == slots,
            (match vehicles {
                Some(v) => r.vehicles == v,
                None => r.vehicles@.len() == 0,
            }),
            (match mods {
                Some(ms) => r.mods@.len() == ms@.len() && forall|i: int|
                    0 <= i < ms@.len() ==> r.mods@[i] == Mod::DssFormat(ms@[i]),
                None => r.mods@.len() == 0,
            }),
    {
        let vehicles = match vehicles {
            Some(v) => v,
            None => Vec::new(),
        };
        let mods = match mods {
            Some(ms) => mods_from_stats(ms),
            None => Vec::new(),
        };
        DssData { server, slots, vehicles, mods }
    }
}

/// The server summary. Every field of this section is required: a present
/// `server` object that omits one is rejected, not defaulted.
#[derive(Clone, Debug)]
pub struct Server {
    pub day_time: i32,
    pub game: String,
    pub map_name: String,
    pub map_size: i32,
    pub map_overview_filename: String,
    /// Reported as zero by game versions past the one that introduced the
    /// field; later versions carry the money in the savegame statistics.
    pub money: i32,
    pub name: String,
    pub version: String,
}

impl Server {
    /// Validates a decoded server section: every field is required, and a
    /// missing one fails the document rather than truncating it.
    pub fn from_wire(
        day_time: Option<i32>,
        game: Option<String>,
        map_name: Option<String>,
        map_size: Option<i32>,
        map_overview_filename: Option<String>,
        money: Option<i32>,
        name: Option<String>,
        version: Option<String>,
    ) -> (r: Result<Server, FeedError>)
        ensures
            r is Ok <==> day_time is Some && game is Some && map_name is Some
                && map_size is Some && map_overview_filename is Some && money is Some
                && name is Some && version is Some,
            r matches Ok(s) ==> Some(s.day_time) == day_time && Some(s.game) == game
                && Some(s.map_name) == map_name && Some(s.map_size) == map_size
                && Some(s.map_overview_filename) == map_overview_filename
                && Some(s.money) == money && Some(s.name) == name
                && Some(s.version) == version,
            r is Err ==> r == Err::<Server, FeedError>(FeedError::MissingRequiredField),
    {
        match (day_time, game, map_name, map_size, map_overview_filename, money, name, version) {
            (
                Some(day_time),
                Some(game),
                Some(map_name),
                Some(map_size),
                Some(map_overview_filename),
                Some(money),
                Some(name),
                Some(version),
            ) => Ok(
                Server {
                    day_time,
                    game,
                    map_name,
                    map_size,
                    map_overview_filename,
                    money,
                    name,
                    version,
                },
            ),
            _ => Err(FeedError::MissingRequiredField),
        }
    }
}

/// The slot/player summary.
#[derive(Clone, Debug)]
pub struct Slots {
    pub capacity: i8,
    pub used: i8,
    pub players: Vec<Player>,
}

impl Slots {
    /// Validates a decoded slot summary: capacity and usage are required, a
    /// missing one fails the section; the player list keeps document order.
    pub fn from_wire(capacity: Option<i8>, used: Option<i8>, players: Vec<Player>) -> (r: Result<
        Slots,
        FeedError,
    >)
        ensures
            r is Ok <==> capacity is Some && used is Some,
            r matches Ok(s) ==> Some(s.capacity) == capacity && Some(s.used) == used
                && s.players == players,
            r is Err ==> r == Err::<Slots, FeedError>(FeedError::MissingRequiredField),
    {
        match (capacity, used) {
            (Some(capacity), Some(used)) => Ok(Slots { capacity, used, players }),
            _ => Err(FeedError::MissingRequiredField),
        }
    }
}

/// One player slot. The coordinates are only reported while the player is on
/// foot; they are carried verbatim as decimal wire text, since this library
/// does not model floating-point values.
#[derive(Clone, Debug)]
pub struct Player {
    pub is_used: Option<bool>,
    pub is_admin: Option<bool>,
    pub uptime: Option<i32>,
    pub x: Option<String>,
    pub y: Option<String>,
    pub z: Option<String>,
    pub name: Option<String>,
}

/// One reported vehicle. Coordinates are carried verbatim as decimal wire
/// text.
#[derive(Clone, Debug)]
pub struct Vehicle {
    pub name: Option<String>,
    pub category: Option<String>,
    pub x: Option<String>,
    pub y: Option<String>,
    pub z: Option<String>,
    pub fills: Option<Vec<VehicleFill>>,
}

/// One fill entry of a vehicle; the level is carried verbatim as decimal
/// wire text.
#[derive(Clone, Debug)]
pub struct VehicleFill {
    pub type_: Option<String>,
    pub level: Option<String>,
}

/// One reported field of the map. Coordinates are carried verbatim as
/// decimal wire text.
#[derive(Clone, Debug)]
pub struct Field {
    pub id: Option<i32>,
    pub is_owned: Option<bool>,
    pub x: Option<String>,
    pub z: Option<String>,
}

} // verus!
