//! Typed model of the two data feeds a farming-simulation dedicated server
//! exposes: a JSON "live stats" feed and an XML "career savegame" feed.
//!
//! The crate turns already-decoded wire sections into typed, queryable
//! documents, reconciles the two feeds' incompatible "installed mod" shapes
//! into one unified entity, and carries the small economy sub-model
//! (season-period codec and price transform). Structural decoding of the raw
//! payload text is left to callers; this crate owns the rules: which fields
//! are required, how absent lists default, and how the two mod shapes map to
//! one accessor contract.

pub mod careersavegame;
pub mod economy;
pub mod endpoint;
pub mod error;
pub mod mods;
pub mod season;
pub mod stats;
pub mod strutil;

pub use careersavegame::CareerSavegame;
pub use careersavegame::Edition;
pub use careersavegame::IntroductionHelp;
pub use careersavegame::MapInfo;
pub use careersavegame::MapsSplitShapeFileIds;
pub use careersavegame::Settings;
pub use careersavegame::SettingsWire;
pub use careersavegame::SlotSystem;
pub use careersavegame::SplitShapeId;
pub use careersavegame::Statistics;
pub use economy::Economy;
pub use economy::FillType;
pub use economy::FillTypes;
pub use economy::GreatDemand;
pub use economy::GreatDemands;
pub use economy::History;
pub use economy::Period;
pub use economy::calculate_economy_price;
pub use endpoint::Endpoint;
pub use endpoint::EndpointBuilder;
pub use endpoint::Filename;
pub use endpoint::Format;
pub use error::FeedError;
pub use mods::CsgMod;
pub use mods::DssMod;
pub use mods::Mod;
pub use mods::mods_from_savegame;
pub use mods::mods_from_stats;
pub use season::SeasonPeriod;
pub use stats::DssData;
pub use stats::Field;
pub use stats::Player;
pub use stats::Server;
pub use stats::Slots;
pub use stats::Vehicle;
pub use stats::VehicleFill;
