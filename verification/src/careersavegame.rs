//! The career-savegame document: a set of independently optional top-level
//! sections plus the savegame-shaped mod list.

use vstd::prelude::*;
use crate::error::FeedError;
use crate::mods::CsgMod;
use crate::mods::Mod;
use crate::mods::mods_from_savegame;

verus! {

/// The career-savegame document. Any subset of the sections may be absent;
/// absence of one section never invalidates presence of another. The mod
/// list is always present and defaults to an empty sequence.
#[derive(Clone, Debug)]
pub struct CareerSavegame {
    pub settings: Option<Settings>,
    pub map: Option<MapInfo>,
    pub introduction_help: Option<IntroductionHelp>,
    pub statistics: Option<Statistics>,
    pub maps_split_shape_file_ids: Option<MapsSplitShapeFileIds>,
    pub slot_system: Option<SlotSystem>,
    pub mods: Vec<Mod>,
}

impl CareerSavegame {
    /// Composes a career-savegame document from its decoded sections. Each
    /// section's absence is independent; an absent mod list yields an empty
    /// sequence, never an error; mod records are bridged to unified entities
    /// with the career-savegame tag, in order.
    pub fn from_sections(
        settings: Option<Settings>,
        map: Option<MapInfo>,
        introduction_help: Option<IntroductionHelp>,
        statistics: Option<Statistics>,
        maps_split_shape_file_ids: Option<MapsSplitShapeFileIds>,
        slot_system: Option<SlotSystem>,
        mods: Option<Vec<CsgMod>>,
    ) -> (r: CareerSavegame)
        ensures
            r.settings == settings,
            r.map == map,
            r.introduction_help == introduction_help,
            r.statistics == statistics,
            r.maps_split_shape_file_ids == maps_split_shape_file_ids,
            r.slot_system == slot_system,
            (match mods {
                Some(ms) => r.mods@.len() == ms@.len() && forall|i: int|
                    0 <= i < ms@.len() ==> r.mods@[i] == Mod::CsgFormat(ms@[i]),
                None => r.mods@.len() == 0,
            }),
    {
        let mods = match mods {
            Some(ms) => mods_from_savegame(ms),
            None => Vec::new(),
        };
        CareerSavegame {
            settings,
            map,
            introduction_help,
            statistics,
            maps_split_shape_file_ids,
            slot_system,
            mods,
        }
    }
}

/// The target game edition a settings section was written by. The settings
/// schema differs by edition, with some fields present only in one of them;
/// the discriminant keeps both shapes supported in one binary.
#[derive(Clone, Copy, Debug, PartialEq, Eq, Structural)]
pub enum Edition {
    Fs22,
    Fs25,
}

/// The general settings section, as one superset record over both editions.
/// Required fields hold plain values; edition-specific fields are optional
/// and populated exactly when [`Edition`] selects them.
#[derive(Clone, Debug)]
pub struct Settings {
    pub edition: Edition,
    pub savegame_name: String,
    pub creation_date: String,
    pub map_id: String,
    pub map_title: String,
    pub save_date_formatted: String,
    pub save_date: String,
    /// Present exactly in the earlier edition; absent on the wire it
    /// defaults to false.
    pub reset_vehicles: Option<bool>,
    /// Present exactly in the later edition; absent on the wire it defaults
    /// to zero.
    pub initial_money: Option<i32>,
    /// Present exactly in the later edition; absent on the wire it defaults
    /// to zero.
    pub initial_loan: Option<i32>,
    /// Present exactly in the earlier edition; absent on the wire it
    /// defaults to zero.
    pub difficulty: Option<i8>,
    pub economic_difficulty: String,
    /// Present exactly in the later edition; absent on the wire it defaults
    /// to false.
    pub has_initially_owned_farmlands: Option<bool>,
    /// Present exactly in the later edition; absent on the wire it defaults
    /// to false.
    pub load_default_farm: Option<bool>,
    /// Present exactly in the later edition; absent on the wire it defaults
    /// to false.
    pub start_with_guided_tour: Option<bool>,
    pub traffic_enabled: bool,
    pub stop_and_go_braking: bool,
    pub trailer_fill_limit: bool,
    pub automatic_motor_start_enabled: bool,
    pub growth_mode: i8,
    pub planned_days_per_period: i8,
    pub fruit_destruction: bool,
    pub plowing_required_enabled: bool,
    pub stones_enabled: bool,
    pub weeds_enabled: bool,
    pub lime_required: bool,
    pub is_snow_enabled: bool,
    pub fuel_usage: i8,
    pub helper_buy_fuel: bool,
    pub helper_buy_seeds: bool,
    pub helper_buy_fertilizer: bool,
    pub helper_slurry_source: i8,
    pub helper_manure_source: i8,
    pub density_map_revision: i8,
    pub terrain_texture_revision: i8,
    pub terrain_lod_texture_revision: i8,
    pub split_shapes_revision: i8,
    pub tip_collision_revision: i8,
    pub placement_collision_revision: i8,
    pub navigation_collision_revision: i8,
    pub map_density_map_revision: i8,
    pub map_terrain_texture_revision: i8,
    pub map_terrain_lod_texture_revision: i8,
    pub map_split_shapes_revision: i8,
    pub map_tip_collision_revision: i8,
    pub map_placement_collision_revision: i8,
    pub map_navigation_collision_revision: i8,
    pub disaster_destruction_state: String,
    pub dirt_interval: i8,
    /// Fractional wire value, carried verbatim as its decimal text; this
    /// library does not model floating-point values.
    pub time_scale: String,
    /// Fractional wire value, carried verbatim as its decimal text.
    pub auto_save_interval: String,
}

/// A settings section as decoded from the wire, before required fields are
/// enforced: every field is optional here, so that "absent" stays
/// distinguishable from "present but empty or zero".
#[derive(Clone, Debug)]
pub struct SettingsWire {
    pub savegame_name: Option<String>,
    pub creation_date: Option<String>,
    pub map_id: Option<String>,
    pub map_title: Option<String>,
    pub save_date_formatted: Option<String>,
    pub save_date: Option<String>,
    pub reset_vehicles: Option<bool>,
    pub initial_money: Option<i32>,
    pub initial_loan: Option<i32>,
    pub difficulty: Option<i8>,
    pub economic_difficulty: Option<String>,
    pub has_initially_owned_farmlands: Option<bool>,
    pub load_default_farm: Option<bool>,
    pub start_with_guided_tour: Option<bool>,
    pub traffic_enabled: Option<bool>,
    pub stop_and_go_braking: Option<bool>,
    pub trailer_fill_limit: Option<bool>,
    pub automatic_motor_start_enabled: Option<bool>,
    pub growth_mode: Option<i8>,
    pub planned_days_per_period: Option<i8>,
    pub fruit_destruction: Option<bool>,
    pub plowing_required_enabled: Option<bool>,
    pub stones_enabled: Option<bool>,
    pub weeds_enabled: Option<bool>,
    pub lime_required: Option<bool>,
    pub is_snow_enabled: Option<bool>,
    pub fuel_usage: Option<i8>,
    pub helper_buy_fuel: Option<bool>,
    pub helper_buy_seeds: Option<bool>,
    pub helper_buy_fertilizer: Option<bool>,
    pub helper_slurry_source: Option<i8>,
    pub helper_manure_source: Option<i8>,
    pub density_map_revision: Option<i8>,
    pub terrain_texture_revision: Option<i8>,
    pub terrain_lod_texture_revision: Option<i8>,
    pub split_shapes_revision: Option<i8>,
    pub tip_collision_revision: Option<i8>,
    pub placement_collision_revision: Option<i8>,
    pub navigation_collision_revision: Option<i8>,
    pub map_density_map_revision: Option<i8>,
    pub map_terrain_texture_revision: Option<i8>,
    pub map_terrain_lod_texture_revision: Option<i8>,
    pub map_split_shapes_revision: Option<i8>,
    pub map_tip_collision_revision: Option<i8>,
    pub map_placement_collision_revision: Option<i8>,
    pub map_navigation_collision_revision: Option<i8>,
    pub disaster_destruction_state: Option<String>,
    pub dirt_interval: Option<i8>,
    pub time_scale: Option<String>,
    pub auto_save_interval: Option<String>,
}

/// A defaulted boolean wire field: absent reads as false.
pub open spec fn or_false(o: Option<bool>) -> bool {
    match o {
        Some(b) => b,
        None => false,
    }
}

/// A defaulted small-integer wire field: absent reads as zero.
pub open spec fn or_zero_i8(o: Option<i8>) -> i8 {
    match o {
        Some(v) => v,
        None => 0,
    }
}

/// A defaulted integer wire field: absent reads as zero.
pub open spec fn or_zero_i32(o: Option<i32>) -> i32 {
    match o {
        Some(v) => v,
        None => 0,
    }
}

impl SettingsWire {
    /// Whether every field the schema marks non-optional is present.
    /// Edition-specific fields are not required in any edition; absent they
    /// read as their defaults.
    pub open spec fn complete(self) -> bool {
        &&& self.savegame_name is Some
        &&& self.creation_date is Some
        &&& self.map_id is Some
        &&& self.map_title is Some
        &&& self.save_date_formatted is Some
        &&& self.save_date is Some
        &&& self.economic_difficulty is Some
        &&& self.traffic_enabled is Some
        &&& self.stop_and_go_braking is Some
        &&& self.trailer_fill_limit is Some
        &&& self.automatic_motor_start_enabled is Some
        &&& self.growth_mode is Some
        &&& self.planned_days_per_period is Some
        &&& self.fruit_destruction is Some
        &&& self.plowing_required_enabled is Some
        &&& self.stones_enabled is Some
        &&& self.weeds_enabled is Some
        &&& self.lime_required is Some
        &&& self.is_snow_enabled is Some
        &&& self.fuel_usage is Some
        &&& self.helper_buy_fuel is Some
        &&& self.helper_buy_seeds is Some
        &&& self.helper_buy_fertilizer is Some
        &&& self.helper_slurry_source is Some
        &&& self.helper_manure_source is Some
        &&& self.density_map_revision is Some
        &&& self.terrain_texture_revision is Some
        &&& self.terrain_lod_texture_revision is Some
        &&& self.split_shapes_revision is Some
        &&& self.tip_collision_revision is Some
        &&& self.placement_collision_revision is Some
        &&& self.navigation_collision_revision is Some
        &&& self.map_density_map_revision is Some
        &&& self.map_terrain_texture_revision is Some
        &&& self.map_terrain_lod_texture_revision is Some
        &&& self.map_split_shapes_revision is Some
        &&& self.map_tip_collision_revision is Some
        &&& self.map_placement_collision_revision is Some
        &&& self.map_navigation_collision_revision is Some
        &&& self.disaster_destruction_state is Some
        &&& self.dirt_interval is Some
        &&& self.time_scale is Some
        &&& self.auto_save_interval is Some
    }
}

/// The settings record a complete wire section validates to, under a given
/// edition: required fields are taken as transmitted, the chosen edition's
/// fields are populated (defaulting absent ones), and the other edition's
/// fields are left absent.
pub open spec fn settings_spec(edition: Edition, w: SettingsWire) -> Settings {
    Settings {
        edition,
        savegame_name: w.savegame_name->0,
        creation_date: w.creation_date->0,
        map_id: w.map_id->0,
        map_title: w.map_title->0,
        save_date_formatted: w.save_date_formatted->0,
        save_date: w.save_date->0,
        reset_vehicles: if edition == Edition::Fs22 {
            Some(or_false(w.reset_vehicles))
        } else {
            None
        },
        initial_money: if edition == Edition::Fs25 {
            Some(or_zero_i32(w.initial_money))
        } else {
            None
        },
        initial_loan: if edition == Edition::Fs25 {
            Some(or_zero_i32(w.initial_loan))
        } else {
            None
        },
        difficulty: if edition == Edition::Fs22 {
            Some(or_zero_i8(w.difficulty))
        } else {
            None
        },
        economic_difficulty: w.economic_difficulty->0,
        has_initially_owned_farmlands: if edition == Edition::Fs25 {
            Some(or_false(w.has_initially_owned_farmlands))
        } else {
            None
        },
        load_default_farm: if edition == Edition::Fs25 {
            Some(or_false(w.load_default_farm))
        } else {
            None
        },
        start_with_guided_tour: if edition == Edition::Fs25 {
            Some(or_false(w.start_with_guided_tour))
        } else {
            None
        },
        traffic_enabled: w.traffic_enabled->0,
        stop_and_go_braking: w.stop_and_go_braking->0,
        trailer_fill_limit: w.trailer_fill_limit->0,
        automatic_motor_start_enabled: w.automatic_motor_start_enabled->0,
        growth_mode: w.growth_mode->0,
        planned_days_per_period: w.planned_days_per_period->0,
        fruit_destruction: w.fruit_destruction->0,
        plowing_required_enabled: w.plowing_required_enabled->0,
        stones_enabled: w.stones_enabled->0,
        weeds_enabled: w.weeds_enabled->0,
        lime_required: w.lime_required->0,
        is_snow_enabled: w.is_snow_enabled->0,
        fuel_usage: w.fuel_usage->0,
        helper_buy_fuel: w.helper_buy_fuel->0,
        helper_buy_seeds: w.helper_buy_seeds->0,
        helper_buy_fertilizer: w.helper_buy_fertilizer->0,
        helper_slurry_source: w.helper_slurry_source->0,
        helper_manure_source: w.helper_manure_source->0,
        density_map_revision: w.density_map_revision->0,
        terrain_texture_revision: w.terrain_texture_revision->0,
        terrain_lod_texture_revision: w.terrain_lod_texture_revision->0,
        split_shapes_revision: w.split_shapes_revision->0,
        tip_collision_revision: w.tip_collision_revision->0,
        placement_collision_revision: w.placement_collision_revision->0,
        navigation_collision_revision: w.navigation_collision_revision->0,
        map_density_map_revision: w.map_density_map_revision->0,
        map_terrain_texture_revision: w.map_terrain_texture_revision->0,
        map_terrain_lod_texture_revision: w.map_terrain_lod_texture_revision->0,
        map_split_shapes_revision: w.map_split_shapes_revision->0,
        map_tip_collision_revision: w.map_tip_collision_revision->0,
        map_placement_collision_revision: w.map_placement_collision_revision->0,
        map_navigation_collision_revision: w.map_navigation_collision_revision->0,
        disaster_destruction_state: w.disaster_destruction_state->0,
        dirt_interval: w.dirt_interval->0,
        time_scale: w.time_scale->0,
        auto_save_interval: w.auto_save_interval->0,
    }
}

impl Settings {
    /// Validates a decoded settings section under the given edition. A
    /// missing required field fails the whole section with
    /// [`FeedError::MissingRequiredField`] rather than producing a record
    /// with a blank value; edition-specific fields are never required and
    /// default when absent.
    #[verifier::rlimit(100)]
    #[verifier::spinoff_prover]
    pub fn from_wire(edition: Edition, w: SettingsWire) -> (r: Result<Settings, FeedError>)
        ensures
            r is Ok <==> w.complete(),
            r matches Ok(s) ==> s == settings_spec(edition, w),
            r is Err ==> r == Err::<Settings, FeedError>(FeedError::MissingRequiredField),
    {
        let SettingsWire {
            savegame_name,
            creation_date,
            map_id,
            map_title,
            save_date_formatted,
            save_date,
            reset_vehicles,
            initial_money,
            initial_loan,
            difficulty,
            economic_difficulty,
            has_initially_owned_farmlands,
            load_default_farm,
            start_with_guided_tour,
            traffic_enabled,
            stop_and_go_braking,
            trailer_fill_limit,
            automatic_motor_start_enabled,
            growth_mode,
            planned_days_per_period,
            fruit_destruction,
            plowing_required_enabled,
            stones_enabled,
            weeds_enabled,
            lime_required,
            is_snow_enabled,
            fuel_usage,
            helper_buy_fuel,
            helper_buy_seeds,
            helper_buy_fertilizer,
            helper_slurry_source,
            helper_manure_source,
            density_map_revision,
            terrain_texture_revision,
            terrain_lod_texture_revision,
            split_shapes_revision,
            tip_collision_revision,
            placement_collision_revision,
            navigation_collision_revision,
            map_density_map_revision,
            map_terrain_texture_revision,
            map_terrain_lod_texture_revision,
            map_split_shapes_revision,
            map_tip_collision_revision,
            map_placement_collision_revision,
            map_navigation_collision_revision,
            disaster_destruction_state,
            dirt_interval,
            time_scale,
            auto_save_interval,
        } = w;
        let savegame_name = match savegame_name {
            Some(v) => v,
            None => return Err(FeedError::MissingRequiredField),
        };
        let creation_date = match creation_date {
            Some(v) => v,
            None => return Err(FeedError::MissingRequiredField),
        };
        let map_id = match map_id {
            Some(v) => v,
            None => return Err(FeedError::MissingRequiredField),
        };
        let map_title = match map_title {
            Some(v) => v,
            None => return Err(FeedError::MissingRequiredField),
        };
        let save_date_formatted = match save_date_formatted {
            Some(v) => v,
            None => return Err(FeedError::MissingRequiredField),
        };
        let save_date = match save_date {
            Some(v) => v,
            None => return Err(FeedError::MissingRequiredField),
        };
        let economic_difficulty = match economic_difficulty {
            Some(v) => v,
            None => return Err(FeedError::MissingRequiredField),
        };
        let traffic_enabled = match traffic_enabled {
            Some(v) => v,
            None => return Err(FeedError::MissingRequiredField),
        };
        let stop_and_go_braking = match stop_and_go_braking {
            Some(v) => v,
            None => return Err(FeedError::MissingRequiredField),
        };
        let trailer_fill_limit = match trailer_fill_limit {
            Some(v) => v,
            None => return Err(FeedError::MissingRequiredField),
        };
        let automatic_motor_start_enabled = match automatic_motor_start_enabled {
            Some(v) => v,
            None => return Err(FeedError::MissingRequiredField),
        };
        let growth_mode = match growth_mode {
            Some(v) => v,
            None => return Err(FeedError::MissingRequiredField),
        };
        let planned_days_per_period = match planned_days_per_period {
            Some(v) => v,
            None => return Err(FeedError::MissingRequiredField),
        };
        let fruit_destruction = match fruit_destruction {
            Some(v) => v,
            None => return Err(FeedError::MissingRequiredField),
        };
        let plowing_required_enabled = match plowing_required_enabled {
            Some(v) => v,
            None => return Err(FeedError::MissingRequiredField),
        };
        let stones_enabled = match stones_enabled {
            Some(v) => v,
            None => return Err(FeedError::MissingRequiredField),
        };
        let weeds_enabled = match weeds_enabled {
            Some(v) => v,
            None => return Err(FeedError::MissingRequiredField),
        };
        let lime_required = match lime_required {
            Some(v) => v,
            None => return Err(FeedError::MissingRequiredField),
        };
        let is_snow_enabled = match is_snow_enabled {
            Some(v) => v,
            None => return Err(FeedError::MissingRequiredField),
        };
        let fuel_usage = match fuel_usage {
            Some(v) => v,
            None => return Err(FeedError::MissingRequiredField),
        };
        let helper_buy_fuel = match helper_buy_fuel {
            Some(v) => v,
            None => return Err(FeedError::MissingRequiredField),
        };
        let helper_buy_seeds = match helper_buy_seeds {
            Some(v) => v,
            None => return Err(FeedError::MissingRequiredField),
        };
        let helper_buy_fertilizer = match helper_buy_fertilizer {
            Some(v) => v,
            None => return Err(FeedError::MissingRequiredField),
        };
        let helper_slurry_source = match helper_slurry_source {
            Some(v) => v,
            None => return Err(FeedError::MissingRequiredField),
        };
        let helper_manure_source = match helper_manure_source {
            Some(v) => v,
            None => return Err(FeedError::MissingRequiredField),
        };
        let density_map_revision = match density_map_revision {
            Some(v) => v,
            None => return Err(FeedError::MissingRequiredField),
        };
        let terrain_texture_revision = match terrain_texture_revision {
            Some(v) => v,
            None => return Err(FeedError::MissingRequiredField),
        };
        let terrain_lod_texture_revision = match terrain_lod_texture_revision {
            Some(v) => v,
            None => return Err(FeedError::MissingRequiredField),
        };
        let split_shapes_revision = match split_shapes_revision {
            Some(v) => v,
            None => return Err(FeedError::MissingRequiredField),
        };
        let tip_collision_revision = match tip_collision_revision {
            Some(v) => v,
            None => return Err(FeedError::MissingRequiredField),
        };
        let placement_collision_revision = match placement_collision_revision {
            Some(v) => v,
            None => return Err(FeedError::MissingRequiredField),
        };
        let navigation_collision_revision = match navigation_collision_revision {
            Some(v) => v,
            None => return Err(FeedError::MissingRequiredField),
        };
        let map_density_map_revision = match map_density_map_revision {
            Some(v) => v,
            None => return Err(FeedError::MissingRequiredField),
        };
        let map_terrain_texture_revision = match map_terrain_texture_revision {
            Some(v) => v,
            None => return Err(FeedError::MissingRequiredField),
        };
        let map_terrain_lod_texture_revision = match map_terrain_lod_texture_revision {
            Some(v) => v,
            None => return Err(FeedError::MissingRequiredField),
        };
        let map_split_shapes_revision = match map_split_shapes_revision {
            Some(v) => v,
            None => return Err(FeedError::MissingRequiredField),
        };
        let map_tip_collision_revision = match map_tip_collision_revision {
            Some(v) => v,
            None => return Err(FeedError::MissingRequiredField),
        };
        let map_placement_collision_revision = match map_placement_collision_revision {
            Some(v) => v,
            None => return Err(FeedError::MissingRequiredField),
        };
        let map_navigation_collision_revision = match map_navigation_collision_revision {
            Some(v) => v,
            None => return Err(FeedError::MissingRequiredField),
        };
        let disaster_destruction_state = match disaster_destruction_state {
            Some(v) => v,
            None => return Err(FeedError::MissingRequiredField),
        };
        let dirt_interval = match dirt_interval {
            Some(v) => v,
            None => return Err(FeedError::MissingRequiredField),
        };
        let time_scale = match time_scale {
            Some(v) => v,
            None => return Err(FeedError::MissingRequiredField),
        };
        let auto_save_interval = match auto_save_interval {
            Some(v) => v,
            None => return Err(FeedError::MissingRequiredField),
        };
        let is_later_edition = match edition {
            Edition::Fs22 => false,
            Edition::Fs25 => true,
        };
        let reset_vehicles = if is_later_edition {
            None
        } else {
            Some(
                match reset_vehicles {
                    Some(b) => b,
                    None => false,
                },
            )
        };
        let difficulty = if is_later_edition {
            None
        } else {
            Some(
                match difficulty {
                    Some(v) => v,
                    None => 0,
                },
            )
        };
        let initial_money = if is_later_edition {
            Some(
                match initial_money {
                    Some(v) => v,
                    None => 0,
                },
            )
        } else {
            None
        };
        let initial_loan = if is_later_edition {
            Some(
                match initial_loan {
                    Some(v) => v,
                    None => 0,
                },
            )
        } else {
            None
        };
        let has_initially_owned_farmlands = if is_later_edition {
            Some(
                match has_initially_owned_farmlands {
                    Some(b) => b,
                    None => false,
                },
            )
        } else {
            None
        };
        let load_default_farm = if is_later_edition {
            Some(
                match load_default_farm {
                    Some(b) => b,
                    None => false,
                },
            )
        } else {
            None
        };
        let start_with_guided_tour = if is_later_edition {
            Some(
                match start_with_guided_tour {
                    Some(b) => b,
                    None => false,
                },
            )
        } else {
            None
        };
        Ok(
            Settings {
                edition,
                savegame_name,
                creation_date,
                map_id,
                map_title,
                save_date_formatted,
                save_date,
                reset_vehicles,
                initial_money,
                initial_loan,
                difficulty,
                economic_difficulty,
                has_initially_owned_farmlands,
                load_default_farm,
                start_with_guided_tour,
                traffic_enabled,
                stop_and_go_braking,
                trailer_fill_limit,
                automatic_motor_start_enabled,
                growth_mode,
                planned_days_per_period,
                fruit_destruction,
                plowing_required_enabled,
                stones_enabled,
                weeds_enabled,
                lime_required,
                is_snow_enabled,
                fuel_usage,
                helper_buy_fuel,
                helper_buy_seeds,
                helper_buy_fertilizer,
                helper_slurry_source,
                helper_manure_source,
                density_map_revision,
                terrain_texture_revision,
                terrain_lod_texture_revision,
                split_shapes_revision,
                tip_collision_revision,
                placement_collision_revision,
                navigation_collision_revision,
                map_density_map_revision,
                map_terrain_texture_revision,
                map_terrain_lod_texture_revision,
                map_split_shapes_revision,
                map_tip_collision_revision,
                map_placement_collision_revision,
                map_navigation_collision_revision,
                disaster_destruction_state,
                dirt_interval,
                time_scale,
                auto_save_interval,
            },
        )
    }
}

/// The map metadata section.
#[derive(Clone, Debug)]
pub struct MapInfo {
    pub found_help_icons: String,
}

/// The introduction-help flags section; further fields of this element are
/// not carried by observed payloads.
#[derive(Clone, Debug)]
pub struct IntroductionHelp {
    /// Wire-native flag text, kept as transmitted.
    pub active: String,
}

/// The play-statistics section. Both fields are required when the section is
/// present.
#[derive(Clone, Debug)]
pub struct Statistics {
    pub money: i32,
    /// Fractional wire value, carried verbatim as its decimal text; this
    /// library does not model floating-point values.
    pub play_time: String,
}

impl Statistics {
    /// Validates a decoded statistics section: both fields are required, and
    /// a missing one fails the section rather than truncating it.
    pub fn from_wire(money: Option<i32>, play_time: Option<String>) -> (r: Result<
        Statistics,
        FeedError,
    >)
        ensures
            r is Ok <==> money is Some && play_time is Some,
            r matches Ok(s) ==> Some(s.money) == money && Some(s.play_time) == play_time,
            r is Err ==> r == Err::<Statistics, FeedError>(FeedError::MissingRequiredField),
    {
        match (money, play_time) {
            (Some(money), Some(play_time)) => Ok(Statistics { money, play_time }),
            _ => Err(FeedError::MissingRequiredField),
        }
    }
}

/// The split-shape id list section. The count attribute is wire-native text;
/// the repeated ids keep document order and default to an empty sequence.
#[derive(Clone, Debug)]
pub struct MapsSplitShapeFileIds {
    pub count: String,
    pub ids: Vec<SplitShapeId>,
}

/// One split-shape id entry.
#[derive(Clone, Debug)]
pub struct SplitShapeId {
    pub id: String,
}

/// The slot-usage summary section.
#[derive(Clone, Debug)]
pub struct SlotSystem {
    pub slot_usage: String,
}

} // verus!
