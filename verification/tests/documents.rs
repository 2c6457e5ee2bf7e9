use fs_feeds::CareerSavegame;
use fs_feeds::CsgMod;
use fs_feeds::DssData;
use fs_feeds::DssMod;
use fs_feeds::Edition;
use fs_feeds::FeedError;
use fs_feeds::MapInfo;
use fs_feeds::Mod;
use fs_feeds::Server;
use fs_feeds::Settings;
use fs_feeds::SettingsWire;
use fs_feeds::Statistics;

fn complete_settings_wire() -> SettingsWire {
    SettingsWire {
        savegame_name: Some("My Farm".to_string()),
        creation_date: Some("2025-01-01".to_string()),
        map_id: Some("mapUS".to_string()),
        map_title: Some("Riverbend Springs".to_string()),
        save_date_formatted: Some("2025-02-03".to_string()),
        save_date: Some("2025-02-03 10:00".to_string()),
        reset_vehicles: None,
        initial_money: Some(100_000),
        initial_loan: Some(200_000),
        difficulty: None,
        economic_difficulty: Some("NORMAL".to_string()),
        has_initially_owned_farmlands: Some(false),
        load_default_farm: Some(true),
        start_with_guided_tour: None,
        traffic_enabled: Some(true),
        stop_and_go_braking: Some(true),
        trailer_fill_limit: Some(false),
        automatic_motor_start_enabled: Some(true),
        growth_mode: Some(1),
        planned_days_per_period: Some(1),
        fruit_destruction: Some(true),
        plowing_required_enabled: Some(true),
        stones_enabled: Some(false),
        weeds_enabled: Some(true),
        lime_required: Some(true),
        is_snow_enabled: Some(true),
        fuel_usage: Some(2),
        helper_buy_fuel: Some(false),
        helper_buy_seeds: Some(false),
        helper_buy_fertilizer: Some(false),
        helper_slurry_source: Some(1),
        helper_manure_source: Some(1),
        density_map_revision: Some(1),
        terrain_texture_revision: Some(1),
        terrain_lod_texture_revision: Some(1),
        split_shapes_revision: Some(1),
        tip_collision_revision: Some(1),
        placement_collision_revision: Some(1),
        navigation_collision_revision: Some(1),
        map_density_map_revision: Some(1),
        map_terrain_texture_revision: Some(1),
        map_terrain_lod_texture_revision: Some(1),
        map_split_shapes_revision: Some(1),
        map_tip_collision_revision: Some(1),
        map_placement_collision_revision: Some(1),
        map_navigation_collision_revision: Some(1),
        disaster_destruction_state: Some("NONE".to_string()),
        dirt_interval: Some(4),
        time_scale: Some("5.0".to_string()),
        auto_save_interval: Some("15.0".to_string()),
    }
}

#[test]
fn stats_document_without_mod_field_has_empty_mod_sequence() {
    let doc = DssData::from_sections(None, None, None, None);
    assert!(doc.server.is_none());
    assert!(doc.slots.is_none());
    assert_eq!(doc.vehicles.len(), 0);
    assert_eq!(doc.mods.len(), 0);
}

#[test]
fn stats_document_bridges_its_mods_in_order() {
    let records = vec![
        DssMod {
            author: None,
            hash: None,
            name: Some("FS25_a".to_string()),
            version: None,
            description: None,
        },
        DssMod {
            author: None,
            hash: None,
            name: Some("FS25_b".to_string()),
            version: None,
            description: None,
        },
    ];
    let doc = DssData::from_sections(None, None, None, Some(records));
    assert_eq!(doc.mods.len(), 2);
    assert_eq!(doc.mods[0].name(), Some("FS25_a"));
    assert_eq!(doc.mods[1].name(), Some("FS25_b"));
    assert!(matches!(doc.mods[0], Mod::DssFormat(_)));
}

#[test]
fn savegame_document_missing_settings_keeps_other_sections() {
    let map = MapInfo { found_help_icons: "0 0 1".to_string() };
    let mods = vec![
        CsgMod {
            mod_name: Some("FS25_x".to_string()),
            title: None,
            version: None,
            required: None,
            file_hash: None,
        },
    ];
    let doc = CareerSavegame::from_sections(None, Some(map), None, None, None, None, Some(mods));
    assert!(doc.settings.is_none());
    assert_eq!(doc.map.as_ref().unwrap().found_help_icons, "0 0 1");
    assert_eq!(doc.mods.len(), 1);
    assert!(matches!(doc.mods[0], Mod::CsgFormat(_)));
}

#[test]
fn savegame_document_without_mod_elements_has_empty_mod_sequence() {
    let doc = CareerSavegame::from_sections(None, None, None, None, None, None, None);
    assert_eq!(doc.mods.len(), 0);
}

#[test]
fn settings_missing_savegame_name_fails_with_missing_required_field() {
    let mut wire = complete_settings_wire();
    wire.savegame_name = None;
    assert!(matches!(
        Settings::from_wire(Edition::Fs25, wire),
        Err(FeedError::MissingRequiredField)
    ));
}

#[test]
fn settings_missing_time_scale_fails_with_missing_required_field() {
    let mut wire = complete_settings_wire();
    wire.time_scale = None;
    assert!(matches!(
        Settings::from_wire(Edition::Fs25, wire),
        Err(FeedError::MissingRequiredField)
    ));
}

#[test]
fn complete_settings_validate_and_keep_their_values() {
    let settings = Settings::from_wire(Edition::Fs25, complete_settings_wire()).unwrap();
    assert_eq!(settings.savegame_name, "My Farm");
    assert_eq!(settings.map_title, "Riverbend Springs");
    assert_eq!(settings.initial_money, Some(100_000));
    assert_eq!(settings.initial_loan, Some(200_000));
    assert_eq!(settings.time_scale, "5.0");
    assert!(settings.traffic_enabled);
    assert_eq!(settings.edition, Edition::Fs25);
}

#[test]
fn edition_gates_which_optional_fields_exist() {
    let later = Settings::from_wire(Edition::Fs25, complete_settings_wire()).unwrap();
    assert!(later.reset_vehicles.is_none());
    assert!(later.difficulty.is_none());
    // Absent later-edition fields default rather than fail.
    assert_eq!(later.start_with_guided_tour, Some(false));

    let earlier = Settings::from_wire(Edition::Fs22, complete_settings_wire()).unwrap();
    assert!(earlier.initial_money.is_none());
    assert!(earlier.initial_loan.is_none());
    assert!(earlier.has_initially_owned_farmlands.is_none());
    // Absent earlier-edition fields default rather than fail.
    assert_eq!(earlier.reset_vehicles, Some(false));
    assert_eq!(earlier.difficulty, Some(0));
}

#[test]
fn server_section_requires_every_field() {
    let missing_version = Server::from_wire(
        Some(360),
        Some("FS25".to_string()),
        Some("Riverbend".to_string()),
        Some(2048),
        Some("overview.png".to_string()),
        Some(0),
        Some("My Server".to_string()),
        None,
    );
    assert!(matches!(missing_version, Err(FeedError::MissingRequiredField)));

    let complete = Server::from_wire(
        Some(360),
        Some("FS25".to_string()),
        Some("Riverbend".to_string()),
        Some(2048),
        Some("overview.png".to_string()),
        Some(0),
        Some("My Server".to_string()),
        Some("1.5.0.0".to_string()),
    )
    .unwrap();
    assert_eq!(complete.map_name, "Riverbend");
    assert_eq!(complete.money, 0);
}

#[test]
fn statistics_section_requires_both_fields() {
    assert!(matches!(
        Statistics::from_wire(Some(5000), None),
        Err(FeedError::MissingRequiredField)
    ));
    let stats = Statistics::from_wire(Some(0), Some("12.5".to_string())).unwrap();
    // Present-but-zero money stays distinguishable from absent money.
    assert_eq!(stats.money, 0);
    assert_eq!(stats.play_time, "12.5");
}
