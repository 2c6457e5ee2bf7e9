use fs_feeds::CsgMod;
use fs_feeds::DssMod;
use fs_feeds::Mod;
use fs_feeds::mods_from_savegame;
use fs_feeds::mods_from_stats;

fn stats_record() -> DssMod {
    DssMod {
        author: None,
        hash: None,
        name: Some("FS25_x".to_string()),
        version: Some("1.0".to_string()),
        description: Some("Friendly".to_string()),
    }
}

fn savegame_record() -> CsgMod {
    CsgMod {
        mod_name: Some("FS25_x".to_string()),
        title: Some("Friendly".to_string()),
        version: Some("1.0".to_string()),
        required: None,
        file_hash: None,
    }
}

#[test]
fn stats_record_accessors() {
    let unified = Mod::DssFormat(stats_record());
    assert_eq!(unified.name(), Some("FS25_x"));
    assert_eq!(unified.description(), Some("Friendly"));
    assert_eq!(unified.version(), Some("1.0"));
    assert_eq!(unified.hash(), None);
}

#[test]
fn savegame_record_accessors_match_stats_accessors() {
    let from_stats = Mod::DssFormat(stats_record());
    let from_savegame = Mod::CsgFormat(savegame_record());
    assert_eq!(from_savegame.name(), Some("FS25_x"));
    assert_eq!(from_savegame.description(), Some("Friendly"));
    assert_eq!(from_stats.name(), from_savegame.name());
    assert_eq!(from_stats.version(), from_savegame.version());
    assert_eq!(from_stats.hash(), from_savegame.hash());
    assert_eq!(from_stats.description(), from_savegame.description());
}

#[test]
fn absence_propagates_never_an_empty_string() {
    let empty = Mod::DssFormat(DssMod {
        author: None,
        hash: None,
        name: None,
        version: None,
        description: None,
    });
    assert_eq!(empty.name(), None);
    assert_eq!(empty.version(), None);
    assert_eq!(empty.hash(), None);
    assert_eq!(empty.description(), None);
}

#[test]
fn stats_bridge_preserves_order_and_cardinality() {
    let first = DssMod {
        author: Some("a".to_string()),
        hash: Some("h1".to_string()),
        name: Some("FS25_one".to_string()),
        version: None,
        description: None,
    };
    let second = DssMod {
        author: None,
        hash: Some("h2".to_string()),
        name: Some("FS25_two".to_string()),
        version: None,
        description: None,
    };
    let unified = mods_from_stats(vec![first, second]);
    assert_eq!(unified.len(), 2);
    assert_eq!(unified[0].name(), Some("FS25_one"));
    assert_eq!(unified[0].hash(), Some("h1"));
    assert_eq!(unified[1].name(), Some("FS25_two"));
    assert!(matches!(unified[0], Mod::DssFormat(_)));
    assert!(matches!(unified[1], Mod::DssFormat(_)));
}

#[test]
fn savegame_bridge_tags_by_origin_even_when_empty_shaped() {
    let bare = CsgMod { mod_name: None, title: None, version: None, required: None, file_hash: None };
    let unified = mods_from_savegame(vec![bare]);
    assert_eq!(unified.len(), 1);
    assert!(matches!(unified[0], Mod::CsgFormat(_)));
}

#[test]
fn bridging_an_empty_list_yields_an_empty_list() {
    assert_eq!(mods_from_stats(Vec::new()).len(), 0);
    assert_eq!(mods_from_savegame(Vec::new()).len(), 0);
}

#[test]
fn savegame_hash_comes_from_file_hash() {
    let mut record = savegame_record();
    record.file_hash = Some("cafebabe".to_string());
    let unified = Mod::CsgFormat(record);
    assert_eq!(unified.hash(), Some("cafebabe"));
}
