use fs_feeds::EndpointBuilder;
use fs_feeds::Filename;
use fs_feeds::Format;

#[test]
fn stats_url_defaults_to_json() {
    let endpoint = EndpointBuilder::new("10.0.0.1:8080", "abc123").build();
    assert_eq!(
        endpoint.stats(),
        "http://10.0.0.1:8080/feed/dedicated-server-stats.json?code=abc123"
    );
}

#[test]
fn stats_url_with_xml_format() {
    let endpoint = EndpointBuilder::new("example.com", "abc123").format(Format::Xml).build();
    assert_eq!(endpoint.stats(), "http://example.com/feed/dedicated-server-stats.xml?code=abc123");
}

#[test]
fn scheme_prefix_on_the_host_is_stripped() {
    let endpoint = EndpointBuilder::new("http://example.com", "abc123").build();
    assert_eq!(endpoint.stats(), "http://example.com/feed/dedicated-server-stats.json?code=abc123");
}

#[test]
fn savegame_url_for_career_savegame() {
    let endpoint = EndpointBuilder::new("example.com", "abc123").build();
    assert_eq!(
        endpoint.savegame(Filename::CareerSavegame),
        "http://example.com/feed/dedicated-server-savegame.html?code=abc123&file=careerSavegame"
    );
}

#[test]
fn savegame_url_for_vehicles_and_economy() {
    let endpoint = EndpointBuilder::new("example.com", "abc123").build();
    assert_eq!(
        endpoint.savegame(Filename::Vehicles),
        "http://example.com/feed/dedicated-server-savegame.html?code=abc123&file=vehicles"
    );
    assert_eq!(
        endpoint.savegame(Filename::Economy),
        "http://example.com/feed/dedicated-server-savegame.html?code=abc123&file=economy"
    );
}

#[test]
fn savegame_url_ignores_the_stats_format() {
    let json = EndpointBuilder::new("example.com", "c").build();
    let xml = EndpointBuilder::new("example.com", "c").format(Format::Xml).build();
    assert_eq!(json.savegame(Filename::Economy), xml.savegame(Filename::Economy));
}
