use boardgame_tracker::bgg::{
    parse_search_xml, parse_thing_xml, parse_thumbnails_xml, search_url, thing_url,
    thumbnails_url, MAX_BATCH_THUMBNAILS,
};

const SEARCH_XML: &str = r#"<?xml version="1.0" encoding="utf-8"?>
<items total="3">
  <item type="boardgame" id="13">
    <name type="primary" value="Catan"/>
    <yearpublished value="1995"/>
  </item>
  <item type="boardgameexpansion" id="926">
    <name type="alternate" value="Siedler"/>
    <name type="primary" value="Catan: Seafarers"/>
  </item>
  <item type="boardgame" id="99">
    <name type="alternate" value="No primary name"/>
  </item>
</items>"#;

#[test]
fn search_results_keep_items_with_a_primary_name() {
    let r = parse_search_xml(SEARCH_XML);
    assert_eq!(r.len(), 2);
    assert_eq!(r[0].bgg_id, 13);
    assert_eq!(r[0].name, "Catan");
    assert_eq!(r[0].year_published, Some(1995));
    assert!(!r[0].is_expansion);
    assert_eq!(r[0].thumbnail_url, None);
    assert_eq!(r[1].bgg_id, 926);
    assert_eq!(r[1].name, "Catan: Seafarers");
    assert_eq!(r[1].year_published, None);
    assert!(r[1].is_expansion);
}

#[test]
fn search_of_garbage_gives_nothing() {
    assert!(parse_search_xml("not xml at all <<<").is_empty());
    assert!(parse_search_xml("").is_empty());
}

#[test]
fn thumbnails_are_paired_with_their_ids() {
    let xml = r#"<items>
      <item type="boardgame" id="13"><thumbnail>https://cf.example/ab.jpg</thumbnail></item>
      <item type="boardgame" id="14"></item>
      <item type="boardgame" id="x"><thumbnail>ignored</thumbnail></item>
    </items>"#;
    let r = parse_thumbnails_xml(xml);
    assert_eq!(r.len(), 2);
    assert_eq!(r[0], (13, Some("https://cf.example/ab.jpg".to_string())));
    assert_eq!(r[1], (14, None));
}

const THING_XML: &str = r#"<items>
  <item type="boardgameexpansion" id="926">
    <thumbnail>https://cf.example/t.jpg</thumbnail>
    <image>https://cf.example/i.jpg</image>
    <name type="primary" sortindex="1" value="Catan: Seafarers"/>
    <description>Sail and settle</description>
    <yearpublished value="1997"/>
    <minplayers value="3"/>
    <maxplayers value="4"/>
    <minplaytime value="60"/>
    <maxplaytime value="90"/>
    <minage value="10"/>
    <link type="boardgamedesigner" id="11" value="Klaus Teuber"/>
    <link type="boardgameartist" id="12" value="Volkan Baga"/>
    <link type="boardgameartist" id="13" value="Tanja Donner"/>
    <link type="boardgameexpansion" id="13" value="Catan" inbound="true"/>
    <statistics><ratings><average value="7.1"/><averageweight value="2.5"/></ratings></statistics>
  </item>
</items>"#;

#[test]
fn thing_details_are_read() {
    let d = parse_thing_xml(THING_XML).expect("an item");
    assert_eq!(d.bgg_id, 926);
    assert_eq!(d.name, "Catan: Seafarers");
    assert!(d.is_expansion);
    assert_eq!(d.year_published, Some(1997));
    assert_eq!(d.min_players, Some(3));
    assert_eq!(d.max_players, Some(4));
    assert_eq!(d.min_playtime, Some(60));
    assert_eq!(d.max_playtime, Some(90));
    assert_eq!(d.min_age, Some(10));
    assert_eq!(d.designers.as_deref(), Some("Klaus Teuber"));
    assert_eq!(d.artists.as_deref(), Some("Volkan Baga, Tanja Donner"));
    assert_eq!(d.thumbnail_url.as_deref(), Some("https://cf.example/t.jpg"));
    assert_eq!(d.image_url.as_deref(), Some("https://cf.example/i.jpg"));
    assert_eq!(d.description.as_deref(), Some("Sail and settle"));
    assert_eq!(d.base_game_bgg_id, Some(13));
    assert_eq!(d.average_rating_text.as_deref(), Some("7.1"));
    assert_eq!(d.weight_text.as_deref(), Some("2.5"));
}

#[test]
fn thing_without_item_is_none() {
    assert!(parse_thing_xml("<items></items>").is_none());
}

#[test]
fn urls_are_built_for_the_api() {
    assert_eq!(
        search_url("Ticket to Ride & more"),
        "https://boardgamegeek.com/xmlapi2/search?query=Ticket%20to%20Ride%20%26%20more&type=boardgame,boardgameexpansion"
    );
    assert_eq!(thing_url(174430), "https://boardgamegeek.com/xmlapi2/thing?id=174430&stats=1");
    assert_eq!(thumbnails_url(&vec![]), None);
    assert_eq!(
        thumbnails_url(&vec![1, 2, 3]).as_deref(),
        Some("https://boardgamegeek.com/xmlapi2/thing?id=1,2,3&stats=1")
    );
}

#[test]
fn thumbnail_batches_stop_at_twenty_ids() {
    let ids: Vec<i64> = (1..=25).collect();
    let url = thumbnails_url(&ids).unwrap();
    let list = url
        .trim_start_matches("https://boardgamegeek.com/xmlapi2/thing?id=")
        .trim_end_matches("&stats=1");
    assert_eq!(list.split(',').count(), MAX_BATCH_THUMBNAILS);
    assert!(list.ends_with(",20"));
}

#[test]
fn descriptions_keep_the_text_around_references() {
    let xml = r#"<items><item type="boardgame" id="5">
      <name type="primary" value="Acquire"/>
      <description>
        Buy &amp; merge hotels.&#10;&#10;Plays in 90 minutes &lt;ish&gt;.
      </description>
      <thumbnail> https://cf.example/a.jpg </thumbnail>
    </item></items>"#;
    let d = parse_thing_xml(xml).expect("an item");
    assert_eq!(d.description.as_deref(), Some("Buy & merge hotels.\n\nPlays in 90 minutes <ish>."));
    assert_eq!(d.thumbnail_url.as_deref(), Some("https://cf.example/a.jpg"));
}
