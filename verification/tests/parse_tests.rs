use track_search::model::parse;

fn parses(body: &str) -> bool {
    parse(body.as_bytes()).is_ok()
}

#[test]
fn valid_single_track_parses() {
    let body = r#"{"tracks":{"items":[{"name":"Song A","href":"http://api.example/t1","popularity":42,"album":{"name":"Album X","artists":[{"name":"Artist1","external_urls":{"spotify":"http://sp/art1"}}],"external_urls":{"spotify":"http://sp/album1"}},"external_urls":{"spotify":"http://sp/track1"}}]}}"#;
    let resp = parse(body.as_bytes()).expect("well-formed response must parse");
    assert_eq!(resp.tracks.items.len(), 1);
    let t = &resp.tracks.items[0];
    assert_eq!(t.name, "Song A");
    assert_eq!(t.href, "http://api.example/t1");
    assert_eq!(t.popularity, 42);
    assert_eq!(t.album.name, "Album X");
    assert_eq!(t.album.artists.len(), 1);
    assert_eq!(t.album.artists[0].name, "Artist1");
    assert_eq!(t.album.artists[0].external_urls.spotify, "http://sp/art1");
    assert_eq!(t.album.external_urls.spotify, "http://sp/album1");
    assert_eq!(t.external_urls.spotify, "http://sp/track1");
}

#[test]
fn empty_items_parses_to_zero_tracks() {
    let resp = parse(br#"{"tracks":{"items":[]}}"#).expect("empty items must parse");
    assert_eq!(resp.tracks.items.len(), 0);
}

#[test]
fn extra_fields_are_ignored() {
    let body = r#"{"other":1,"tracks":{"limit":20,"items":[{"name":"S","href":"h","popularity":0,"extra":null,"album":{"name":"A","artists":[{"name":"N","external_urls":{"spotify":"u"}}],"external_urls":{"spotify":"u"}},"external_urls":{"spotify":"u"}}]}}"#;
    assert!(parses(body));
}

#[test]
fn malformed_json_is_rejected() {
    assert!(parse(b"{\"tracks\":").is_err());
    assert!(parse(b"not json at all").is_err());
    assert!(parse(b"").is_err());
}

#[test]
fn missing_tracks_field_is_rejected() {
    assert!(!parses(r#"{"albums":{"items":[]}}"#));
    assert!(!parses(r#"{}"#));
}

#[test]
fn missing_items_field_is_rejected() {
    assert!(!parses(r#"{"tracks":{"total":0}}"#));
}

#[test]
fn items_of_wrong_type_is_rejected() {
    assert!(!parses(r#"{"tracks":{"items":{"a":1}}}"#));
}

#[test]
fn track_missing_popularity_is_rejected() {
    let body = r#"{"tracks":{"items":[{"name":"S","href":"h","album":{"name":"A","artists":[{"name":"N","external_urls":{"spotify":"u"}}],"external_urls":{"spotify":"u"}},"external_urls":{"spotify":"u"}}]}}"#;
    assert!(!parses(body));
}

#[test]
fn popularity_of_wrong_type_is_rejected() {
    let body = r#"{"tracks":{"items":[{"name":"S","href":"h","popularity":"42","album":{"name":"A","artists":[{"name":"N","external_urls":{"spotify":"u"}}],"external_urls":{"spotify":"u"}},"external_urls":{"spotify":"u"}}]}}"#;
    assert!(!parses(body));
}

#[test]
fn negative_popularity_is_rejected() {
    let body = r#"{"tracks":{"items":[{"name":"S","href":"h","popularity":-1,"album":{"name":"A","artists":[{"name":"N","external_urls":{"spotify":"u"}}],"external_urls":{"spotify":"u"}},"external_urls":{"spotify":"u"}}]}}"#;
    assert!(!parses(body));
}

#[test]
fn fractional_popularity_is_rejected() {
    let body = r#"{"tracks":{"items":[{"name":"S","href":"h","popularity":4.5,"album":{"name":"A","artists":[{"name":"N","external_urls":{"spotify":"u"}}],"external_urls":{"spotify":"u"}},"external_urls":{"spotify":"u"}}]}}"#;
    assert!(!parses(body));
}

#[test]
fn oversized_popularity_is_rejected() {
    let body = r#"{"tracks":{"items":[{"name":"S","href":"h","popularity":4294967296,"album":{"name":"A","artists":[{"name":"N","external_urls":{"spotify":"u"}}],"external_urls":{"spotify":"u"}},"external_urls":{"spotify":"u"}}]}}"#;
    assert!(!parses(body));
}

#[test]
fn track_missing_external_urls_is_rejected() {
    let body = r#"{"tracks":{"items":[{"name":"S","href":"h","popularity":1,"album":{"name":"A","artists":[{"name":"N","external_urls":{"spotify":"u"}}],"external_urls":{"spotify":"u"}}}]}}"#;
    assert!(!parses(body));
}

#[test]
fn external_urls_without_spotify_field_is_rejected() {
    let body = r#"{"tracks":{"items":[{"name":"S","href":"h","popularity":1,"album":{"name":"A","artists":[{"name":"N","external_urls":{"spotify":"u"}}],"external_urls":{"spotify":"u"}},"external_urls":{"web":"u"}}]}}"#;
    assert!(!parses(body));
}

#[test]
fn album_with_empty_artists_is_rejected() {
    let body = r#"{"tracks":{"items":[{"name":"S","href":"h","popularity":1,"album":{"name":"A","artists":[],"external_urls":{"spotify":"u"}},"external_urls":{"spotify":"u"}}]}}"#;
    assert!(!parses(body));
}

#[test]
fn artist_missing_name_is_rejected() {
    let body = r#"{"tracks":{"items":[{"name":"S","href":"h","popularity":1,"album":{"name":"A","artists":[{"external_urls":{"spotify":"u"}}],"external_urls":{"spotify":"u"}},"external_urls":{"spotify":"u"}}]}}"#;
    assert!(!parses(body));
}

#[test]
fn one_bad_track_rejects_the_whole_document() {
    let good = r#"{"name":"S","href":"h","popularity":1,"album":{"name":"A","artists":[{"name":"N","external_urls":{"spotify":"u"}}],"external_urls":{"spotify":"u"}},"external_urls":{"spotify":"u"}}"#;
    let body = format!(r#"{{"tracks":{{"items":[{good},{{"name":"bad"}}]}}}}"#);
    assert!(!parses(&body));
}
