use sp2ytm::migrate::plan_insertions;
use sp2ytm::paged::{get_playlist, Artist, TrackResponse};
use sp2ytm::youtube::{bearer_auth_value, create_playlist, insert_track};

#[test]
fn road_trip_scenario_inserts_one_and_skips_one() {
    // source playlist as fetched
    let raw = vec![
        TrackResponse {
            name: "Song A".to_string(),
            artists: vec![Artist { name: "Band X".to_string() }],
        },
        TrackResponse { name: "Song B".to_string(), artists: vec![] },
    ];
    let playlist = get_playlist("Road Trip".to_string(), &raw);
    assert_eq!(playlist.name, "Road Trip");

    // destination playlist created under the same name
    let body = create_playlist(&playlist.name);
    assert_eq!(
        String::from_utf8(body).unwrap(),
        "{\"snippet\":{\"title\":\"Road Trip\"},\"id\":null}"
    );

    // "Song A" resolves, "Song B" finds nothing and is skipped
    let found = vec![Some("id-a".to_string()), None];
    let (ids, report) = plan_insertions(&found);
    assert_eq!(ids, vec!["id-a".to_string()]);
    assert_eq!(report.inserted, 1);
    assert_eq!(report.skipped, 1);
}

#[test]
fn insertions_keep_source_order() {
    let found = vec![
        Some("one".to_string()),
        None,
        Some("two".to_string()),
        Some("three".to_string()),
        None,
    ];
    let (ids, report) = plan_insertions(&found);
    assert_eq!(ids, vec!["one".to_string(), "two".to_string(), "three".to_string()]);
    assert_eq!(report.inserted, 3);
    assert_eq!(report.skipped, 2);
}

#[test]
fn empty_resolution_reports_nothing() {
    let (ids, report) = plan_insertions(&vec![]);
    assert!(ids.is_empty());
    assert_eq!(report.inserted, 0);
    assert_eq!(report.skipped, 0);
}

#[test]
fn insert_body_and_bearer_header_are_exact() {
    let body = insert_track("PL123", "vid456");
    let mut expected = String::new();
    expected.push_str("{\"snippet\":{\"playlistId\":\"PL123\",");
    expected.push_str("\"resourceId\":{\"kind\":\"youtube#video\",\"videoId\":\"vid456\"}}}");
    assert_eq!(String::from_utf8(body).unwrap(), expected);
    assert_eq!(String::from_utf8(bearer_auth_value("tok")).unwrap(), "Bearer tok");
}

#[test]
fn playlist_title_is_json_escaped() {
    let body = create_playlist("a\"b\\c");
    assert_eq!(
        String::from_utf8(body).unwrap(),
        "{\"snippet\":{\"title\":\"a\\\"b\\\\c\"},\"id\":null}"
    );
}
