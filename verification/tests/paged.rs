use sp2ytm::paged::{get_playlist, get_playlist_next, Artist, FetchError, Page, TrackResponse};

fn track(name: &str, artists: &[&str]) -> TrackResponse {
    TrackResponse {
        name: name.to_string(),
        artists: artists.iter().map(|a| Artist { name: a.to_string() }).collect(),
    }
}

#[test]
fn three_pages_drain_in_order_with_three_calls() {
    let pages = vec![
        Page { items: vec![track("A", &[]), track("B", &[])], next: Some(1) },
        Page { items: vec![track("C", &[])], next: Some(2) },
        Page { items: vec![track("D", &[]), track("E", &[])], next: None },
    ];
    let (tracks, calls) = get_playlist_next(&pages, 0).expect("drain failed");
    let names: Vec<&str> = tracks.iter().map(|t| t.name.as_str()).collect();
    assert_eq!(names, vec!["A", "B", "C", "D", "E"]);
    assert_eq!(calls, 3);
}

#[test]
fn single_page_drains_with_one_call() {
    let pages = vec![Page { items: vec![track("only", &["x"])], next: None }];
    let (tracks, calls) = get_playlist_next(&pages, 0).expect("drain failed");
    assert_eq!(tracks.len(), 1);
    assert_eq!(tracks[0].name, "only");
    assert_eq!(calls, 1);
}

#[test]
fn dangling_cursor_is_an_error() {
    let pages = vec![Page { items: vec![track("A", &[])], next: Some(7) }];
    assert_eq!(get_playlist_next(&pages, 0).unwrap_err(), FetchError::DanglingCursor);
    assert_eq!(get_playlist_next(&pages, 3).unwrap_err(), FetchError::DanglingCursor);
}

#[test]
fn cursor_cycle_is_an_error_not_a_hang() {
    let pages = vec![
        Page { items: vec![track("A", &[])], next: Some(1) },
        Page { items: vec![track("B", &[])], next: Some(0) },
    ];
    assert_eq!(get_playlist_next(&pages, 0).unwrap_err(), FetchError::CursorCycle);
}

#[test]
fn playlist_takes_first_artist_or_empty() {
    let raw = vec![
        track("Song A", &["Band X", "Band Y"]),
        track("Song B", &[]),
    ];
    let p = get_playlist("Road Trip".to_string(), &raw);
    assert_eq!(p.name, "Road Trip");
    assert_eq!(p.tracks.len(), 2);
    assert_eq!(p.tracks[0].name, "Song A");
    assert_eq!(p.tracks[0].artist, "Band X");
    assert_eq!(p.tracks[1].name, "Song B");
    assert_eq!(p.tracks[1].artist, "");
}
