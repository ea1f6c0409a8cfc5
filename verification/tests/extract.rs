use sp2ytm::extract::{extract_first_match, locate_fragment, normalize_fragment, ExtractionError};

const START: &str = "initialData.push({path: '\\/search',";
const DATA: &str = "), data: '";
const END: &str = "'});ytcfg.set({'YTMUSIC_INITIAL_DATA'";

fn run_with_id(id: &str) -> String {
    format!(
        "{{\\x22navigationEndpoint\\x22:{{\\x22watchEndpoint\\x22:{{\\x22videoId\\x22:\\x22{}\\x22}}}}}}",
        id
    )
}

/// One shelf item with one flex column holding the given runs.
fn item_of(runs: &[String]) -> String {
    let joined = runs.join(",");
    let mut s = String::new();
    s.push_str("{\\x22musicResponsiveListItemRenderer\\x22:{\\x22flexColumns\\x22:[");
    s.push_str("{\\x22musicResponsiveListItemFlexColumnRenderer\\x22:{\\x22text\\x22:");
    s.push_str("{\\x22runs\\x22:[");
    s.push_str(&joined);
    s.push_str("]}}}");
    s.push_str("]}}");
    s
}

fn shelf_of(items: &[String]) -> String {
    let joined = items.join(",");
    let mut s = String::new();
    s.push_str("{\\x22musicShelfRenderer\\x22:{\\x22contents\\x22:[");
    s.push_str(&joined);
    s.push_str("]}}");
    s
}

fn fragment(second_shelf_items: &[String]) -> String {
    let first = shelf_of(&[item_of(&["{}".to_string()])]);
    let second = shelf_of(second_shelf_items);
    let mut s = String::new();
    s.push_str("{\\x22contents\\x22:{\\x22tabbedSearchResultsRenderer\\x22:{\\x22tabs\\x22:[");
    s.push_str("{\\x22tabRenderer\\x22:{\\x22content\\x22:{\\x22sectionListRenderer\\x22:");
    s.push_str("{\\x22contents\\x22:[");
    s.push_str(&first);
    s.push_str(",");
    s.push_str(&second);
    s.push_str("]}}}}");
    s.push_str("]}}}");
    s
}

fn body(frag: &str) -> Vec<u8> {
    format!("<html>junk {}{}{}{} trailing", START, DATA, frag, END).into_bytes()
}

#[test]
fn escaped_fragment_yields_the_identifier() {
    let raw = body(&fragment(&[item_of(&["{}".to_string(), run_with_id("vid-123")])]));
    assert_eq!(extract_first_match(&raw).unwrap(), Some("vid-123".to_string()));
}

#[test]
fn identifier_in_a_later_item_is_still_found() {
    // the single identifier sits in the shelf's second item
    let items = [
        item_of(&["{}".to_string()]),
        item_of(&[run_with_id("second-item")]),
    ];
    let raw = body(&fragment(&items));
    assert_eq!(extract_first_match(&raw).unwrap(), Some("second-item".to_string()));
}

#[test]
fn earlier_items_take_precedence() {
    let items = [
        item_of(&[run_with_id("first-item")]),
        item_of(&[run_with_id("second-item")]),
    ];
    let raw = body(&fragment(&items));
    assert_eq!(extract_first_match(&raw).unwrap(), Some("first-item".to_string()));
}

#[test]
fn fragment_without_identifier_is_absence_not_an_error() {
    let no_id = "{\\x22navigationEndpoint\\x22:{\\x22watchEndpoint\\x22:{}}}".to_string();
    let raw = body(&fragment(&[item_of(&["{}".to_string(), no_id])]));
    assert_eq!(extract_first_match(&raw).unwrap(), None);
}

#[test]
fn missing_markers_are_marker_not_found() {
    let frag = fragment(&[item_of(&[run_with_id("x")])]);
    let without_start = format!("{}{}{}", DATA, frag, END).into_bytes();
    assert!(matches!(
        extract_first_match(&without_start),
        Err(ExtractionError::MarkerNotFound)
    ));
    let without_data = format!("{}{}{}", START, frag, END).into_bytes();
    assert!(matches!(
        extract_first_match(&without_data),
        Err(ExtractionError::MarkerNotFound)
    ));
    let without_end = format!("{}{}{}", START, DATA, frag).into_bytes();
    assert!(matches!(
        extract_first_match(&without_end),
        Err(ExtractionError::MarkerNotFound)
    ));
}

#[test]
fn malformed_fragment_reports_the_offending_payload() {
    let raw = body("this is not json at all");
    match extract_first_match(&raw) {
        Err(ExtractionError::SchemaMismatch(payload)) => {
            assert_eq!(payload, b"this is not json at all".to_vec());
        }
        other => panic!("expected a schema mismatch, got Ok? {}", other.is_ok()),
    }
}

#[test]
fn wrong_shape_reports_the_normalized_payload() {
    // valid JSON, wrong schema: no tabs under the renderer
    let raw = body("{\\x22contents\\x22:{\\x22tabbedSearchResultsRenderer\\x22:{}}}");
    match extract_first_match(&raw) {
        Err(ExtractionError::SchemaMismatch(payload)) => {
            assert_eq!(
                String::from_utf8(payload).unwrap(),
                "{\"contents\":{\"tabbedSearchResultsRenderer\":{}}}"
            );
        }
        other => panic!("expected a schema mismatch, got Ok? {}", other.is_ok()),
    }
}

#[test]
fn locate_cuts_strictly_between_the_markers() {
    let raw = body("PAYLOAD");
    let frag = locate_fragment(&raw).unwrap();
    assert_eq!(frag, b"PAYLOAD".to_vec());
}

#[test]
fn normalization_rewrites_the_escaping_convention() {
    let raw = b"\\x22a\\x3db\\u003d\\u005bc\\u005d\\u007bd\\u007d\\\\e".to_vec();
    let out = normalize_fragment(&raw);
    assert_eq!(String::from_utf8(out).unwrap(), "\"a=b=[c]{d}\\e");
}

#[test]
fn replace_all_rewrites_every_occurrence_left_to_right() {
    let s = b"aaab".to_vec();
    let out = sp2ytm::bytes::replace_all(&s, &b"aa".to_vec(), &b"x".to_vec());
    assert_eq!(out, b"xab".to_vec());
    let grow = sp2ytm::bytes::replace_all(&b"abab".to_vec(), &b"b".to_vec(), &b"bb".to_vec());
    assert_eq!(grow, b"abbabb".to_vec());
}
