//! Extraction of a track identifier from a raw search response.
//!
//! The response is an HTML document with a JSON fragment embedded in a
//! script: the fragment sits between known literal markers, uses a
//! non-standard escaping convention that is rewritten to plain JSON,
//! and holds a deeply nested rendering tree that is walked along one
//! fixed path for the first concrete identifier.

use vstd::prelude::*;
use vstd::string::StringSliceAdditionalSpecFns;
use crate::bytes::{find_spec, replace_spec};

verus! {

/// How extraction can fail; a well-formed document without any
/// identifier is not a failure but an absent result.  A schema
/// mismatch carries the offending payload — the normalized fragment
/// that would not fit the expected shape — for diagnosis.
#[derive(Clone, Debug)]
pub enum ExtractionError {
    MarkerNotFound,
    SchemaMismatch(Vec<u8>),
}

pub open spec fn start_marker() -> Seq<u8> {
    "initialData.push({path: '\\/search',".spec_bytes()
}

pub open spec fn data_marker() -> Seq<u8> {
    "), data: '".spec_bytes()
}

pub open spec fn end_marker() -> Seq<u8> {
    "'});ytcfg.set({'YTMUSIC_INITIAL_DATA'".spec_bytes()
}

/// The embedded fragment: the bytes strictly between the first data
/// marker following the first start marker, and the first end marker
/// after that; `None` when any of the three is absent.
pub open spec fn locate_spec(raw: Seq<u8>) -> Option<Seq<u8>> {
    match find_spec(raw, start_marker(), 0) {
        None => None,
        Some(ia) => match find_spec(raw, data_marker(), ia + start_marker().len()) {
            None => None,
            Some(ib) => match find_spec(raw, end_marker(), ib + data_marker().len()) {
                None => None,
                Some(ic) => Some(raw.subrange(ib + data_marker().len(), ic)),
            },
        },
    }
}

/// Cut the embedded fragment out of the raw response body.
pub fn locate_fragment(raw: &Vec<u8>) -> (r: Result<Vec<u8>, ExtractionError>)
    ensures
        match r {
            Ok(f) => locate_spec(raw@) == Some(f@),
            Err(e) => e is MarkerNotFound && locate_spec(raw@) is None,
        },
{
    let _rl = raw.len();  // lets the prover bound raw@.len() by usize::MAX
    let ma = "initialData.push({path: '\\/search',".as_bytes_vec();
    let ia = match crate::bytes::find(raw, &ma, 0) {
        Some(i) => i,
        None => {
            return Err(ExtractionError::MarkerNotFound);
        },
    };
    let mb = "), data: '".as_bytes_vec();
    let ib = match crate::bytes::find(raw, &mb, ia + ma.len()) {
        Some(i) => i,
        None => {
            return Err(ExtractionError::MarkerNotFound);
        },
    };
    let mc = "'});ytcfg.set({'YTMUSIC_INITIAL_DATA'".as_bytes_vec();
    let ic = match crate::bytes::find(raw, &mc, ib + mb.len()) {
        Some(i) => i,
        None => {
            return Err(ExtractionError::MarkerNotFound);
        },
    };
    Ok(crate::bytes::copy_range(raw, ib + mb.len(), ic))
}

/// The fragment's escaping rewritten to plain JSON: `\x` hex escapes
/// become `\u00` escapes, the `\uXXXX` escapes of the structural
/// characters become those characters, and doubled backslashes
/// collapse, in that order.
pub open spec fn normalize_spec(s: Seq<u8>) -> Seq<u8> {
    let s1 = replace_spec(s, "\\x".spec_bytes(), "\\u00".spec_bytes());
    let s2 = replace_spec(s1, "\\u0022".spec_bytes(), "\"".spec_bytes());
    let s3 = replace_spec(s2, "\\u003d".spec_bytes(), "=".spec_bytes());
    let s4 = replace_spec(s3, "\\u005d".spec_bytes(), "]".spec_bytes());
    let s5 = replace_spec(s4, "\\u005b".spec_bytes(), "[".spec_bytes());
    let s6 = replace_spec(s5, "\\u007b".spec_bytes(), "{".spec_bytes());
    let s7 = replace_spec(s6, "\\u007d".spec_bytes(), "}".spec_bytes());
    replace_spec(s7, "\\\\".spec_bytes(), "\\".spec_bytes())
}

/// Rewrite the fragment's escaping to plain JSON.
pub fn normalize_fragment(frag: &Vec<u8>) -> (r: Vec<u8>)
    ensures
        r@ == normalize_spec(frag@),
{
    let s1 = crate::bytes::replace_all(frag, &"\\x".as_bytes_vec(), &"\\u00".as_bytes_vec());
    let s2 = crate::bytes::replace_all(&s1, &"\\u0022".as_bytes_vec(), &"\"".as_bytes_vec());
    let s3 = crate::bytes::replace_all(&s2, &"\\u003d".as_bytes_vec(), &"=".as_bytes_vec());
    let s4 = crate::bytes::replace_all(&s3, &"\\u005d".as_bytes_vec(), &"]".as_bytes_vec());
    let s5 = crate::bytes::replace_all(&s4, &"\\u005b".as_bytes_vec(), &"[".as_bytes_vec());
    let s6 = crate::bytes::replace_all(&s5, &"\\u007b".as_bytes_vec(), &"{".as_bytes_vec());
    let s7 = crate::bytes::replace_all(&s6, &"\\u007d".as_bytes_vec(), &"}".as_bytes_vec());
    crate::bytes::replace_all(&s7, &"\\\\".as_bytes_vec(), &"\\".as_bytes_vec())
}

#[verifier::external_type_specification]
#[verifier::external_body]
pub struct ExValue(serde_json::Value);

#[verifier::external_type_specification]
#[verifier::external_body]
pub struct ExJsonError(serde_json::Error);

/// Relies on serde_json's `from_slice`: parse the bytes as one JSON
/// value.  Whether they parse, and to what, is opaque here; the walk
/// below works for every answer.
#[verifier::external_body]
fn json_parse(bytes: &Vec<u8>) -> Result<serde_json::Value, serde_json::Error> {
    serde_json::from_slice(bytes.as_slice())
}

/// Relies on serde_json's `Value::get`: the named member of an object,
/// `None` for other values or absent keys.
#[verifier::external_body]
fn json_get<'a>(v: &'a serde_json::Value, key: &str) -> Option<&'a serde_json::Value> {
    v.get(key)
}

/// Relies on serde_json's `Value::as_array`.
#[verifier::external_body]
fn json_as_array<'a>(v: &'a serde_json::Value) -> Option<&'a Vec<serde_json::Value>> {
    v.as_array()
}

/// Relies on serde_json's `Value::as_str`.
#[verifier::external_body]
fn json_as_str<'a>(v: &'a serde_json::Value) -> Option<&'a str> {
    v.as_str()
}

/// The identifier a watch endpoint points at.
pub struct WatchEndpoint {
    pub video_id: String,
}

/// Where a text run navigates to, when it navigates anywhere concrete.
pub struct NavigationEndpoint {
    pub watch_endpoint: Option<WatchEndpoint>,
}

/// One text run of a flex column.
pub struct TextRun {
    pub navigation_endpoint: Option<NavigationEndpoint>,
}

/// One flex column of a shelf item.
pub struct FlexColumn {
    pub runs: Vec<TextRun>,
}

/// One item of a music shelf.
pub struct ShelfItem {
    pub flex_columns: Vec<FlexColumn>,
}

/// One music shelf of a section listing.
pub struct Shelf {
    pub items: Vec<ShelfItem>,
}

/// One tab of the tabbed search results.
pub struct Tab {
    pub sections: Vec<Shelf>,
}

/// The rendering tree of one search response.
pub struct Contents {
    pub tabs: Vec<Tab>,
}

/// The identifier a run carries, if it navigates to a watchable item.
pub open spec fn run_video_id(r: TextRun) -> Option<String> {
    match r.navigation_endpoint {
        Some(ne) => match ne.watch_endpoint {
            Some(we) => Some(we.video_id),
            None => None,
        },
        None => None,
    }
}

/// The first identifier among a column's runs.
pub open spec fn first_id_in_runs(runs: Seq<TextRun>) -> Option<String>
    decreases runs.len(),
{
    if runs.len() == 0 {
        None
    } else if run_video_id(runs[0]) is Some {
        run_video_id(runs[0])
    } else {
        first_id_in_runs(runs.skip(1))
    }
}

/// The first identifier among an item's columns, scanned in order.
pub open spec fn first_id_in_columns(cols: Seq<FlexColumn>) -> Option<String>
    decreases cols.len(),
{
    if cols.len() == 0 {
        None
    } else if first_id_in_runs(cols[0].runs@) is Some {
        first_id_in_runs(cols[0].runs@)
    } else {
        first_id_in_columns(cols.skip(1))
    }
}

/// The first identifier among a column's runs.
fn scan_runs(runs: &Vec<TextRun>) -> (r: Option<String>)
    ensures
        r == first_id_in_runs(runs@),
{
    let mut k: usize = 0;
    proof {
        assert(runs@.skip(0) =~= runs@);
    }
    while k < runs.len()
        invariant
            k <= runs@.len(),
            first_id_in_runs(runs@) == first_id_in_runs(runs@.skip(k as int)),
        decreases runs@.len() - k,
    {
        proof {
            assert(runs@.skip(k as int)[0] == runs@[k as int]);
            assert(runs@.skip(k as int).skip(1) =~= runs@.skip(k + 1 as int));
        }
        match &runs[k].navigation_endpoint {
            Some(ne) => match &ne.watch_endpoint {
                Some(we) => {
                    return Some(we.video_id.clone());
                },
                None => {},
            },
            None => {},
        }
        k += 1;
    }
    None
}

/// The first identifier among an item's columns.
fn scan_columns(cols: &Vec<FlexColumn>) -> (r: Option<String>)
    ensures
        r == first_id_in_columns(cols@),
{
    let mut k: usize = 0;
    proof {
        assert(cols@.skip(0) =~= cols@);
    }
    while k < cols.len()
        invariant
            k <= cols@.len(),
            first_id_in_columns(cols@) == first_id_in_columns(cols@.skip(k as int)),
        decreases cols@.len() - k,
    {
        proof {
            assert(cols@.skip(k as int)[0] == cols@[k as int]);
            assert(cols@.skip(k as int).skip(1) =~= cols@.skip(k + 1 as int));
        }
        match scan_runs(&cols[k].runs) {
            Some(id) => {
                return Some(id);
            },
            None => {},
        }
        k += 1;
    }
    None
}

/// The first identifier among a shelf's items, each item's columns
/// scanned in order.
pub open spec fn first_id_in_items(items: Seq<ShelfItem>) -> Option<String>
    decreases items.len(),
{
    if items.len() == 0 {
        None
    } else if first_id_in_columns(items[0].flex_columns@) is Some {
        first_id_in_columns(items[0].flex_columns@)
    } else {
        first_id_in_items(items.skip(1))
    }
}

/// Walk the fixed path into the tree — first tab, second section,
/// first shelf — and scan each item's flex columns, in order, for the
/// first run with a concrete identifier.  An empty expected container
/// is a structural error; a complete walk that finds no identifier is
/// an absent result the caller skips over.
pub fn get_video_id(contents: &Contents) -> (r: Result<Option<String>, ExtractionError>)
    ensures
        match r {
            Ok(o) => contents.tabs@.len() > 0 && contents.tabs@[0].sections@.len() > 1
                && contents.tabs@[0].sections@[1].items@.len() > 0 && o == first_id_in_items(
                contents.tabs@[0].sections@[1].items@,
            ),
            Err(e) => e is SchemaMismatch && (contents.tabs@.len() == 0
                || contents.tabs@[0].sections@.len() <= 1
                || contents.tabs@[0].sections@[1].items@.len() == 0),
        },
{
    if contents.tabs.len() == 0 {
        return Err(ExtractionError::SchemaMismatch(Vec::new()));
    }
    let tab = &contents.tabs[0];
    if tab.sections.len() <= 1 {
        return Err(ExtractionError::SchemaMismatch(Vec::new()));
    }
    let shelf = &tab.sections[1];
    if shelf.items.len() == 0 {
        return Err(ExtractionError::SchemaMismatch(Vec::new()));
    }
    let items = &shelf.items;
    let mut k: usize = 0;
    proof {
        assert(items@.skip(0) =~= items@);
    }
    while k < items.len()
        invariant
            k <= items@.len(),
            contents.tabs@.len() > 0,
            contents.tabs@[0].sections@.len() > 1,
            contents.tabs@[0].sections@[1].items@.len() > 0,
            items@ == contents.tabs@[0].sections@[1].items@,
            first_id_in_items(items@) == first_id_in_items(items@.skip(k as int)),
        decreases items@.len() - k,
    {
        proof {
            assert(items@.skip(k as int)[0] == items@[k as int]);
            assert(items@.skip(k as int).skip(1) =~= items@.skip(k + 1 as int));
        }
        match scan_columns(&items[k].flex_columns) {
            Some(id) => {
                return Ok(Some(id));
            },
            None => {},
        }
        k += 1;
    }
    Ok(None)
}

/// Build a navigation endpoint from its JSON object.  An endpoint
/// without a concrete string identifier counts as not navigating to a
/// watchable item: absence, never an error, at this level of the scan.
fn parse_navigation(v: &serde_json::Value) -> NavigationEndpoint {
    match json_get(v, "watchEndpoint") {
        None => NavigationEndpoint { watch_endpoint: None },
        Some(wv) => match json_get(wv, "videoId") {
            None => NavigationEndpoint { watch_endpoint: None },
            Some(iv) => match json_as_str(iv) {
                None => NavigationEndpoint { watch_endpoint: None },
                Some(s) => NavigationEndpoint {
                    watch_endpoint: Some(WatchEndpoint { video_id: s.to_owned() }),
                },
            },
        },
    }
}

/// Build one text run from its JSON object.
fn parse_run(v: &serde_json::Value) -> Option<TextRun> {
    match json_get(v, "navigationEndpoint") {
        None => Some(TextRun { navigation_endpoint: None }),
        Some(nv) => Some(TextRun { navigation_endpoint: Some(parse_navigation(nv)) }),
    }
}

/// Build one flex column from its JSON object.
fn parse_column(v: &serde_json::Value) -> Option<FlexColumn> {
    let cv = json_get(v, "musicResponsiveListItemFlexColumnRenderer")?;
    let tv = json_get(cv, "text")?;
    let rv = json_get(tv, "runs")?;
    let arr = json_as_array(rv)?;
    let mut runs: Vec<TextRun> = Vec::new();
    let mut k: usize = 0;
    while k < arr.len()
        invariant
            k <= arr@.len(),
        decreases arr@.len() - k,
    {
        match parse_run(&arr[k]) {
            None => {
                return None;
            },
            Some(r) => runs.push(r),
        }
        k += 1;
    }
    Some(FlexColumn { runs })
}

/// Build one shelf item from its JSON object.
fn parse_item(v: &serde_json::Value) -> Option<ShelfItem> {
    let iv = json_get(v, "musicResponsiveListItemRenderer")?;
    let fv = json_get(iv, "flexColumns")?;
    let arr = json_as_array(fv)?;
    let mut flex_columns: Vec<FlexColumn> = Vec::new();
    let mut k: usize = 0;
    while k < arr.len()
        invariant
            k <= arr@.len(),
        decreases arr@.len() - k,
    {
        match parse_column(&arr[k]) {
            None => {
                return None;
            },
            Some(c) => flex_columns.push(c),
        }
        k += 1;
    }
    Some(ShelfItem { flex_columns })
}

/// Build one music shelf from its JSON object.
fn parse_shelf(v: &serde_json::Value) -> Option<Shelf> {
    let sv = json_get(v, "musicShelfRenderer")?;
    let cv = json_get(sv, "contents")?;
    let arr = json_as_array(cv)?;
    let mut items: Vec<ShelfItem> = Vec::new();
    let mut k: usize = 0;
    while k < arr.len()
        invariant
            k <= arr@.len(),
        decreases arr@.len() - k,
    {
        match parse_item(&arr[k]) {
            None => {
                return None;
            },
            Some(i) => items.push(i),
        }
        k += 1;
    }
    Some(Shelf { items })
}

/// Build one tab from its JSON object.
fn parse_tab(v: &serde_json::Value) -> Option<Tab> {
    let tv = json_get(v, "tabRenderer")?;
    let cv = json_get(tv, "content")?;
    let lv = json_get(cv, "sectionListRenderer")?;
    let sv = json_get(lv, "contents")?;
    let arr = json_as_array(sv)?;
    let mut sections: Vec<Shelf> = Vec::new();
    let mut k: usize = 0;
    while k < arr.len()
        invariant
            k <= arr@.len(),
        decreases arr@.len() - k,
    {
        match parse_shelf(&arr[k]) {
            None => {
                return None;
            },
            Some(s) => sections.push(s),
        }
        k += 1;
    }
    Some(Tab { sections })
}

/// Build the whole rendering tree from the parsed JSON value; `None`
/// when the value does not match the expected schema.
pub fn parse_search_tree(v: &serde_json::Value) -> Option<Contents> {
    let cv = json_get(v, "contents")?;
    let rv = json_get(cv, "tabbedSearchResultsRenderer")?;
    let tv = json_get(rv, "tabs")?;
    let arr = json_as_array(tv)?;
    let mut tabs: Vec<Tab> = Vec::new();
    let mut k: usize = 0;
    while k < arr.len()
        invariant
            k <= arr@.len(),
        decreases arr@.len() - k,
    {
        match parse_tab(&arr[k]) {
            None => {
                return None;
            },
            Some(t) => tabs.push(t),
        }
        k += 1;
    }
    Some(Contents { tabs })
}

/// Extract the first identifier from a raw search response body: cut
/// the fragment out of the markers, rewrite its escaping, parse it,
/// and walk the tree.  Absent markers are a typed error; a schema
/// deviation is a typed error carrying the offending normalized
/// payload; a well-formed tree without any identifier is `Ok(None)`
/// and the caller skips the track.
pub fn extract_first_match(raw: &Vec<u8>) -> (r: Result<Option<String>, ExtractionError>)
    ensures
        match r {
            Ok(_) => locate_spec(raw@) is Some,
            Err(e) => match e {
                ExtractionError::MarkerNotFound => locate_spec(raw@) is None,
                ExtractionError::SchemaMismatch(p) => locate_spec(raw@) matches Some(f) && p@
                    == normalize_spec(f),
            },
        },
{
    let frag = match locate_fragment(raw) {
        Ok(f) => f,
        Err(e) => {
            return Err(e);
        },
    };
    let normalized = normalize_fragment(&frag);
    let value = match json_parse(&normalized) {
        Ok(v) => v,
        Err(_) => {
            return Err(ExtractionError::SchemaMismatch(normalized));
        },
    };
    let tree = match parse_search_tree(&value) {
        None => {
            return Err(ExtractionError::SchemaMismatch(normalized));
        },
        Some(t) => t,
    };
    match get_video_id(&tree) {
        Ok(found) => Ok(found),
        Err(_) => Err(ExtractionError::SchemaMismatch(normalized)),
    }
}

} // verus!
