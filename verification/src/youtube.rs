//! Request bodies and headers for the destination service's mutation
//! calls.  The HTTP transport sits outside the library; these builders
//! pin the exact bytes it sends.

use vstd::prelude::*;
use vstd::string::StringSliceAdditionalSpecFns;
use crate::encode::json_escaped;

verus! {

/// The create-playlist request body: one snippet carrying the title,
/// and no identifier yet.
pub open spec fn create_playlist_body(name: Seq<u8>) -> Seq<u8> {
    "{\"snippet\":{\"title\":\"".spec_bytes() + json_escaped(name) + "\"},\"id\":null}".spec_bytes()
}

/// Build the request body that creates the destination playlist named
/// `name`.  Sending it, and reading the created playlist's identifier
/// out of the answer, happen outside the library.
pub fn create_playlist(name: &str) -> (r: Vec<u8>)
    ensures
        r@ == create_playlist_body(name.spec_bytes()),
{
    let mut out = "{\"snippet\":{\"title\":\"".as_bytes_vec();
    let name_bytes = name.as_bytes_vec();
    crate::encode::json_escape_onto(&mut out, &name_bytes);
    let tail = "\"},\"id\":null}".as_bytes_vec();
    crate::bytes::push_all(&mut out, &tail);
    out
}

/// The insert-track request body: the playlist to insert into and the
/// fixed-kind resource to insert.
pub open spec fn insert_track_body(playlist_id: Seq<u8>, video_id: Seq<u8>) -> Seq<u8> {
    "{\"snippet\":{\"playlistId\":\"".spec_bytes() + json_escaped(playlist_id)
        + "\",\"resourceId\":{\"kind\":\"youtube#video\",\"videoId\":\"".spec_bytes()
        + json_escaped(video_id) + "\"}}}".spec_bytes()
}

/// Build the request body that inserts the resolved track into the
/// destination playlist.
pub fn insert_track(playlist_id: &str, resource_id: &str) -> (r: Vec<u8>)
    ensures
        r@ == insert_track_body(playlist_id.spec_bytes(), resource_id.spec_bytes()),
{
    let mut out = "{\"snippet\":{\"playlistId\":\"".as_bytes_vec();
    let pid = playlist_id.as_bytes_vec();
    crate::encode::json_escape_onto(&mut out, &pid);
    let mid = "\",\"resourceId\":{\"kind\":\"youtube#video\",\"videoId\":\"".as_bytes_vec();
    crate::bytes::push_all(&mut out, &mid);
    let vid = resource_id.as_bytes_vec();
    crate::encode::json_escape_onto(&mut out, &vid);
    let tail = "\"}}}".as_bytes_vec();
    crate::bytes::push_all(&mut out, &tail);
    out
}

/// Decide whether a mutation call's HTTP status reports success.  Any
/// other status is a network failure, and the first one aborts the
/// whole migration.
pub fn mutation_succeeded(status: u16) -> (r: bool)
    ensures
        r == (200 <= status < 300),
{
    200 <= status && status < 300
}

/// The bearer-authorization header value for a granted access token.
pub open spec fn bearer_auth_spec(token: Seq<char>) -> Seq<u8> {
    "Bearer ".spec_bytes() + vstd::utf8::encode_utf8(token)
}

/// Build the authorization header value carrying the access token.
pub fn bearer_auth_value(token: &str) -> (r: Vec<u8>)
    ensures
        r@ == bearer_auth_spec(token@),
{
    let mut out = "Bearer ".as_bytes_vec();
    let tok = token.as_bytes_vec();
    crate::bytes::push_all(&mut out, &tok);
    out
}

} // verus!
