//! Cursor-based pagination over a source playlist, and the assembly of
//! the playlist from the fetched pages.
//!
//! The network hands back one page per rate-limited call: some tracks
//! and an optional cursor to the next page.  The drain walks the cursor
//! chain iteratively, keeps the tracks in response order, and fails on
//! a dangling or cyclic cursor instead of looping.

use vstd::prelude::*;
use vstd::string::StringSliceAdditionalSpecFns;

verus! {

/// One artist credited on a track.
#[derive(Debug)]
pub struct Artist {
    pub name: String,
}

/// One track as the source service reports it.
#[derive(Debug)]
pub struct TrackResponse {
    pub name: String,
    pub artists: Vec<Artist>,
}

/// One page of a paginated track listing: its items and the cursor of
/// the next page, if any.
#[derive(Debug)]
pub struct Page {
    pub items: Vec<TrackResponse>,
    pub next: Option<usize>,
}

/// Fetch failures: the first error aborts the whole drain and partial
/// results are discarded.
#[derive(Clone, Copy, PartialEq, Eq, Structural, Debug)]
pub enum FetchError {
    DanglingCursor,
    CursorCycle,
}

/// What a track is, as a value: its title and its credited artists.
/// Copies of a track share this model even where the copies' backing
/// vectors are distinct.
pub open spec fn track_model(t: TrackResponse) -> (String, Seq<Artist>) {
    (t.name, t.artists@)
}

/// The models of a track listing, in order.
pub open spec fn items_model(items: Seq<TrackResponse>) -> Seq<(String, Seq<Artist>)> {
    items.map_values(|t: TrackResponse| track_model(t))
}

/// The tracks collected along the cursor chain from page `i`, in
/// response order, together with the number of pages visited; `None`
/// when the chain dangles, or visits more than `fuel` pages and so
/// must repeat one.
pub open spec fn chain(pages: Seq<Page>, i: int, fuel: nat) -> Option<
    (Seq<(String, Seq<Artist>)>, nat),
>
    decreases fuel,
{
    if i < 0 || i >= pages.len() || fuel == 0 {
        None
    } else {
        match pages[i].next {
            None => Some((items_model(pages[i].items@), 1nat)),
            Some(j) => match chain(pages, j as int, (fuel - 1) as nat) {
                None => None,
                Some(rest) => Some(
                    (items_model(pages[i].items@) + rest.0, (rest.1 + 1) as nat),
                ),
            },
        }
    }
}

/// Prepend already-drained tracks and already-made calls to the rest of
/// a chain.
pub open spec fn chain_extend(
    acc: Seq<(String, Seq<Artist>)>,
    visited: nat,
    o: Option<(Seq<(String, Seq<Artist>)>, nat)>,
) -> Option<(Seq<(String, Seq<Artist>)>, nat)> {
    match o {
        None => None,
        Some(rest) => Some((acc + rest.0, (visited + rest.1) as nat)),
    }
}

/// Copy of one artist.
fn clone_artist(a: &Artist) -> (r: Artist)
    ensures
        r == *a,
{
    Artist { name: a.name.clone() }
}

/// Copy of one track, equal to the original as a value.
fn clone_track(t: &TrackResponse) -> (r: TrackResponse)
    ensures
        track_model(r) == track_model(*t),
{
    let mut artists: Vec<Artist> = Vec::new();
    let mut k: usize = 0;
    while k < t.artists.len()
        invariant
            k <= t.artists@.len(),
            artists@ == t.artists@.take(k as int),
        decreases t.artists@.len() - k,
    {
        artists.push(clone_artist(&t.artists[k]));
        proof {
            assert(t.artists@.take(k + 1 as int) =~= t.artists@.take(k as int).push(
                t.artists@[k as int],
            ));
        }
        k += 1;
    }
    proof {
        assert(t.artists@.take(t.artists@.len() as int) =~= t.artists@);
    }
    TrackResponse { name: t.name.clone(), artists }
}

/// Appending one track appends its model.
proof fn lemma_items_model_push(s: Seq<TrackResponse>, t: TrackResponse)
    ensures
        items_model(s.push(t)) =~= items_model(s).push(track_model(t)),
{
    assert(forall|i: int| 0 <= i < s.len() ==> #[trigger] s.push(t)[i] == s[i]);
    assert(s.push(t)[s.len() as int] == t);
}

/// Append copies of all of `xs` to `acc`.
fn append_tracks(acc: &mut Vec<TrackResponse>, xs: &Vec<TrackResponse>)
    ensures
        items_model(final(acc)@) == items_model(old(acc)@) + items_model(xs@),
{
    let ghost start = acc@;
    let mut k: usize = 0;
    proof {
        assert(items_model(start) + items_model(xs@.take(0)) =~= items_model(start));
    }
    while k < xs.len()
        invariant
            k <= xs@.len(),
            items_model(acc@) == items_model(start) + items_model(xs@.take(k as int)),
        decreases xs@.len() - k,
    {
        let ghost acc0 = acc@;
        let copied = clone_track(&xs[k]);
        let ghost cm = track_model(copied);
        acc.push(copied);
        proof {
            lemma_items_model_push(acc0, acc@[acc@.len() - 1]);
            assert(cm == track_model(xs@[k as int]));
            assert(xs@.take(k + 1 as int) =~= xs@.take(k as int).push(xs@[k as int]));
            lemma_items_model_push(xs@.take(k as int), xs@[k as int]);
            assert(items_model(start) + items_model(xs@.take(k as int)).push(cm) =~= (
            items_model(start) + items_model(xs@.take(k as int))).push(cm));
            assert(items_model(acc@) == items_model(start) + items_model(
                xs@.take(k + 1 as int),
            ));
        }
        k += 1;
    }
    proof {
        assert(xs@.take(xs@.len() as int) =~= xs@);
    }
}

/// Drain the whole cursor chain starting at page `start`: all tracks in
/// response order and the number of rate-limited calls that produced
/// them.  Errs exactly when the chain dangles or cycles; partial
/// results are discarded.
pub fn get_playlist_next(pages: &Vec<Page>, start: usize) -> (r: Result<
    (Vec<TrackResponse>, usize),
    FetchError,
>)
    ensures
        match r {
            Ok(p) => chain(pages@, start as int, pages@.len() as nat) == Some(
                (items_model(p.0@), p.1 as nat),
            ),
            Err(_) => chain(pages@, start as int, pages@.len() as nat) is None,
        },
{
    let _pl = pages.len();  // lets the prover bound pages@.len() by usize::MAX
    let mut acc: Vec<TrackResponse> = Vec::new();
    let mut visited: usize = 0;
    let mut cur: usize = start;
    proof {
        let whole = chain(pages@, start as int, pages@.len() as nat);
        if whole is Some {
            assert(items_model(acc@) + whole->Some_0.0 =~= whole->Some_0.0);
        }
    }
    loop
        invariant
            visited <= pages@.len(),
            pages@.len() <= usize::MAX,
            chain(pages@, start as int, pages@.len() as nat) == chain_extend(
                items_model(acc@),
                visited as nat,
                chain(pages@, cur as int, (pages@.len() - visited) as nat),
            ),
        decreases pages@.len() - visited,
    {
        let ghost fuel = (pages@.len() - visited) as nat;
        if cur >= pages.len() {
            return Err(FetchError::DanglingCursor);
        }
        if visited >= pages.len() {
            return Err(FetchError::CursorCycle);
        }
        let next = match pages[cur].next {
            None => None,
            Some(j) => Some(j),
        };
        let ghost acc0 = items_model(acc@);
        append_tracks(&mut acc, &pages[cur].items);
        match next {
            None => {
                return Ok((acc, visited + 1));
            },
            Some(j) => {
                proof {
                    let rest = chain(pages@, j as int, (fuel - 1) as nat);
                    if rest is Some {
                        assert(acc0 + (items_model(pages@[cur as int].items@) + rest->Some_0.0)
                            =~= (acc0 + items_model(pages@[cur as int].items@))
                            + rest->Some_0.0);
                    }
                }
                visited += 1;
                cur = j;
            },
        }
    }
}

/// One track of the assembled playlist: its title and its first
/// credited artist, empty when no artist is known.
#[derive(Debug)]
pub struct PlaylistTrack {
    pub name: String,
    pub artist: String,
}

/// The assembled source playlist, immutable once built.
#[derive(Debug)]
pub struct Playlist {
    pub tracks: Vec<PlaylistTrack>,
    pub name: String,
}

/// The name of the first credited artist, or empty.
pub open spec fn first_artist_name(t: TrackResponse) -> Seq<char> {
    if t.artists@.len() > 0 {
        t.artists@[0].name@
    } else {
        Seq::empty()
    }
}

/// Assemble the playlist from its fetched name and raw track listing:
/// every track keeps its title and position, and carries its first
/// credited artist (empty when the listing names none).
pub fn get_playlist(name: String, raw_tracks: &Vec<TrackResponse>) -> (p: Playlist)
    ensures
        p.name == name,
        p.tracks@.len() == raw_tracks@.len(),
        forall|i: int|
            0 <= i < raw_tracks@.len() ==> #[trigger] p.tracks@[i].name == raw_tracks@[i].name
                && p.tracks@[i].artist@ == first_artist_name(raw_tracks@[i]),
{
    let mut tracks: Vec<PlaylistTrack> = Vec::new();
    let mut k: usize = 0;
    while k < raw_tracks.len()
        invariant
            k <= raw_tracks@.len(),
            tracks@.len() == k,
            forall|i: int|
                0 <= i < k ==> #[trigger] tracks@[i].name == raw_tracks@[i].name
                    && tracks@[i].artist@ == first_artist_name(raw_tracks@[i]),
        decreases raw_tracks@.len() - k,
    {
        let t = &raw_tracks[k];
        let artist = if t.artists.len() > 0 {
            t.artists[0].name.clone()
        } else {
            String::new()
        };
        tracks.push(PlaylistTrack { name: t.name.clone(), artist });
        proof {
            assert(tracks@[k as int].name == raw_tracks@[k as int].name);
            assert(tracks@[k as int].artist@ == first_artist_name(raw_tracks@[k as int]));
        }
        k += 1;
    }
    Playlist { tracks, name }
}

/// The HTTP basic-authorization header value for the source service's
/// client-credentials login: `Basic` followed by the base64 form of
/// `client_id:client_secret`.
pub open spec fn basic_auth_spec(client_id: Seq<char>, client_secret: Seq<char>) -> Seq<u8> {
    "Basic ".spec_bytes() + crate::pkce::base64_of(
        vstd::utf8::encode_utf8(client_id) + ":".spec_bytes() + vstd::utf8::encode_utf8(
            client_secret,
        ),
    )
}

/// Build the authorization header value for the login-token request.
/// The request itself is plain I/O outside the library.
pub fn login_auth_header(env: &crate::env::Env) -> (r: Vec<u8>)
    ensures
        r@ == basic_auth_spec(env.spotify_client_id@, env.spotify_client_secret@),
{
    let mut raw = env.spotify_client_id.as_str().as_bytes_vec();
    let sep = ":".as_bytes_vec();
    crate::bytes::push_all(&mut raw, &sep);
    let secret = env.spotify_client_secret.as_str().as_bytes_vec();
    crate::bytes::push_all(&mut raw, &secret);
    let encoded = crate::pkce::base64_encode(&raw);
    let mut out = "Basic ".as_bytes_vec();
    crate::bytes::push_all(&mut out, &encoded);
    out
}

} // verus!
