use vstd::prelude::*;

verus! {

/// Immutable per-provider credentials, owned for the whole run and passed
/// by reference into the components that need them.
#[derive(Clone)]
pub struct Env {
    pub google_client_id: String,
    pub google_client_secret: String,
    pub spotify_client_id: String,
    pub spotify_client_secret: String,
}

} // verus!
