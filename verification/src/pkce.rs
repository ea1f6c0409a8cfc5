//! PKCE verifier/challenge generation.
//!
//! The challenge is the base64 form of the SHA-256 digest of the
//! verifier, with `=` padding stripped.  A result containing `+` or `/`
//! is rejected and the verifier regenerated, rather than substituting
//! characters.

use vstd::prelude::*;
use sha2::Digest;

verus! {

/// The SHA-256 digest of a byte string: a fixed function of the input
/// alone, left unspecified here.
pub uninterp spec fn sha256_of(input: Seq<u8>) -> Seq<u8>;

/// The base64 form (standard alphabet, `=`-padded) of a byte string: a
/// fixed function of the input alone, left unspecified here.
pub uninterp spec fn base64_of(input: Seq<u8>) -> Seq<u8>;

/// Relies on sha2's `Sha256::digest`: a 32-byte digest that depends on
/// the input bytes alone.
#[verifier::external_body]
fn sha256(input: &Vec<u8>) -> (r: Vec<u8>)
    ensures
        r@ == sha256_of(input@),
        r@.len() == 32,
{
    sha2::Sha256::digest(input.as_slice()).to_vec()
}

/// Relies on base64's `encode`: the standard-alphabet, padded encoding,
/// depending on the input bytes alone.
#[verifier::external_body]
pub(crate) fn base64_encode(input: &Vec<u8>) -> (r: Vec<u8>)
    ensures
        r@ == base64_of(input@),
{
    base64::encode(input.as_slice()).into_bytes()
}

/// Relies on rand's `Alphanumeric` distribution: each sampled byte is an
/// ASCII letter or digit.
#[verifier::external_body]
pub fn random_alphanumeric(len: usize) -> (r: Vec<u8>)
    ensures
        r@.len() == len,
        forall|i: int| 0 <= i < r@.len() ==> is_alphanumeric_byte(r@[i]),
{
    rand::Rng::sample_iter(rand::thread_rng(), rand::distributions::Alphanumeric).take(
        len,
    ).collect()
}

pub open spec fn is_alphanumeric_byte(b: u8) -> bool {
    (0x30 <= b <= 0x39) || (0x41 <= b <= 0x5a) || (0x61 <= b <= 0x7a)
}

/// `s` with every `=` removed.
pub open spec fn strip_padding(s: Seq<u8>) -> Seq<u8>
    decreases s.len(),
{
    if s.len() == 0 {
        Seq::empty()
    } else if s.last() == 0x3d {
        strip_padding(s.drop_last())
    } else {
        strip_padding(s.drop_last()).push(s.last())
    }
}

/// The challenge derived from a verifier: base64 of its SHA-256 digest,
/// padding stripped.
pub open spec fn challenge_of(verifier: Seq<u8>) -> Seq<u8> {
    strip_padding(base64_of(sha256_of(verifier)))
}

/// Same verifier, same challenge: the derivation is deterministic.
pub proof fn lemma_challenge_deterministic(v1: Seq<u8>, v2: Seq<u8>)
    requires
        v1 == v2,
    ensures
        challenge_of(v1) == challenge_of(v2),
{
}

/// Strip the `=` padding from a base64 byte string.
pub fn strip_eq(s: &Vec<u8>) -> (r: Vec<u8>)
    ensures
        r@ == strip_padding(s@),
        forall|i: int| 0 <= i < r@.len() ==> #[trigger] r@[i] != 0x3d && s@.contains(r@[i]),
{
    let mut r: Vec<u8> = Vec::new();
    let mut k: usize = 0;
    while k < s.len()
        invariant
            k <= s@.len(),
            r@ == strip_padding(s@.take(k as int)),
            forall|i: int| 0 <= i < r@.len() ==> #[trigger] r@[i] != 0x3d && s@.contains(r@[i]),
        decreases s@.len() - k,
    {
        let ghost pre = s@.take(k as int);
        proof {
            assert(s@.take(k + 1 as int).drop_last() =~= pre);
            assert(s@.take(k + 1 as int).last() == s@[k as int]);
            assert(s@.contains(s@[k as int]));
        }
        if s[k] != 0x3d {
            r.push(s[k]);
        }
        k += 1;
    }
    proof {
        assert(s@.take(s@.len() as int) =~= s@);
    }
    r
}

/// Derive the challenge for a given verifier.  Returns `None` when the
/// base64 digest contains `+` or `/`, which this flow rejects instead of
/// rewriting; the caller then draws a fresh verifier.
pub fn derive_challenge(verifier: &Vec<u8>) -> (r: Option<Vec<u8>>)
    ensures
        match r {
            Some(c) => c@ == challenge_of(verifier@) && !base64_of(sha256_of(verifier@)).contains(
                0x2b,
            ) && !base64_of(sha256_of(verifier@)).contains(0x2f) && forall|i: int|
                0 <= i < c@.len() ==> #[trigger] c@[i] != 0x3d && c@[i] != 0x2b && c@[i] != 0x2f,
            None => base64_of(sha256_of(verifier@)).contains(0x2b) || base64_of(
                sha256_of(verifier@),
            ).contains(0x2f),
        },
{
    let digest = sha256(verifier);
    let encoded = base64_encode(&digest);
    if crate::bytes::contains_byte(&encoded, 0x2b) || crate::bytes::contains_byte(&encoded, 0x2f) {
        return None;
    }
    let challenge = strip_eq(&encoded);
    Some(challenge)
}

/// Generate a PKCE verifier and its challenge.  The verifier is 96
/// alphanumeric bytes; the challenge is its derived value and never
/// contains `+`, `/` or `=`.  A digest whose base64 form carries `+` or
/// `/` is discarded and a fresh verifier drawn; `None` is returned only
/// if every one of a large number of draws was discarded.
pub fn generate_code() -> (r: Option<(Vec<u8>, Vec<u8>)>)
    ensures
        match r {
            Some(p) => {
                &&& p.0@.len() == 96
                &&& forall|i: int| 0 <= i < p.0@.len() ==> is_alphanumeric_byte(p.0@[i])
                &&& p.1@ == challenge_of(p.0@)
                &&& forall|i: int|
                    0 <= i < p.1@.len() ==> #[trigger] p.1@[i] != 0x3d && p.1@[i] != 0x2b
                        && p.1@[i] != 0x2f
            },
            None => true,
        },
{
    let mut tries: u32 = 0;
    while tries < 4096
        invariant
            true,
        decreases 4096 - tries,
    {
        let verifier = random_alphanumeric(96);
        let maybe = derive_challenge(&verifier);
        match maybe {
            Some(challenge) => {
                return Some((verifier, challenge));
            },
            None => {},
        }
        tries += 1;
    }
    None
}

/// One authorization attempt's PKCE material: generated once, used once.
pub struct PkceSession {
    pub verifier: Vec<u8>,
    pub challenge: Vec<u8>,
    pub state: Vec<u8>,
    pub redirect_port: u16,
}

impl PkceSession {
    /// The challenge matches the verifier and carries no `+`, `/` or `=`;
    /// the state token is at least 16 bytes.
    pub open spec fn wf(self) -> bool {
        &&& self.challenge@ == challenge_of(self.verifier@)
        &&& self.verifier@.len() >= 43
        &&& self.state@.len() >= 16
        &&& forall|i: int|
            0 <= i < self.challenge@.len() ==> #[trigger] self.challenge@[i] != 0x3d
                && self.challenge@[i] != 0x2b && self.challenge@[i] != 0x2f
    }

    /// Fresh PKCE material for one authorization attempt: a new verifier
    /// and challenge, a 32-byte random state token, and the redirect port.
    /// `None` only when `generate_code` exhausted its draws.
    pub fn generate(redirect_port: u16) -> (s: Option<PkceSession>)
        ensures
            match s {
                Some(s) => s.wf() && s.redirect_port == redirect_port && s.state@.len() == 32
                    && s.verifier@.len() == 96,
                None => true,
            },
    {
        match generate_code() {
            Some((verifier, challenge)) => {
                let state = random_alphanumeric(32);
                Some(PkceSession { verifier, challenge, state, redirect_port })
            },
            None => None,
        }
    }
}

} // verus!
