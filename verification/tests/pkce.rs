use sha2::Digest;
use sp2ytm::pkce;

fn expected_challenge(verifier: &[u8]) -> Option<Vec<u8>> {
    let digest = sha2::Sha256::digest(verifier);
    let encoded = base64::encode(digest.as_slice());
    if encoded.contains('+') || encoded.contains('/') {
        return None;
    }
    Some(encoded.replace('=', "").into_bytes())
}

#[test]
fn challenge_matches_reference_derivation() {
    // a verifier whose digest's base64 form happens to be clean
    let mut v: Vec<u8> = b"abcdefghijklmnopqrstuvwxyz0123456789".to_vec();
    let mut found = false;
    for salt in 0u8..=255 {
        v.push(salt);
        match (pkce::derive_challenge(&v), expected_challenge(&v)) {
            (Some(got), Some(want)) => {
                assert_eq!(got, want);
                found = true;
            }
            (None, None) => {}
            (got, want) => panic!("disagree: ours {:?} reference {:?}", got, want),
        }
        v.pop();
    }
    assert!(found, "no clean digest among 256 salts is implausible");
}

#[test]
fn challenge_is_deterministic() {
    let v: Vec<u8> = b"a-fixed-verifier-value-for-this-test".to_vec();
    let a = pkce::derive_challenge(&v);
    let b = pkce::derive_challenge(&v);
    assert_eq!(a, b);
}

#[test]
fn generated_challenge_has_no_forbidden_characters() {
    for _ in 0..8 {
        let (verifier, challenge) = pkce::generate_code().expect("generation exhausted");
        assert_eq!(verifier.len(), 96);
        assert!(verifier.iter().all(|b| b.is_ascii_alphanumeric()));
        assert!(!challenge.contains(&b'+'));
        assert!(!challenge.contains(&b'/'));
        assert!(!challenge.contains(&b'='));
        assert_eq!(Some(challenge.clone()), expected_challenge(&verifier));
    }
}

#[test]
fn session_carries_fresh_material() {
    let s = pkce::PkceSession::generate(4321).expect("generation exhausted");
    assert_eq!(s.redirect_port, 4321);
    assert_eq!(s.verifier.len(), 96);
    assert_eq!(s.state.len(), 32);
    assert!(s.state.iter().all(|b| b.is_ascii_alphanumeric()));
    assert_eq!(Some(s.challenge.clone()), expected_challenge(&s.verifier));
}
