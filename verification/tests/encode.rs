use sp2ytm::env::Env;
use sp2ytm::paged::login_auth_header;

#[test]
fn basic_auth_header_matches_reference_encoding() {
    let env = Env {
        google_client_id: String::new(),
        google_client_secret: String::new(),
        spotify_client_id: "my-id".to_string(),
        spotify_client_secret: "my-secret".to_string(),
    };
    let header = login_auth_header(&env);
    let expected = format!("Basic {}", base64::encode("my-id:my-secret"));
    assert_eq!(String::from_utf8(header).unwrap(), expected);
}

#[test]
fn find_reports_the_first_occurrence() {
    let h = b"one two two three".to_vec();
    assert_eq!(sp2ytm::bytes::find(&h, &b"two".to_vec(), 0), Some(4));
    assert_eq!(sp2ytm::bytes::find(&h, &b"two".to_vec(), 5), Some(8));
    assert_eq!(sp2ytm::bytes::find(&h, &b"four".to_vec(), 0), None);
}

#[test]
fn byte_helpers_behave() {
    assert!(sp2ytm::bytes::bytes_eq(&b"abc".to_vec(), &b"abc".to_vec()));
    assert!(!sp2ytm::bytes::bytes_eq(&b"abc".to_vec(), &b"abd".to_vec()));
    assert!(sp2ytm::bytes::contains_byte(&b"abc".to_vec(), b'b'));
    assert!(!sp2ytm::bytes::contains_byte(&b"abc".to_vec(), b'z'));
    assert_eq!(sp2ytm::bytes::copy_range(&b"abcdef".to_vec(), 2, 5), b"cde".to_vec());
}
