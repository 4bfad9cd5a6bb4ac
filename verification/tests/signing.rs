use hdfs_proxy_tui::request::{
    extract_filename_from_url, extract_path_and_host_from_url, listing_outcome, sign,
    status_is_success, text_outcome,
};
use hdfs_proxy_tui::state::{FetchError, FetchOutcome, Item};

#[test]
fn sign_is_deterministic_with_fixed_clock() {
    let a = sign("GET", "/a/b/", "account-1", "secret-1", 1700000000);
    let b = sign("GET", "/a/b/", "account-1", "secret-1", 1700000000);
    assert_eq!(a, b);
    // A different timestamp gives a different token, so a different digest.
    let c = sign("GET", "/a/b/", "account-1", "secret-1", 1700000001);
    assert_ne!(a, c);
}

#[test]
fn sign_matches_known_hmac_sha1_value() {
    // Computed independently: HMAC-SHA1 over "1700000000,alice,GET,/a/"
    // with key "sekrit", hex-encoded.
    let header = sign("GET", "/a/", "alice", "sekrit", 1700000000);
    assert_eq!(
        header,
        "1700000000,alice,36b3933859fe994e5d0c0b787bb4b73f5ff45882"
    );
}

#[test]
fn sign_header_shape() {
    let header = sign("GET", "/p", "acc", "", 7);
    // "{ts},{account},{40 hex digits}" even with an empty secret.
    assert_eq!(header.len(), "7,acc,".len() + 40);
    assert!(header.starts_with("7,acc,"));
    let digest = &header["7,acc,".len()..];
    assert!(digest.chars().all(|c| c.is_ascii_hexdigit() && !c.is_ascii_uppercase()));
}

#[test]
fn splits_host_and_path() {
    let (host, path) = extract_path_and_host_from_url("http://localhost:7878/Users/march1917/");
    assert_eq!(host, "localhost:7878");
    assert_eq!(path, "/Users/march1917/");

    let (host, path) = extract_path_and_host_from_url("https://example.com/x");
    assert_eq!(host, "example.com");
    assert_eq!(path, "/x");

    let (host, path) = extract_path_and_host_from_url("example.com");
    assert_eq!(host, "example.com");
    assert_eq!(path, "/");
}

#[test]
fn extracts_filename_with_separator() {
    assert_eq!(extract_filename_from_url("http://h/a/f1.txt"), "/f1.txt");
    assert_eq!(extract_filename_from_url("/a/"), "/");
}

#[test]
fn classifies_status_codes() {
    assert!(status_is_success(200));
    assert!(status_is_success(204));
    assert!(!status_is_success(199));
    assert!(!status_is_success(300));
    assert!(!status_is_success(404));
    assert!(!status_is_success(500));
}

#[test]
fn listing_outcome_maps_failures() {
    let items = vec![Item { name: String::from("f"), size: 3 }];
    match listing_outcome(200, Some(items)) {
        FetchOutcome::Listing(rows) => {
            assert_eq!(rows.len(), 1);
            assert_eq!(rows[0].name, "f");
            assert_eq!(rows[0].size, 3);
        }
        _ => panic!("expected a listing"),
    }
    match listing_outcome(500, Some(Vec::new())) {
        FetchOutcome::Failed(FetchError::Transport) => {}
        _ => panic!("expected a transport failure"),
    }
    match listing_outcome(200, None) {
        FetchOutcome::Failed(FetchError::Decode) => {}
        _ => panic!("expected a decode failure"),
    }
}

#[test]
fn text_outcome_maps_failures() {
    match text_outcome(200, String::from("hello")) {
        FetchOutcome::Text(t) => assert_eq!(t, "hello"),
        _ => panic!("expected text"),
    }
    match text_outcome(404, String::from("missing")) {
        FetchOutcome::Failed(FetchError::Transport) => {}
        _ => panic!("expected a transport failure"),
    }
}
