//! Tests for the authorization gate, the identifier generator, and the
//! remaining request guards.

use std::collections::HashSet;

use sxfs::codec;
use sxfs::config::Config;
use sxfs::generate::generate_base64;
use sxfs::guard::auth::{authorize, Auth, AuthOutcome};
use sxfs::guard::content::{parse_content_length, ContentLength};
use sxfs::id::ID;
use sxfs::uri::is_valid_uri_reference;
use sxfs::user::User;

fn config() -> Config {
    Config {
        name: "testsite".to_string(),
        powered_by: true,
        https: true,
        domain: "files.example.com".to_string(),
        upload_domain: None,
        upload_token: "SECRET-REDACTED".to_string(),
        users: vec![
            User {
                username: "alice".to_string(),
                password: "secret".to_string(),
            },
            User {
                username: "bob".to_string(),
                password: "hunter2".to_string(),
            },
        ],
    }
}

fn cookie_for(name: &str, pwd: &str) -> String {
    codec::encode(format!("{}:{}", name, pwd).as_bytes())
}

#[test]
fn token_header_matching_secret_authenticates() {
    let cfg = config();
    let header = cfg.upload_token.clone();
    let r = authorize(Some(&header), None, &cfg);
    match r {
        AuthOutcome::Authenticated(Auth::UploadToken(t)) => assert_eq!(t, cfg.upload_token),
        other => panic!("expected token auth, got {:?}", other),
    }
}

#[test]
fn token_header_with_wrong_value_rejects() {
    let cfg = config();
    let header = "wrong-token".to_string();
    assert_eq!(authorize(Some(&header), None, &cfg), AuthOutcome::Reject);
}

#[test]
fn matching_cookie_authenticates_user() {
    let cfg = config();
    let cookie = cookie_for("alice", "secret");
    let r = authorize(None, Some(&cookie), &cfg);
    match r {
        AuthOutcome::Authenticated(Auth::User(u)) => {
            assert_eq!(u.username, "alice");
            assert_eq!(u.password, "secret");
        },
        other => panic!("expected user auth, got {:?}", other),
    }
}

#[test]
fn header_takes_precedence_over_cookie() {
    let cfg = config();
    let header = "wrong-token".to_string();
    let cookie = cookie_for("alice", "secret");
    assert_eq!(
        authorize(Some(&header), Some(&cookie), &cfg),
        AuthOutcome::Reject
    );
}

#[test]
fn malformed_cookie_rejects() {
    let cfg = config();
    let cookie = "not-valid-base64".to_string();
    assert_eq!(authorize(None, Some(&cookie), &cfg), AuthOutcome::Reject);
    let cookie = "!!!".to_string();
    assert_eq!(authorize(None, Some(&cookie), &cfg), AuthOutcome::Reject);
    // Well-formed base64 of a payload without any colon.
    let cookie = codec::encode(b"alicesecret");
    assert_eq!(authorize(None, Some(&cookie), &cfg), AuthOutcome::Reject);
}

#[test]
fn unknown_user_cookie_rejects() {
    let cfg = config();
    let cookie = cookie_for("alice", "wrong");
    assert_eq!(authorize(None, Some(&cookie), &cfg), AuthOutcome::Reject);
    let cookie = cookie_for("mallory", "secret");
    assert_eq!(authorize(None, Some(&cookie), &cfg), AuthOutcome::Reject);
}

#[test]
fn no_credentials_is_anonymous() {
    let cfg = config();
    assert_eq!(authorize(None, None, &cfg), AuthOutcome::Anonymous);
}

#[test]
fn password_may_contain_colons() {
    let mut cfg = config();
    cfg.users.push(User {
        username: "carol".to_string(),
        password: "a:b:c".to_string(),
    });
    let cookie = cookie_for("carol", "a:b:c");
    match authorize(None, Some(&cookie), &cfg) {
        AuthOutcome::Authenticated(Auth::User(u)) => {
            assert_eq!(u.username, "carol");
            assert_eq!(u.password, "a:b:c");
        },
        other => panic!("expected user auth, got {:?}", other),
    }
}

#[test]
fn login_mints_a_cookie_the_gate_accepts() {
    let cfg = config();
    let alice = User {
        username: "alice".to_string(),
        password: "secret".to_string(),
    };
    let cookie = sxfs::routes::auth::login_submit(&cfg, &alice).unwrap();
    assert_eq!(cookie, cookie_for("alice", "secret"));
    match authorize(None, Some(&cookie), &cfg) {
        AuthOutcome::Authenticated(Auth::User(u)) => {
            assert_eq!(u.username, "alice");
            assert_eq!(u.password, "secret");
        },
        other => panic!("expected user auth, got {:?}", other),
    }
}

#[test]
fn login_refuses_unknown_users() {
    let cfg = config();
    let mallory = User {
        username: "alice".to_string(),
        password: "guess".to_string(),
    };
    assert_eq!(sxfs::routes::auth::login_submit(&cfg, &mallory), None);
}

#[test]
fn generated_ids_are_distinct_under_load() {
    let mut seen: HashSet<[u8; 16]> = HashSet::new();
    for _ in 0..10_000 {
        let id = ID::new();
        assert!(seen.insert(*id.as_bytes()), "identifier collision");
    }
    assert_eq!(seen.len(), 10_000);
}

#[test]
fn generate_base64_has_length_and_alphabet() {
    let s = generate_base64(100);
    assert_eq!(s.len(), 100);
    assert!(s
        .chars()
        .all(|c| c.is_ascii_alphanumeric() || c == '-' || c == '_'));
    assert_eq!(generate_base64(25).len(), 24);
    assert_eq!(generate_base64(0).len(), 0);
}

#[test]
fn content_length_parses_digits_only() {
    assert_eq!(parse_content_length("0"), Some(ContentLength(0)));
    assert_eq!(parse_content_length("1048576"), Some(ContentLength(1_048_576)));
    assert_eq!(parse_content_length(""), None);
    assert_eq!(parse_content_length("12a"), None);
    assert_eq!(parse_content_length("-5"), None);
    assert_eq!(parse_content_length("99999999999999999999999999"), None);
}

#[test]
fn uri_validation_cases() {
    assert!(is_valid_uri_reference("https://example.com/path?q=1#frag"));
    assert!(is_valid_uri_reference("mailto:someone@example.com"));
    assert!(is_valid_uri_reference("/just/a/path"));
    assert!(is_valid_uri_reference("a-b.c+d:rest"));
    assert!(is_valid_uri_reference("%41%42"));
    assert!(!is_valid_uri_reference("has space"));
    assert!(!is_valid_uri_reference("percent%2"));
    assert!(!is_valid_uri_reference("percent%zz"));
    assert!(!is_valid_uri_reference(":nocolonprefix"));
    assert!(!is_valid_uri_reference("9scheme:rest"));
    assert!(!is_valid_uri_reference("bad^char"));
}
