//! Tests for page values, uploader definitions, and the legacy plain-text
//! endpoints.

use sxfs::config::Config;
use sxfs::database::{Link, UploadMetadata};
use sxfs::guard::auth::Auth;
use sxfs::id::ID;
use sxfs::paths;
use sxfs::templates::{IndexTemplate, ShortenerTemplate, UploaderTemplate};

fn config(https: bool, upload_domain: Option<&str>) -> Config {
    Config {
        name: "testsite".to_string(),
        powered_by: false,
        https,
        domain: "files.example.com".to_string(),
        upload_domain: upload_domain.map(|d| d.to_string()),
        upload_token: "SECRET-REDACTED".to_string(),
        users: vec![],
    }
}

#[test]
fn uploader_template_uses_config_values() {
    let cfg = config(true, Some("up.example.com"));
    let t = UploaderTemplate::new(&cfg);
    assert_eq!(t.name, "testsite");
    assert_eq!(t.domain, "files.example.com");
    assert_eq!(t.upload_domain, "up.example.com");
    assert_eq!(t.upload_token, cfg.upload_token);
    assert_eq!(t.proto, "https");
}

#[test]
fn uploader_template_falls_back_to_domain() {
    let cfg = config(false, None);
    let t = UploaderTemplate::new(&cfg);
    assert_eq!(t.upload_domain, "files.example.com");
    assert_eq!(t.proto, "http");
}

#[test]
fn shortener_template_uses_config_values() {
    let cfg = config(false, None);
    let t = ShortenerTemplate::new(&cfg);
    assert_eq!(t.name, "testsite");
    assert_eq!(t.domain, "files.example.com");
    assert_eq!(t.upload_token, cfg.upload_token);
    assert_eq!(t.proto, "http");
}

fn meta(size: u64) -> UploadMetadata {
    UploadMetadata {
        id: ID::new(),
        filename: "f".to_string(),
        size,
        timestamp: 0,
    }
}

fn listing(hits: u32) -> (Link, u32) {
    (
        Link {
            id: ID::new(),
            uri: "https://example.com".to_string(),
            timestamp: 0,
        },
        hits,
    )
}

#[test]
fn index_template_counts_everything() {
    let uploads = vec![meta(10), meta(20), meta(30)];
    let links = vec![listing(5), listing(7)];
    let t = IndexTemplate::new(config(true, None), &uploads, &links).unwrap();
    assert_eq!(t.upload_count, 3);
    assert_eq!(t.space_count, 60);
    assert_eq!(t.link_count, 2);
    assert_eq!(t.total_hits, 12);
}

#[test]
fn index_template_reports_overflow() {
    let uploads = vec![meta(u64::MAX), meta(1)];
    let links = vec![];
    assert!(IndexTemplate::new(config(true, None), &uploads, &links).is_none());

    let uploads = vec![];
    let links = vec![listing(u32::MAX), listing(1)];
    assert!(IndexTemplate::new(config(true, None), &uploads, &links).is_none());
}

#[test]
fn legacy_paths_render_fixed_text() {
    assert_eq!(
        paths::view_upload("shot.png".to_string()),
        "FILE\n\nFILENAME: \"shot.png\""
    );
    assert_eq!(
        paths::view_upload("a/b.png".to_string()),
        "FILE\n\nFILENAME: \"a/b.png\""
    );
    let auth = Auth::UploadToken("t".to_string());
    assert_eq!(paths::make_upload(&auth), "you will upload");
    assert_eq!(
        paths::redirect_short_url("abc".to_string()),
        "URL REDIRECT\n\nID: abc"
    );
}
