//! Tests for the upload and link stores against a real in-memory database.

use sxfs::database::{Link, LinkTable, StoreError, UploadMetadata, UploadTable};
use sxfs::id::ID;
use sxfs::routes::link;
use sxfs::routes::upload;

fn upload_store() -> UploadTable {
    let mut t = UploadTable::open_memory().unwrap();
    t.ensure_schema().unwrap();
    t
}

fn link_store() -> LinkTable {
    let mut t = LinkTable::open_memory().unwrap();
    t.ensure_schema().unwrap();
    t
}

#[test]
fn ensure_schema_is_idempotent() {
    let mut t = upload_store();
    t.ensure_schema().unwrap();
    t.ensure_schema().unwrap();
    let mut l = link_store();
    l.ensure_schema().unwrap();
    l.ensure_schema().unwrap();
}

#[test]
fn upload_round_trip() {
    let mut t = upload_store();
    let id = ID::new();
    let data = b"some file contents".to_vec();
    let meta = UploadMetadata {
        id,
        filename: "shot.png".to_string(),
        size: data.len() as u64,
        timestamp: 1_700_000_000,
    };
    t.save_upload(&meta, &data).unwrap();

    let got = t.get_upload_metatdata(&id).unwrap();
    assert_eq!(got.id, id);
    assert_eq!(got.filename, "shot.png");
    assert_eq!(got.size, data.len() as u64);
    assert_eq!(got.timestamp, 1_700_000_000);

    let content = t.get_upload_data(&id).unwrap();
    assert_eq!(content, data);
}

#[test]
fn save_conflict_on_duplicate_id() {
    let mut t = upload_store();
    let id = ID::new();
    let data = vec![1u8, 2, 3];
    let meta = UploadMetadata {
        id,
        filename: "a.bin".to_string(),
        size: 3,
        timestamp: 10,
    };
    t.save_upload(&meta, &data).unwrap();
    assert_eq!(t.save_upload(&meta, &data), Err(StoreError::Conflict));
}

#[test]
fn get_missing_is_not_found() {
    let t = upload_store();
    let id = ID::new();
    assert_eq!(
        t.get_upload_metatdata(&id).map(|m| m.filename),
        Err(StoreError::NotFound)
    );
    assert_eq!(t.get_upload_data(&id), Err(StoreError::NotFound));
}

#[test]
fn delete_semantics() {
    let mut t = upload_store();
    let id = ID::new();
    let data = vec![9u8; 32];
    let meta = UploadMetadata {
        id,
        filename: "gone.txt".to_string(),
        size: 32,
        timestamp: 5,
    };
    t.save_upload(&meta, &data).unwrap();
    t.delete_upload(&id).unwrap();
    assert_eq!(
        t.get_upload_metatdata(&id).map(|m| m.filename),
        Err(StoreError::NotFound)
    );
    assert_eq!(t.get_upload_data(&id), Err(StoreError::NotFound));
    // Deleting again is indistinguishable at the store level.
    t.delete_upload(&id).unwrap();
}

#[test]
fn store_failure_surfaces_as_io() {
    // A handle whose schema was never created: the backing store fails the
    // query, and that surfaces as an opaque store error, never a panic.
    let t = UploadTable::new(rusqlite::Connection::open_in_memory().unwrap());
    assert_eq!(t.get_upload_data(&ID::new()), Err(StoreError::Io));
}

#[test]
fn list_uploads_newest_first() {
    let mut t = upload_store();
    for (ts, name) in [(100i64, "old"), (300, "new"), (200, "mid")] {
        let id = ID::new();
        let data = vec![0u8; 4];
        let meta = UploadMetadata {
            id,
            filename: name.to_string(),
            size: 4,
            timestamp: ts,
        };
        t.save_upload(&meta, &data).unwrap();
    }
    let all = t.get_all_uploads().unwrap();
    assert_eq!(all.len(), 3);
    assert_eq!(all[0].filename, "new");
    assert_eq!(all[1].filename, "mid");
    assert_eq!(all[2].filename, "old");
}

#[test]
fn link_round_trip_and_hits() {
    let mut t = link_store();
    let id = ID::new();
    let link = Link {
        id,
        uri: "https://example.com/a?b=c".to_string(),
        timestamp: 42,
    };
    t.save_link(&link).unwrap();

    let (got, hits) = t.get_link(&id).unwrap();
    assert_eq!(got.id, id);
    assert_eq!(got.uri, "https://example.com/a?b=c");
    assert_eq!(got.timestamp, 42);
    assert_eq!(hits, 0);

    // One hit per follow, no matter how many followers: 100 hits count 100.
    for _ in 0..100 {
        t.hit(&id).unwrap();
    }
    let (_, hits) = t.get_link(&id).unwrap();
    assert_eq!(hits, 100);
}

#[test]
fn hit_count_is_exact_across_connections() {
    // Two handles onto one shared database, hitting the same link in turn:
    // the increment happens inside the store, so no update is lost even
    // though neither handle ever reads the counter.
    let open = || {
        rusqlite::Connection::open("file:sxfs_hits?mode=memory&cache=shared").unwrap()
    };
    let first = open();
    let mut a = LinkTable::new(open());
    a.ensure_schema().unwrap();
    let mut b = LinkTable::new(first);
    let id = ID::new();
    let link = Link {
        id,
        uri: "https://example.com/fresh".to_string(),
        timestamp: 0,
    };
    a.save_link(&link).unwrap();
    for _ in 0..50 {
        a.hit(&id).unwrap();
        b.hit(&id).unwrap();
    }
    let (_, hits) = a.get_link(&id).unwrap();
    assert_eq!(hits, 100);
}

#[test]
fn hit_on_missing_link_changes_nothing() {
    let mut t = link_store();
    let id = ID::new();
    t.hit(&id).unwrap();
    assert!(t.get_link(&id).is_err());
}

#[test]
fn delete_link_semantics() {
    let mut t = link_store();
    let id = ID::new();
    let link = Link {
        id,
        uri: "https://example.com".to_string(),
        timestamp: 1,
    };
    t.save_link(&link).unwrap();
    link::delete(&mut t, &id).unwrap();
    assert!(matches!(t.get_link(&id), Err(StoreError::NotFound)));
    // Deleting a missing link through the route reports not-found.
    assert_eq!(link::delete(&mut t, &id), Err(StoreError::NotFound));
}

#[test]
fn route_create_upload_records_size_and_filename() {
    let mut t = upload_store();
    let data = b"png bytes here".to_vec();
    let res = upload::create(&mut t, Some("cat.png".to_string()), 77, &data).unwrap();
    assert_eq!(res.filename, "cat.png");
    let meta = t.get_upload_metatdata(&res.id).unwrap();
    assert_eq!(meta.size, data.len() as u64);
    assert_eq!(meta.filename, "cat.png");

    let anon = upload::create(&mut t, None, 78, &data).unwrap();
    assert_eq!(anon.filename, "unknown");
}

#[test]
fn route_view_checks_filename() {
    let mut t = upload_store();
    let data = b"contents".to_vec();
    let res = upload::create(&mut t, Some("name.txt".to_string()), 1, &data).unwrap();
    assert_eq!(
        upload::view(&t, &res.id, &"name.txt".to_string()).unwrap(),
        data
    );
    assert_eq!(
        upload::view(&t, &res.id, &"other.txt".to_string()),
        Err(StoreError::NotFound)
    );
}

#[test]
fn route_delete_checks_filename() {
    let mut t = upload_store();
    let data = b"contents".to_vec();
    let res = upload::create(&mut t, Some("name.txt".to_string()), 1, &data).unwrap();
    assert_eq!(
        upload::delete(&mut t, &res.id, &"wrong.txt".to_string()),
        Err(StoreError::NotFound)
    );
    upload::delete(&mut t, &res.id, &"name.txt".to_string()).unwrap();
    assert_eq!(
        t.get_upload_metatdata(&res.id).map(|m| m.filename),
        Err(StoreError::NotFound)
    );
}

#[test]
fn route_all_enumerates_in_order() {
    let mut t = upload_store();
    for (ts, name) in [(10i64, "b"), (20, "a")] {
        let id = ID::new();
        let meta = UploadMetadata {
            id,
            filename: name.to_string(),
            size: 1,
            timestamp: ts,
        };
        t.save_upload(&meta, &[7u8]).unwrap();
    }
    let listed = upload::all(&t).unwrap();
    assert_eq!(listed.len(), 2);
    assert_eq!(listed[0].0, 0);
    assert_eq!(listed[0].1.filename, "a");
    assert_eq!(listed[1].0, 1);
    assert_eq!(listed[1].1.filename, "b");
}

#[test]
fn route_follow_redirects_and_counts() {
    let mut t = link_store();
    let res = link::create(&mut t, "https://example.com/x".to_string(), 9).unwrap();
    let uri = link::follow(&mut t, &res.id).unwrap();
    assert_eq!(uri, "https://example.com/x");
    let (_, hits) = t.get_link(&res.id).unwrap();
    assert_eq!(hits, 1);

    let missing = ID::new();
    assert_eq!(
        link::follow(&mut t, &missing),
        Err(StoreError::NotFound)
    );
}

#[test]
fn route_shorten_rejects_invalid_uri() {
    let mut t = link_store();
    assert!(matches!(
        link::create(&mut t, "not a uri".to_string(), 9),
        Err(sxfs::routes::link::ShortenError::InvalidUri)
    ));
    assert!(matches!(
        link::create(&mut t, "1http://x".to_string(), 9),
        Err(sxfs::routes::link::ShortenError::InvalidUri)
    ));
    assert!(link::create(&mut t, "relative/path?q=1#frag".to_string(), 9).is_ok());
}
