//! Handling of shortened-link requests.

use vstd::prelude::*;

use crate::database::{Link, LinkTable, StoreError};
use crate::id::ID;
use crate::uri;

verus! {

/// The response to a successful link shorten.
#[derive(Debug, Clone, Copy)]
pub struct LinkResult {
    /// The id addressing the link.
    pub id: ID,
}

/// Why a shorten request failed.
#[derive(Debug, Clone, Copy, PartialEq, Eq, Structural)]
pub enum ShortenError {
    /// The uri is not syntactically a URI reference; the request is bad.
    InvalidUri,
    /// The store failed.
    Store(StoreError),
}

/// Shorten a uri: validate it syntactically, then record it under a fresh
/// random id with a zeroed hit counter.
pub fn create(table: &mut LinkTable, uri: String, timestamp: i64) -> (r: Result<
    LinkResult,
    ShortenError,
>)
    requires
        old(table).wf(),
    ensures
        final(table).wf(),
        match r {
            Ok(res) => uri::is_uri_reference(uri@) && !old(table).rows().contains_key(res.id@)
                && final(table).rows() == old(table).rows().insert(
                res.id@,
                (uri@, timestamp, 0u32),
            ),
            Err(ShortenError::InvalidUri) => !uri::is_uri_reference(uri@) && final(table).rows()
                == old(table).rows(),
            Err(ShortenError::Store(e)) => uri::is_uri_reference(uri@) && final(table).rows()
                == old(table).rows() && (e == StoreError::Io || e == StoreError::Conflict),
        },
{
    if !uri::is_valid_uri_reference(uri.as_str()) {
        return Err(ShortenError::InvalidUri);
    }
    let link = Link { id: ID::new(), uri, timestamp };
    match table.save_link(&link) {
        Ok(()) => Ok(LinkResult { id: link.id }),
        Err(e) => Err(ShortenError::Store(e)),
    }
}

/// Follow a shortened link: return its target uri and count exactly one
/// hit, atomically in the backing store. A link whose counter has reached
/// its ceiling is never followed: that surfaces as a store failure, with
/// the counter left untouched.
pub fn follow(table: &mut LinkTable, id: &ID) -> (r: Result<String, StoreError>)
    requires
        old(table).wf(),
    ensures
        final(table).wf(),
        old(table).rows().contains_key(id@) && old(table).rows()[id@].2 == u32::MAX ==> r == Err::<
            String,
            StoreError,
        >(StoreError::Io),
        match r {
            Ok(uri) => old(table).rows().contains_key(id@) && uri@ == old(table).rows()[id@].0
                && final(table).rows() == old(table).rows().insert(
                id@,
                (
                    old(table).rows()[id@].0,
                    old(table).rows()[id@].1,
                    (old(table).rows()[id@].2 + 1) as u32,
                ),
            ),
            Err(StoreError::NotFound) => !old(table).rows().contains_key(id@) && final(table).rows() == old(table).rows(),
            Err(StoreError::Io) => final(table).rows() == old(table).rows(),
            Err(StoreError::Conflict) => false,
        },
{
    let listing = match table.get_link(id) {
        Ok(l) => l,
        Err(e) => {
            return Err(e);
        },
    };
    if listing.1 == u32::MAX {
        return Err(StoreError::Io);
    }
    match table.hit(id) {
        Ok(()) => Ok(listing.0.uri),
        Err(e) => Err(e),
    }
}

/// Delete a link by id, after confirming it exists so that a missing link
/// is reported rather than silently ignored.
pub fn delete(table: &mut LinkTable, id: &ID) -> (r: Result<(), StoreError>)
    requires
        old(table).wf(),
    ensures
        final(table).wf(),
        match r {
            Ok(()) => old(table).rows().contains_key(id@) && final(table).rows() == old(table).rows().remove(id@),
            Err(StoreError::NotFound) => !old(table).rows().contains_key(id@) && final(table).rows() == old(table).rows(),
            Err(StoreError::Io) => final(table).rows() == old(table).rows(),
            Err(StoreError::Conflict) => false,
        },
{
    match table.get_link(id) {
        Err(e) => {
            return Err(e);
        },
        Ok(_) => {},
    }
    table.delete_link(id)
}

} // verus!
