//! The two persistent record stores, backed by a relational database:
//! uploads (id, filename, size, creation time, content) and shortened links
//! (id, target uri, creation time, hit counter).
//!
//! Each table owns its own connection. The contents of a connection's table
//! are modelled as a finite map from 16-byte ids to plain row values; every
//! operation is a single SQL statement, so the backing store's
//! single-statement atomicity carries each contract under concurrency.

use vstd::prelude::*;

use crate::id::ID;

verus! {

/// Why a store operation failed.
#[derive(Debug, Clone, Copy, PartialEq, Eq, Structural)]
pub enum StoreError {
    /// The id has no matching row (or, for filename-checked operations, the
    /// filename did not match the stored one).
    NotFound,
    /// The id already has a row; an insert collision is exceptional given
    /// the 128-bit id space.
    Conflict,
    /// The backing store failed.
    Io,
}

#[verifier::external_type_specification]
#[verifier::external_body]
pub struct ExConnection(rusqlite::Connection);

/// A stored upload's row: filename, size, creation time, content.
pub type UploadRow = (Seq<char>, u64, i64, Seq<u8>);

/// A stored link's row: target uri, creation time, hit counter.
pub type LinkRow = (Seq<char>, i64, u32);

/// An upload's metadata: everything in its row but the content bytes.
#[derive(Debug, Clone)]
pub struct UploadMetadata {
    /// The resource identifier for the upload.
    pub id: ID,
    /// The filename the upload was stored under.
    pub filename: String,
    /// The size of the stored content in bytes.
    pub size: u64,
    /// Seconds since the epoch at which the upload was created.
    pub timestamp: i64,
}

/// A shortened link.
#[derive(Debug, Clone)]
pub struct Link {
    /// The resource identifier for the link.
    pub id: ID,
    /// The uri the link redirects to.
    pub uri: String,
    /// Seconds since the epoch at which the link was created.
    pub timestamp: i64,
}

/// The amount of hits on a link.
pub type LinkHits = u32;

/// The type returned from listing a link.
pub type LinkListing = (Link, LinkHits);

/// The rows of the uploads table reachable through a connection.
pub uninterp spec fn upload_rows(c: rusqlite::Connection) -> Map<Seq<u8>, UploadRow>;

/// Whether the uploads table exists behind a connection, so that keyed
/// statements against it run.
pub uninterp spec fn upload_schema(c: rusqlite::Connection) -> bool;

/// The rows of the links table reachable through a connection.
pub uninterp spec fn link_rows(c: rusqlite::Connection) -> Map<Seq<u8>, LinkRow>;

/// Whether the links table exists behind a connection.
pub uninterp spec fn link_schema(c: rusqlite::Connection) -> bool;

/// The uploads table and the operations on it.
pub struct UploadTable {
    /// The connection to the backing database.
    pub conn: rusqlite::Connection,
}

impl UploadTable {
    /// The table's contents: id to row.
    pub open spec fn rows(self) -> Map<Seq<u8>, UploadRow> {
        upload_rows(self.conn)
    }

    /// Well-formed: the table exists and holds finitely many rows.
    pub open spec fn wf(self) -> bool {
        upload_schema(self.conn) && upload_rows(self.conn).dom().finite()
    }

    /// Wrap an existing connection; the rows its database already holds are
    /// the table's contents.
    pub fn new(conn: rusqlite::Connection) -> (r: UploadTable)
        ensures
            r.rows() == upload_rows(conn),
    {
        UploadTable { conn }
    }

    /// Open a store over a fresh private in-memory database.
    ///
    /// Relies on rusqlite's `Connection::open_in_memory`: a new empty
    /// database, holding no rows of any table.
    #[verifier::external_body]
    pub fn open_memory() -> (r: Result<UploadTable, StoreError>)
        ensures
            match r {
                Ok(t) => upload_rows(t.conn) == Map::<Seq<u8>, UploadRow>::empty(),
                Err(e) => e == StoreError::Io,
            },
    {
        match rusqlite::Connection::open_in_memory() {
            Ok(conn) => Ok(UploadTable { conn }),
            Err(_) => Err(StoreError::Io),
        }
    }

    /// Create the uploads table if it is absent; never touches existing rows.
    ///
    /// Relies on rusqlite's `Connection::execute` running a single
    /// `CREATE TABLE IF NOT EXISTS`: race-safe create-if-absent, idempotent.
    #[verifier::external_body]
    pub fn ensure_schema(&mut self) -> (r: Result<(), StoreError>)
        ensures
            final(self).rows() == old(self).rows(),
            match r {
                Ok(()) => upload_schema(final(self).conn) && final(self).rows().dom().finite(),
                Err(e) => e == StoreError::Io,
            },
    {
        let res = self.conn.execute(
            "CREATE TABLE IF NOT EXISTS uploads (
                id        BLOB PRIMARY KEY NOT NULL,
                filename  TEXT NOT NULL,
                size      BLOB NOT NULL,
                timestamp NUMBER NOT NULL,
                contents  BLOB NOT NULL
            )",
            (),
        );
        res.map(|_| ()).map_err(|_| StoreError::Io)
    }

    /// Insert one row.
    ///
    /// Relies on rusqlite's `Connection::execute` running a single `INSERT`:
    /// atomic, a primary-key constraint violation exactly when the id is
    /// already present, and no change on failure.
    #[verifier::external_body]
    fn insert_upload(
        &mut self,
        id: &ID,
        filename: &str,
        size: u64,
        timestamp: i64,
        data: &[u8],
    ) -> (r: Result<(), StoreError>)
        requires
            old(self).wf(),
        ensures
            final(self).wf(),
            match r {
                Ok(()) => !old(self).rows().contains_key(id@) && final(self).rows() == old(self).rows().insert(id@, (filename@, size, timestamp, data@)),
                Err(StoreError::Conflict) => old(self).rows().contains_key(id@) && final(self).rows() == old(self).rows(),
                Err(StoreError::Io) => final(self).rows() == old(self).rows(),
                Err(StoreError::NotFound) => false,
            },
    {
        let res = self.conn.execute(
            "INSERT INTO uploads (id, filename, size, timestamp, contents) VALUES (?, ?, ?, ?, ?)",
            (id.as_bytes(), filename, size.to_le_bytes(), timestamp, data),
        );
        match res {
            Ok(_) => Ok(()),
            Err(e) if e.sqlite_error_code() == Some(rusqlite::ErrorCode::ConstraintViolation) => {
                Err(StoreError::Conflict)
            }
            Err(_) => Err(StoreError::Io),
        }
    }

    /// Save a new upload into the database: content and metadata are written
    /// together, atomically, as a single insert.
    pub fn save_upload(&mut self, upload: &UploadMetadata, data: &[u8]) -> (r: Result<
        (),
        StoreError,
    >)
        requires
            old(self).wf(),
            upload.size == data@.len(),
        ensures
            final(self).wf(),
            match r {
                Ok(()) => !old(self).rows().contains_key(upload.id@) && final(self).rows() == old(self).rows().insert(upload.id@, (upload.filename@, upload.size, upload.timestamp, data@)),
                Err(StoreError::Conflict) => old(self).rows().contains_key(upload.id@) && final(self).rows() == old(self).rows(),
                Err(StoreError::Io) => final(self).rows() == old(self).rows(),
                Err(StoreError::NotFound) => false,
            },
    {
        self.insert_upload(&upload.id, upload.filename.as_str(), upload.size, upload.timestamp, data)
    }

    /// Get an upload's metadata by id.
    ///
    /// Relies on rusqlite's `Connection::query_row` running a single keyed
    /// `SELECT`: the matching row's columns, with `QueryReturnedNoRows`
    /// exactly when no row matches.
    #[verifier::external_body]
    pub fn get_upload_metatdata(&self, id: &ID) -> (r: Result<UploadMetadata, StoreError>)
        requires
            self.wf(),
        ensures
            match r {
                Ok(m) => self.rows().contains_key(id@) && m.id@ == id@ && m.filename@
                    == self.rows()[id@].0 && m.size == self.rows()[id@].1 && m.timestamp
                    == self.rows()[id@].2,
                Err(StoreError::NotFound) => !self.rows().contains_key(id@),
                Err(StoreError::Io) => true,
                Err(StoreError::Conflict) => false,
            },
    {
        let res = self.conn.query_row(
            "SELECT filename, size, timestamp FROM uploads WHERE id=?",
            (id.as_bytes(),),
            |row| Ok(UploadMetadata {
                id: *id,
                filename: row.get(0)?,
                size: u64::from_le_bytes(row.get(1)?),
                timestamp: row.get(2)?,
            }),
        );
        res.map_err(|e| match e {
            rusqlite::Error::QueryReturnedNoRows => StoreError::NotFound,
            _ => StoreError::Io,
        })
    }

    /// Get an upload's content bytes by id.
    ///
    /// Relies on rusqlite's `Connection::query_row` as above.
    #[verifier::external_body]
    pub fn get_upload_data(&self, id: &ID) -> (r: Result<Vec<u8>, StoreError>)
        requires
            self.wf(),
        ensures
            match r {
                Ok(v) => self.rows().contains_key(id@) && v@ == self.rows()[id@].3,
                Err(StoreError::NotFound) => !self.rows().contains_key(id@),
                Err(StoreError::Io) => true,
                Err(StoreError::Conflict) => false,
            },
    {
        let res = self.conn.query_row(
            "SELECT contents FROM uploads WHERE id=?",
            (id.as_bytes(),),
            |row| row.get(0),
        );
        res.map_err(|e| match e {
            rusqlite::Error::QueryReturnedNoRows => StoreError::NotFound,
            _ => StoreError::Io,
        })
    }

    /// List every upload's metadata, newest first.
    ///
    /// Relies on rusqlite's `prepare` and `query_map` running a single
    /// `SELECT ... ORDER BY timestamp DESC`: every row exactly once, sorted
    /// by creation time descending; rows of equal time keep the backing
    /// store's order, which is stated no further.
    #[verifier::external_body]
    pub fn get_all_uploads(&self) -> (r: Result<Vec<UploadMetadata>, StoreError>)
        requires
            self.wf(),
        ensures
            match r {
                Ok(v) => {
                    &&& v@.len() == self.rows().dom().len()
                    &&& forall|i: int|
                        0 <= i < v@.len() ==> self.rows().contains_key(#[trigger] v@[i].id@)
                            && v@[i].filename@ == self.rows()[v@[i].id@].0 && v@[i].size
                            == self.rows()[v@[i].id@].1 && v@[i].timestamp
                            == self.rows()[v@[i].id@].2
                    &&& forall|i: int, j: int| 0 <= i < j < v@.len() ==> v@[i].id@ != v@[j].id@
                    &&& forall|i: int, j: int|
                        0 <= i <= j < v@.len() ==> v@[i].timestamp >= v@[j].timestamp
                },
                Err(e) => e == StoreError::Io,
            },
    {
        let mut stmt = self.conn.prepare(
            "SELECT id, filename, size, timestamp FROM uploads ORDER BY timestamp DESC",
        ).map_err(|_| StoreError::Io)?;
        let rows = stmt.query_map((), |row| Ok(UploadMetadata {
            id: ID::from_bytes(row.get(0)?),
            filename: row.get(1)?,
            size: u64::from_le_bytes(row.get(2)?),
            timestamp: row.get(3)?,
        })).map_err(|_| StoreError::Io)?;
        let mut v = Vec::new();
        for r in rows {
            v.push(r.map_err(|_| StoreError::Io)?);
        }
        Ok(v)
    }

    /// Delete an upload by id; deleting an absent id is not distinguished
    /// from deleting a present one.
    ///
    /// Relies on rusqlite's `Connection::execute` running a single keyed
    /// `DELETE`: removes the matching row if any, atomically.
    #[verifier::external_body]
    pub fn delete_upload(&mut self, id: &ID) -> (r: Result<(), StoreError>)
        requires
            old(self).wf(),
        ensures
            final(self).wf(),
            match r {
                Ok(()) => final(self).rows() == old(self).rows().remove(id@),
                Err(e) => e == StoreError::Io && final(self).rows() == old(self).rows(),
            },
    {
        let res = self.conn.execute("DELETE FROM uploads WHERE id=?", (id.as_bytes(),));
        res.map(|_| ()).map_err(|_| StoreError::Io)
    }
}

/// The links table and the operations on it.
pub struct LinkTable {
    /// The connection to the backing database.
    pub conn: rusqlite::Connection,
}

impl LinkTable {
    /// The table's contents: id to row.
    pub open spec fn rows(self) -> Map<Seq<u8>, LinkRow> {
        link_rows(self.conn)
    }

    /// Well-formed: the table exists and holds finitely many rows.
    pub open spec fn wf(self) -> bool {
        link_schema(self.conn) && link_rows(self.conn).dom().finite()
    }

    /// Wrap an existing connection; the rows its database already holds are
    /// the table's contents.
    pub fn new(conn: rusqlite::Connection) -> (r: LinkTable)
        ensures
            r.rows() == link_rows(conn),
    {
        LinkTable { conn }
    }

    /// Open a store over a fresh private in-memory database.
    ///
    /// Relies on rusqlite's `Connection::open_in_memory`: a new empty
    /// database, holding no rows of any table.
    #[verifier::external_body]
    pub fn open_memory() -> (r: Result<LinkTable, StoreError>)
        ensures
            match r {
                Ok(t) => link_rows(t.conn) == Map::<Seq<u8>, LinkRow>::empty(),
                Err(e) => e == StoreError::Io,
            },
    {
        match rusqlite::Connection::open_in_memory() {
            Ok(conn) => Ok(LinkTable { conn }),
            Err(_) => Err(StoreError::Io),
        }
    }

    /// Create the links table if it is absent; never touches existing rows.
    ///
    /// Relies on rusqlite's `Connection::execute` running a single
    /// `CREATE TABLE IF NOT EXISTS`: race-safe create-if-absent, idempotent.
    #[verifier::external_body]
    pub fn ensure_schema(&mut self) -> (r: Result<(), StoreError>)
        ensures
            final(self).rows() == old(self).rows(),
            match r {
                Ok(()) => link_schema(final(self).conn) && final(self).rows().dom().finite(),
                Err(e) => e == StoreError::Io,
            },
    {
        let res = self.conn.execute(
            "CREATE TABLE IF NOT EXISTS links (
                id        BLOB PRIMARY KEY NOT NULL,
                uri       TEXT NOT NULL,
                timestamp NUMBER NOT NULL,
                hits      NUMBER NOT NULL
            )",
            (),
        );
        res.map(|_| ()).map_err(|_| StoreError::Io)
    }

    /// Save a link into the database with a zeroed hit counter.
    ///
    /// Relies on rusqlite's `Connection::execute` running a single `INSERT`:
    /// atomic, a primary-key constraint violation exactly when the id is
    /// already present, and no change on failure.
    #[verifier::external_body]
    pub fn save_link(&mut self, link: &Link) -> (r: Result<(), StoreError>)
        requires
            old(self).wf(),
        ensures
            final(self).wf(),
            match r {
                Ok(()) => !old(self).rows().contains_key(link.id@) && final(self).rows() == old(self).rows().insert(link.id@, (link.uri@, link.timestamp, 0u32)),
                Err(StoreError::Conflict) => old(self).rows().contains_key(link.id@) && final(self).rows() == old(self).rows(),
                Err(StoreError::Io) => final(self).rows() == old(self).rows(),
                Err(StoreError::NotFound) => false,
            },
    {
        let res = self.conn.execute(
            "INSERT INTO links (id, uri, timestamp, hits) VALUES (?, ?, ?, 0)",
            (link.id.as_bytes(), link.uri.as_str(), link.timestamp),
        );
        match res {
            Ok(_) => Ok(()),
            Err(e) if e.sqlite_error_code() == Some(rusqlite::ErrorCode::ConstraintViolation) => {
                Err(StoreError::Conflict)
            }
            Err(_) => Err(StoreError::Io),
        }
    }

    /// Get a link and its current hit count by id.
    ///
    /// Relies on rusqlite's `Connection::query_row` running a single keyed
    /// `SELECT`: the matching row's columns, with `QueryReturnedNoRows`
    /// exactly when no row matches.
    #[verifier::external_body]
    pub fn get_link(&self, id: &ID) -> (r: Result<LinkListing, StoreError>)
        requires
            self.wf(),
        ensures
            match r {
                Ok(l) => self.rows().contains_key(id@) && l.0.id@ == id@ && l.0.uri@
                    == self.rows()[id@].0 && l.0.timestamp == self.rows()[id@].1 && l.1
                    == self.rows()[id@].2,
                Err(StoreError::NotFound) => !self.rows().contains_key(id@),
                Err(StoreError::Io) => true,
                Err(StoreError::Conflict) => false,
            },
    {
        let res = self.conn.query_row(
            "SELECT uri, timestamp, hits FROM links WHERE id=?",
            (id.as_bytes(),),
            |row| Ok((Link { id: *id, uri: row.get(0)?, timestamp: row.get(1)? }, row.get(2)?)),
        );
        res.map_err(|e| match e {
            rusqlite::Error::QueryReturnedNoRows => StoreError::NotFound,
            _ => StoreError::Io,
        })
    }

    /// List every link with its hit count, newest first.
    ///
    /// Relies on rusqlite's `prepare` and `query_map` running a single
    /// `SELECT ... ORDER BY timestamp DESC`: every row exactly once, sorted
    /// by creation time descending; rows of equal time keep the backing
    /// store's order, which is stated no further.
    #[verifier::external_body]
    pub fn get_all_links(&self) -> (r: Result<Vec<LinkListing>, StoreError>)
        requires
            self.wf(),
        ensures
            match r {
                Ok(v) => {
                    &&& v@.len() == self.rows().dom().len()
                    &&& forall|i: int|
                        0 <= i < v@.len() ==> self.rows().contains_key(#[trigger] v@[i].0.id@)
                            && v@[i].0.uri@ == self.rows()[v@[i].0.id@].0 && v@[i].0.timestamp
                            == self.rows()[v@[i].0.id@].1 && v@[i].1 == self.rows()[v@[i].0.id@].2
                    &&& forall|i: int, j: int| 0 <= i < j < v@.len() ==> v@[i].0.id@ != v@[j].0.id@
                    &&& forall|i: int, j: int|
                        0 <= i <= j < v@.len() ==> v@[i].0.timestamp >= v@[j].0.timestamp
                },
                Err(e) => e == StoreError::Io,
            },
    {
        let mut stmt = self.conn.prepare(
            "SELECT id, uri, timestamp, hits FROM links ORDER BY timestamp DESC",
        ).map_err(|_| StoreError::Io)?;
        let rows = stmt.query_map((), |row| Ok((Link {
            id: ID::from_bytes(row.get(0)?),
            uri: row.get(1)?,
            timestamp: row.get(2)?,
        }, row.get(3)?))).map_err(|_| StoreError::Io)?;
        let mut v = Vec::new();
        for r in rows {
            v.push(r.map_err(|_| StoreError::Io)?);
        }
        Ok(v)
    }

    /// Count one hit on a link, as a single atomic read-modify-write in the
    /// backing store; a hit on an absent id changes nothing.
    ///
    /// Relies on rusqlite's `Connection::execute` running the single
    /// statement `UPDATE links SET hits = hits + 1 WHERE id=?`: the
    /// increment happens inside the store, so concurrent callers cannot
    /// lose updates.
    #[verifier::external_body]
    pub fn hit(&mut self, id: &ID) -> (r: Result<(), StoreError>)
        requires
            old(self).wf(),
            old(self).rows().contains_key(id@) ==> old(self).rows()[id@].2 < u32::MAX,
        ensures
            final(self).wf(),
            match r {
                Ok(()) => if old(self).rows().contains_key(id@) {
                    final(self).rows() == old(self).rows().insert(
                        id@,
                        (
                            old(self).rows()[id@].0,
                            old(self).rows()[id@].1,
                            (old(self).rows()[id@].2 + 1) as u32,
                        ),
                    )
                } else {
                    final(self).rows() == old(self).rows()
                },
                Err(e) => e == StoreError::Io && final(self).rows() == old(self).rows(),
            },
    {
        let res = self.conn.execute("UPDATE links SET hits = hits + 1 WHERE id=?", (id.as_bytes(),));
        res.map(|_| ()).map_err(|_| StoreError::Io)
    }

    /// Delete a link by id; deleting an absent id is not distinguished from
    /// deleting a present one.
    ///
    /// Relies on rusqlite's `Connection::execute` running a single keyed
    /// `DELETE`: removes the matching row if any, atomically.
    #[verifier::external_body]
    pub fn delete_link(&mut self, id: &ID) -> (r: Result<(), StoreError>)
        requires
            old(self).wf(),
        ensures
            final(self).wf(),
            match r {
                Ok(()) => final(self).rows() == old(self).rows().remove(id@),
                Err(e) => e == StoreError::Io && final(self).rows() == old(self).rows(),
            },
    {
        let res = self.conn.execute("DELETE FROM links WHERE id=?", (id.as_bytes(),));
        res.map(|_| ()).map_err(|_| StoreError::Io)
    }
}

/// Law: upload round trip — after a successful save of metadata and
/// content, the stored row for that id carries exactly the saved filename,
/// a size equal to the content's length, and the content itself, so the
/// store contracts let a metadata or content lookup return no other values
/// for it.
pub proof fn lemma_upload_round_trip(
    rows: Map<Seq<u8>, UploadRow>,
    id: Seq<u8>,
    filename: Seq<char>,
    timestamp: i64,
    content: Seq<u8>,
)
    requires
        content.len() <= u64::MAX,
    ensures
        rows.insert(id, (filename, content.len() as u64, timestamp, content)).contains_key(id),
        rows.insert(id, (filename, content.len() as u64, timestamp, content))[id] == (
            filename,
            content.len() as u64,
            timestamp,
            content,
        ),
{
}

/// Law: delete semantics — after a delete of an id the store holds no row
/// for it, so the store contracts let neither a metadata nor a content
/// lookup succeed for it; deleting it again changes nothing.
pub proof fn lemma_delete_removes(rows: Map<Seq<u8>, UploadRow>, id: Seq<u8>)
    ensures
        !rows.remove(id).contains_key(id),
        rows.remove(id).remove(id) == rows.remove(id),
{
    assert(rows.remove(id).remove(id) =~= rows.remove(id));
}

} // verus!
