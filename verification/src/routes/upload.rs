//! Handling of upload requests.

use vstd::prelude::*;
use vstd::string::*;

use crate::database::{StoreError, UploadMetadata, UploadTable};
use crate::id::ID;

verus! {

/// The response to a successful file upload.
#[derive(Debug, Clone)]
pub struct UploadResult {
    /// The filename the upload was stored under.
    pub filename: String,
    /// The id addressing the upload.
    pub id: ID,
}

/// Handle an authorized upload: pick a fresh random id, record the size as
/// the content's own length, and save metadata and content atomically. A
/// missing filename is stored as "unknown".
pub fn create(
    table: &mut UploadTable,
    filename: Option<String>,
    timestamp: i64,
    data: &[u8],
) -> (r: Result<UploadResult, StoreError>)
    requires
        old(table).wf(),
    ensures
        final(table).wf(),
        match r {
            Ok(res) => {
                &&& !old(table).rows().contains_key(res.id@)
                &&& final(table).rows() == old(table).rows().insert(
                    res.id@,
                    (res.filename@, data@.len() as u64, timestamp, data@),
                )
                &&& match filename {
                    Some(f) => res.filename@ == f@,
                    None => res.filename@ == "unknown"@,
                }
            },
            Err(e) => final(table).rows() == old(table).rows() && (e == StoreError::Io || e
                == StoreError::Conflict),
        },
{
    let name = match filename {
        Some(f) => f,
        None => String::from_str("unknown"),
    };
    let id = ID::new();
    let size: u64 = data.len() as u64;
    let upload = UploadMetadata { id, filename: name, size, timestamp };
    match table.save_upload(&upload, data) {
        Ok(()) => Ok(UploadResult { filename: upload.filename, id: upload.id }),
        Err(e) => Err(e),
    }
}

/// List all uploads for display, newest first, each paired with its
/// position in the listing.
pub fn all(table: &UploadTable) -> (r: Result<Vec<(usize, UploadMetadata)>, StoreError>)
    requires
        table.wf(),
    ensures
        match r {
            Ok(v) => {
                &&& v@.len() == table.rows().dom().len()
                &&& forall|i: int| 0 <= i < v@.len() ==> (#[trigger] v@[i]).0 == i
                &&& forall|i: int|
                    0 <= i < v@.len() ==> table.rows().contains_key(#[trigger] v@[i].1.id@)
                        && v@[i].1.filename@ == table.rows()[v@[i].1.id@].0 && v@[i].1.size
                        == table.rows()[v@[i].1.id@].1 && v@[i].1.timestamp
                        == table.rows()[v@[i].1.id@].2
                &&& forall|i: int, j: int|
                    0 <= i <= j < v@.len() ==> v@[i].1.timestamp >= v@[j].1.timestamp
            },
            Err(e) => e == StoreError::Io,
        },
{
    let mut list = match table.get_all_uploads() {
        Ok(l) => l,
        Err(e) => {
            return Err(e);
        },
    };
    let ghost orig = list@;
    let total = list.len();
    let mut out: Vec<(usize, UploadMetadata)> = Vec::new();
    let mut i: usize = 0;
    while list.len() > 0
        invariant
            total == orig.len(),
            out@.len() == i,
            i + list@.len() == orig.len(),
            list@ =~= orig.subrange(i as int, orig.len() as int),
            forall|j: int| 0 <= j < i ==> (#[trigger] out@[j]).0 == j && out@[j].1 == orig[j],
        decreases list@.len(),
    {
        let m = list.remove(0);
        out.push((i, m));
        i += 1;
    }
    Ok(out)
}

/// Serve an upload's content bytes, addressed by id and filename: the
/// filename must equal the stored one exactly, otherwise the upload is
/// reported missing rather than served.
pub fn view(table: &UploadTable, id: &ID, filename: &String) -> (r: Result<Vec<u8>, StoreError>)
    requires
        table.wf(),
    ensures
        match r {
            Ok(v) => table.rows().contains_key(id@) && filename@ == table.rows()[id@].0 && v@
                == table.rows()[id@].3,
            Err(StoreError::NotFound) => !table.rows().contains_key(id@) || filename@
                != table.rows()[id@].0,
            Err(StoreError::Io) => true,
            Err(StoreError::Conflict) => false,
        },
{
    let meta = match table.get_upload_metatdata(id) {
        Ok(m) => m,
        Err(e) => {
            return Err(e);
        },
    };
    if meta.filename == *filename {
        table.get_upload_data(id)
    } else {
        Err(StoreError::NotFound)
    }
}

/// Delete an upload addressed by id and exact stored filename; a filename
/// mismatch is treated as "not found", never as a rename or a delete.
pub fn delete(table: &mut UploadTable, id: &ID, filename: &String) -> (r: Result<(), StoreError>)
    requires
        old(table).wf(),
    ensures
        final(table).wf(),
        match r {
            Ok(()) => old(table).rows().contains_key(id@) && filename@ == old(table).rows()[id@].0 && final(table).rows() == old(table).rows().remove(id@),
            Err(StoreError::NotFound) => (!old(table).rows().contains_key(id@) || filename@ != old(table).rows()[id@].0) && final(table).rows() == old(table).rows(),
            Err(StoreError::Io) => final(table).rows() == old(table).rows(),
            Err(StoreError::Conflict) => false,
        },
{
    let meta = match table.get_upload_metatdata(id) {
        Ok(m) => m,
        Err(e) => {
            return Err(e);
        },
    };
    if meta.filename == *filename {
        table.delete_upload(id)
    } else {
        Err(StoreError::NotFound)
    }
}

} // verus!
