use crate::extract::chars_of;
use vstd::prelude::*;

verus! {

/// Structured metadata read from a document by the completion service.
#[derive(Debug, Clone, PartialEq, Eq)]
pub struct ExtractedMetaData {
    pub title: String,
    pub difficulty: String,
    pub genre: String,
    pub summary: String,
}

impl ExtractedMetaData {
    /// Every required field is non-empty.
    pub open spec fn wf(&self) -> bool {
        &&& self.title@.len() > 0
        &&& self.difficulty@.len() > 0
        &&& self.genre@.len() > 0
        &&& self.summary@.len() > 0
    }
}

/// Content identity of a file: its SHA-256 digest in hex and the identifier
/// the content store gave it.
#[derive(Debug, Clone, PartialEq, Eq)]
pub struct FileRecord {
    pub file_hash: String,
    pub file_cid: String,
}

/// A lowercase hexadecimal digit.
pub open spec fn is_lower_hex(c: char) -> bool {
    ('0' <= c && c <= '9') || ('a' <= c && c <= 'f')
}

impl FileRecord {
    /// A hash of 64 lowercase hex digits and a non-empty identifier.
    pub open spec fn wf(&self) -> bool {
        &&& self.file_hash@.len() == 64
        &&& forall|i: int| 0 <= i < self.file_hash@.len() ==> is_lower_hex(#[trigger] self.file_hash@[i])
        &&& self.file_cid@.len() > 0
    }

    /// Whether the record is well formed.
    pub fn is_wf(&self) -> (r: bool)
        ensures
            r == self.wf(),
    {
        if self.file_cid.as_str().is_empty() {
            return false;
        }
        let cs = chars_of(self.file_hash.as_str());
        if cs.len() != 64 {
            return false;
        }
        let mut i: usize = 0;
        while i < 64
            invariant
                cs@ == self.file_hash@,
                cs@.len() == 64,
                i <= 64,
                forall|k: int| 0 <= k < i ==> is_lower_hex(cs@[k]),
            decreases 64 - i,
        {
            let c = cs[i];
            if !(('0' <= c && c <= '9') || ('a' <= c && c <= 'f')) {
                return false;
            }
            i = i + 1;
        }
        true
    }
}

/// One row of the catalog.
#[derive(Debug, Clone, PartialEq, Eq)]
pub struct ArchiveRecord {
    pub id: i64,
    pub genre: String,
    pub title: String,
    pub difficulty: String,
    pub summary: String,
    pub file_hash: String,
    pub file_cid: String,
}

/// Asks the engine to process a stored file.
#[derive(Debug, Clone, PartialEq, Eq)]
pub struct ProcessRequest {
    pub file_path: String,
}

/// What processing a file produced: its metadata, its content identity and
/// the signature of the ledger transaction that anchors it.
#[derive(Debug, Clone, PartialEq, Eq)]
pub struct ProcessResponse {
    pub metadata: ExtractedMetaData,
    pub file_record: FileRecord,
    pub memo: String,
}

} // verus!
