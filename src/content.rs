use crate::error::Fault;
use crate::hash::{compute_sha256, sha256_hex};
use crate::json::{json_str_at, json_string_at};
use crate::model::FileRecord;
use vstd::prelude::*;

verus! {

/// Where the content store's reply holds the identifier it assigned.
pub const CID_POINTER: &'static str = "/Hash";

/// The identifier read from the content store's reply: a non-empty string
/// is accepted; a missing or empty one means the store rejected the file.
pub open spec fn cid_of_field(found: Option<Seq<char>>) -> Result<Seq<char>, Fault> {
    match found {
        Some(c) => if c.len() > 0 {
            Ok(c)
        } else {
            Err(Fault::ContentStoreRejected)
        },
        None => Err(Fault::ContentStoreRejected),
    }
}

/// Accepts the identifier found in the content store's reply.
pub fn cid_from_field(found: Option<String>) -> (r: Result<String, Fault>)
    ensures
        match found {
            Some(c) => if c@.len() > 0 {
                r == Ok::<String, Fault>(c)
            } else {
                r == Err::<String, Fault>(Fault::ContentStoreRejected)
            },
            None => r == Err::<String, Fault>(Fault::ContentStoreRejected),
        },
{
    match found {
        Some(c) => if !c.as_str().is_empty() {
            Ok(c)
        } else {
            Err(Fault::ContentStoreRejected)
        },
        None => Err(Fault::ContentStoreRejected),
    }
}

/// The identifier in the content store's JSON reply, under "Hash".
pub fn cid_from_reply(reply: &str) -> (r: Result<String, Fault>)
    ensures
        match r {
            Ok(c) => cid_of_field(json_str_at(reply@, CID_POINTER@)) == Ok::<Seq<char>, Fault>(c@),
            Err(e) => cid_of_field(json_str_at(reply@, CID_POINTER@)) == Err::<Seq<char>, Fault>(e),
        },
{
    cid_from_field(json_string_at(reply, CID_POINTER))
}

/// The content identity of a file: the digest computed here from its bytes,
/// and the identifier read from the content store's reply to its upload.
/// Either both are there or the record is not made.
pub fn package_hash_and_cid(bytes: &[u8], store_reply: &str) -> (r: Result<FileRecord, Fault>)
    ensures
        match cid_of_field(json_str_at(store_reply@, CID_POINTER@)) {
            Ok(c) => r matches Ok(rec) && rec.wf() && rec.file_hash@ == sha256_hex(bytes@) && rec.file_cid@ == c,
            Err(e) => r == Err::<FileRecord, Fault>(e),
        },
{
    let file_cid = match cid_from_reply(store_reply) {
        Ok(c) => c,
        Err(e) => return Err(e),
    };
    let file_hash = compute_sha256(bytes);
    Ok(FileRecord { file_hash, file_cid })
}

} // verus!
