//! Derivation of a file identifier from a record's content.
//!
//! The digest itself comes from the external hashing collaborator; the
//! registry relies only on the digest being a function of the input bytes,
//! so byte-identical records always map to the same identifier.

use vstd::prelude::*;

use crate::codec::encode_record;
use crate::codec::encoded_record;
use crate::types::File;
use crate::types::FileId;

verus! {

/// The 64-bit digest of a byte sequence, as the external hash computes it.
pub uninterp spec fn xxh64_of(bytes: Seq<u8>) -> u64;

/// Relies on `twox_hash::XxHash64::oneshot`: the digest is a function of the
/// seed and the input bytes alone.
#[verifier::external_body]
fn xxh64_digest(bytes: &Vec<u8>) -> (r: u64)
    ensures
        r == xxh64_of(bytes@),
{
    twox_hash::XxHash64::oneshot(0, bytes.as_slice())
}

/// The identifier of a record: the digest of its encoded content. A spec
/// function of the record alone, so identical records share one identifier.
pub open spec fn file_id_of(f: File) -> FileId {
    xxh64_of(encoded_record(f))
}

/// Encodes `f` and hashes the bytes into the record's identifier.
pub fn compute_file_id(f: &File) -> (r: FileId)
    ensures
        r == file_id_of(*f),
{
    let bytes = encode_record(f);
    xxh64_digest(&bytes)
}

} // verus!
