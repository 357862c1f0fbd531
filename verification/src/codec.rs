//! Byte encoding of a file record.
//!
//! A record is laid out as its fields in declaration order: the 20 link
//! bytes, one byte for the download gate, one tag byte for the pricing
//! class, and the three 64-bit fields in little-endian order. The file
//! identifier is the digest of exactly these bytes (see `hashing`), so the
//! encoding is the single place that fixes what "the record's content"
//! means.

use vstd::prelude::*;

use crate::types::File;
use crate::types::FileType;

verus! {

/// The little-endian bytes of a 64-bit integer.
pub open spec fn u64_le_bytes(x: u64) -> Seq<u8> {
    Seq::new(8, |i: int| (((x >> ((8 * i) as u64)) & 0xff) as u8))
}

/// The byte standing for a boolean field.
pub open spec fn bool_byte(b: bool) -> u8 {
    if b {
        1
    } else {
        0
    }
}

/// The tag byte standing for a pricing class.
pub open spec fn file_type_byte(t: FileType) -> u8 {
    match t {
        FileType::Normal => 0,
        FileType::Privileged => 1,
    }
}

/// The full encoding of a record: every field, in declaration order.
pub open spec fn encoded_record(f: File) -> Seq<u8> {
    f.file_link@ + seq![bool_byte(f.allow_download)] + seq![file_type_byte(f.file_type)]
        + u64_le_bytes(f.cost) + u64_le_bytes(f.file_size) + u64_le_bytes(f.owner)
}

/// Appends the little-endian bytes of `x` to `out`.
pub fn push_u64_le(out: &mut Vec<u8>, x: u64)
    ensures
        final(out)@ == old(out)@ + u64_le_bytes(x),
{
    let mut i: usize = 0;
    while i < 8
        invariant
            i <= 8,
            out@ == old(out)@ + u64_le_bytes(x).subrange(0, i as int),
        decreases 8 - i,
    {
        out.push((((x >> ((8 * i) as u64)) & 0xff) as u8));
        i = i + 1;
        proof {
            assert(u64_le_bytes(x).subrange(0, i as int) =~= u64_le_bytes(x).subrange(
                0,
                i - 1,
            ).push(u64_le_bytes(x)[i - 1]));
        }
    }
    proof {
        assert(u64_le_bytes(x).subrange(0, 8) =~= u64_le_bytes(x));
    }
}

/// Builds the encoding of `f`, byte for byte as `encoded_record` lays it
/// out.
pub fn encode_record(f: &File) -> (r: Vec<u8>)
    ensures
        r@ == encoded_record(*f),
{
    let mut out: Vec<u8> = Vec::new();
    let mut i: usize = 0;
    while i < 20
        invariant
            i <= 20,
            out@ == f.file_link@.subrange(0, i as int),
        decreases 20 - i,
    {
        out.push(f.file_link[i]);
        i = i + 1;
        proof {
            assert(f.file_link@.subrange(0, i as int) =~= f.file_link@.subrange(0, i - 1).push(
                f.file_link@[i - 1],
            ));
        }
    }
    proof {
        assert(f.file_link@.subrange(0, 20) =~= f.file_link@);
    }
    if f.allow_download {
        out.push(1);
    } else {
        out.push(0);
    }
    match f.file_type {
        FileType::Normal => out.push(0),
        FileType::Privileged => out.push(1),
    }
    push_u64_le(&mut out, f.cost);
    push_u64_le(&mut out, f.file_size);
    push_u64_le(&mut out, f.owner);
    proof {
        assert(out@ =~= encoded_record(*f));
    }
    out
}

} // verus!
