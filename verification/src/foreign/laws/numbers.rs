//! Numbers on the wire, byte by byte.
use crate::foreign::endian::{
    field, le16, le32, le64, le_value, lemma_le_bytes_len, lemma_le_fields,
};
use vstd::prelude::*;

verus! {

/// A sequence without its first bytes, as the sequence from there on.
proof fn lemma_value_step(bytes: Seq<u8>, start: int, end: int)
    requires
        0 <= start < end <= bytes.len(),
    ensures
        le_value(bytes.subrange(start, end)) == bytes[start] + 256 * le_value(
            bytes.subrange(start + 1, end),
        ),
{
    reveal(le_value);
    assert(bytes.subrange(start, end).drop_first() =~= bytes.subrange(start + 1, end));
}

/// No bytes make zero.
proof fn lemma_value_end(bytes: Seq<u8>, end: int)
    requires
        0 <= end <= bytes.len(),
    ensures
        le_value(bytes.subrange(end, end)) == 0,
{
    reveal(le_value);
}

/// A two-byte field is its two bytes, the first counting least.
pub proof fn two_byte_field(bytes: Seq<u8>, at: int)
    requires
        0 <= at && at + 2 <= bytes.len(),
    ensures
        field(bytes, at, 2) == bytes[at] + 0x100 * bytes[at + 1],
{
    lemma_value_step(bytes, at, at + 2);
    lemma_value_step(bytes, at + 1, at + 2);
    lemma_value_end(bytes, at + 2);
}

/// A four-byte field is its four bytes, the first counting least.
pub proof fn four_byte_field(bytes: Seq<u8>, at: int)
    requires
        0 <= at && at + 4 <= bytes.len(),
    ensures
        field(bytes, at, 4) == bytes[at] + 0x100 * bytes[at + 1] + 0x1_0000 * bytes[at + 2]
            + 0x100_0000 * bytes[at + 3],
{
    lemma_value_step(bytes, at, at + 4);
    lemma_value_step(bytes, at + 1, at + 4);
    lemma_value_step(bytes, at + 2, at + 4);
    lemma_value_step(bytes, at + 3, at + 4);
    lemma_value_end(bytes, at + 4);
}

/// An eight-byte field is its eight bytes, the first counting least.
pub proof fn eight_byte_field(bytes: Seq<u8>, at: int)
    requires
        0 <= at && at + 8 <= bytes.len(),
    ensures
        field(bytes, at, 8) == bytes[at] + 0x100 * bytes[at + 1] + 0x1_0000 * bytes[at + 2]
            + 0x100_0000 * bytes[at + 3] + 0x1_0000_0000 * bytes[at + 4] + 0x100_0000_0000
            * bytes[at + 5] + 0x1_0000_0000_0000 * bytes[at + 6] + 0x100_0000_0000_0000
            * bytes[at + 7],
{
    lemma_value_step(bytes, at, at + 8);
    lemma_value_step(bytes, at + 1, at + 8);
    lemma_value_step(bytes, at + 2, at + 8);
    lemma_value_step(bytes, at + 3, at + 8);
    lemma_value_step(bytes, at + 4, at + 8);
    lemma_value_step(bytes, at + 5, at + 8);
    lemma_value_step(bytes, at + 6, at + 8);
    lemma_value_step(bytes, at + 7, at + 8);
    lemma_value_end(bytes, at + 8);
}

/// The bytes of an encoded integer, the first counting least, add up to it.
pub proof fn encodings_add_up(a: u16, b: u32, c: u64)
    ensures
        le16(a).len() == 2,
        le16(a)[0] + 0x100 * le16(a)[1] == a,
        le32(b).len() == 4,
        le32(b)[0] + 0x100 * le32(b)[1] + 0x1_0000 * le32(b)[2] + 0x100_0000 * le32(b)[3] == b,
        le64(c).len() == 8,
        le64(c)[0] + 0x100 * le64(c)[1] + 0x1_0000 * le64(c)[2] + 0x100_0000 * le64(c)[3]
            + 0x1_0000_0000 * le64(c)[4] + 0x100_0000_0000 * le64(c)[5] + 0x1_0000_0000_0000
            * le64(c)[6] + 0x100_0000_0000_0000 * le64(c)[7] == c,
{
    broadcast use lemma_le_bytes_len;

    lemma_le_fields();
    two_byte_field(le16(a), 0);
    four_byte_field(le32(b), 0);
    eight_byte_field(le64(c), 0);
    assert(le16(a).subrange(0, 2) =~= le16(a));
    assert(le32(b).subrange(0, 4) =~= le32(b));
    assert(le64(c).subrange(0, 8) =~= le64(c));
}

} // verus!
