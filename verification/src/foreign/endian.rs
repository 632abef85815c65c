//! Little-endian integers as byte sequences.
//!
//! Every integer on the wire is the sequence of its base-256 digits, least
//! significant first. [`le_bytes`] and [`le_value`] state that in both
//! directions for any width, and the lemmas here show that the two are
//! inverse to each other.
use vstd::prelude::*;

verus! {

/// The `width` low base-256 digits of `value`, least significant first.
#[verifier::opaque]
pub open spec fn le_bytes(value: nat, width: nat) -> Seq<u8>
    decreases width,
{
    if width == 0 {
        Seq::empty()
    } else {
        seq![(value % 256) as u8] + le_bytes(value / 256, (width - 1) as nat)
    }
}

/// The number whose base-256 digits are `bytes`, least significant first.
#[verifier::opaque]
pub open spec fn le_value(bytes: Seq<u8>) -> nat
    decreases bytes.len(),
{
    if bytes.len() == 0 {
        0
    } else {
        bytes[0] as nat + 256 * le_value(bytes.drop_first())
    }
}

/// How many different values `width` bytes can hold.
pub open spec fn le_range(width: nat) -> nat
    decreases width,
{
    if width == 0 {
        1
    } else {
        256 * le_range((width - 1) as nat)
    }
}

/// The two bytes of a `u16` on the wire.
pub open spec fn le16(value: u16) -> Seq<u8> {
    le_bytes(value as nat, 2)
}

/// The four bytes of a `u32` on the wire.
pub open spec fn le32(value: u32) -> Seq<u8> {
    le_bytes(value as nat, 4)
}

/// The eight bytes of a `u64` on the wire.
pub open spec fn le64(value: u64) -> Seq<u8> {
    le_bytes(value as nat, 8)
}

/// Consecutive `u64` words on the wire.
pub open spec fn words_wire(words: Seq<u64>) -> Seq<u8>
    decreases words.len(),
{
    if words.len() == 0 {
        Seq::empty()
    } else {
        words_wire(words.drop_last()) + le64(words.last())
    }
}

/// The number in the `width` bytes of a record that start at `offset`.
pub open spec fn field(bytes: Seq<u8>, offset: int, width: int) -> nat {
    le_value(bytes.subrange(offset, offset + width))
}

/// An encoding has exactly the width asked for.
pub broadcast proof fn lemma_le_bytes_len(value: nat, width: nat)
    ensures
        #[trigger] le_bytes(value, width).len() == width,
    decreases width,
{
    reveal(le_bytes);
    if width > 0 {
        lemma_le_bytes_len(value / 256, (width - 1) as nat);
    }
}

/// Each word takes eight bytes.
pub broadcast proof fn lemma_words_wire_len(words: Seq<u64>)
    ensures
        #[trigger] words_wire(words).len() == 8 * words.len(),
    decreases words.len(),
{
    broadcast use lemma_le_bytes_len;

    if words.len() > 0 {
        lemma_words_wire_len(words.drop_last());
    }
}

/// Appending piece by piece is appending the pieces joined.
pub broadcast proof fn lemma_append_associative(start: Seq<u8>, first: Seq<u8>, second: Seq<u8>)
    ensures
        #[trigger] (start + first + second) == start + (first + second),
{
    assert(start + first + second =~= start + (first + second));
}

/// The ranges of the three widths that the protocol uses.
pub proof fn lemma_le_range()
    ensures
        le_range(2) == 0x1_0000,
        le_range(4) == 0x1_0000_0000,
        le_range(8) == 0x1_0000_0000_0000_0000,
{
    reveal_with_fuel(le_range, 9);
}

/// The words' own bytes inside their joint encoding.
pub proof fn lemma_words_wire_field(words: Seq<u64>, index: int)
    requires
        0 <= index < words.len(),
    ensures
        words_wire(words).subrange(8 * index, 8 * index + 8) == le64(words[index]),
    decreases words.len(),
{
    broadcast use {lemma_le_bytes_len, lemma_words_wire_len};

    let shorter = words_wire(words.drop_last());
    if index < words.len() - 1 {
        lemma_words_wire_field(words.drop_last(), index);
        assert(words_wire(words).subrange(8 * index, 8 * index + 8) =~= shorter.subrange(
            8 * index,
            8 * index + 8,
        ));
    } else {
        assert(words_wire(words).subrange(8 * index, 8 * index + 8) =~= le64(words[index]));
    }
}

/// Decoding the bytes of a `u16`, `u32` or `u64` gives it back.
pub proof fn lemma_le_fields()
    ensures
        forall|value: u16| le_value(#[trigger] le16(value)) == value,
        forall|value: u32| le_value(#[trigger] le32(value)) == value,
        forall|value: u64| le_value(#[trigger] le64(value)) == value,
{
    lemma_le_range();
    assert forall|value: u16| le_value(#[trigger] le16(value)) == value by {
        lemma_le_value_of_le_bytes(value as nat, 2);
    }
    assert forall|value: u32| le_value(#[trigger] le32(value)) == value by {
        lemma_le_value_of_le_bytes(value as nat, 4);
    }
    assert forall|value: u64| le_value(#[trigger] le64(value)) == value by {
        lemma_le_value_of_le_bytes(value as nat, 8);
    }
}

/// More bytes hold at least as many values.
pub proof fn lemma_le_range_grows(small: nat, large: nat)
    requires
        small <= large,
    ensures
        le_range(small) <= le_range(large),
    decreases large,
{
    if small < large {
        lemma_le_range_grows(small, (large - 1) as nat);
    }
}

/// Decoding what was encoded gives the value back, as long as it fits.
pub proof fn lemma_le_value_of_le_bytes(value: nat, width: nat)
    requires
        value < le_range(width),
    ensures
        le_value(le_bytes(value, width)) == value,
    decreases width,
{
    reveal(le_bytes);
    reveal(le_value);
    if width > 0 {
        let rest = le_bytes(value / 256, (width - 1) as nat);
        lemma_le_value_of_le_bytes(value / 256, (width - 1) as nat);
        assert(le_bytes(value, width).drop_first() =~= rest);
    }
}

/// Encoding what was decoded gives the bytes back.
pub proof fn lemma_le_bytes_of_le_value(bytes: Seq<u8>)
    ensures
        le_bytes(le_value(bytes), bytes.len()) == bytes,
        le_value(bytes) < le_range(bytes.len()),
    decreases bytes.len(),
{
    reveal(le_bytes);
    reveal(le_value);
    if bytes.len() > 0 {
        let rest = bytes.drop_first();
        let low = bytes[0] as nat;
        let high = le_value(rest);
        lemma_le_bytes_of_le_value(rest);
        assert(le_value(bytes) == low + 256 * high);
        assert((low + 256 * high) % 256 == low && (low + 256 * high) / 256 == high);
        assert(le_bytes(le_value(bytes), bytes.len()) == seq![bytes[0]] + rest);
        assert(seq![bytes[0]] + rest =~= bytes);
    }
}

} // verus!
