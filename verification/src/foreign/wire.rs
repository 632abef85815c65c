//! Sequential little-endian writer and reader of fixed-size records.
use super::aarch64::{
    lemma_vectors_wire_len, vectors_wire, Aarch64ExceptionState, Aarch64StateV1, Aarch64Vector,
    StateHeader,
};
use super::endian::{
    field, le16, le32, le64, le_bytes, le_range, le_value, lemma_append_associative,
    lemma_le_bytes_len, lemma_le_bytes_of_le_value, lemma_le_range, lemma_le_range_grows,
    lemma_words_wire_len, words_wire,
};
use super::layout::state_wire_injective;
use super::message::ForeignHeader;
use vstd::prelude::*;

verus! {

broadcast use {
    lemma_le_bytes_len,
    lemma_words_wire_len,
    lemma_vectors_wire_len,
};

/// The words of a longer prefix are those of the shorter one and one more.
proof fn lemma_words_take(words: Seq<u64>, count: int)
    requires
        0 <= count < words.len(),
    ensures
        words_wire(words.take(count + 1)) == words_wire(words.take(count)) + le64(words[count]),
{
    assert(words.take(count + 1).drop_last() =~= words.take(count));
}

/// The vectors of a longer prefix are those of the shorter one and one more.
proof fn lemma_vectors_take(vectors: Seq<Aarch64Vector>, count: int)
    requires
        0 <= count < vectors.len(),
    ensures
        vectors_wire(vectors.take(count + 1)) == vectors_wire(vectors.take(count)) + le64(
            vectors[count].low,
        ) + le64(vectors[count].high),
{
    assert(vectors.take(count + 1).drop_last() =~= vectors.take(count));
}

/// Appending the parts of a state one by one is appending the state.
proof fn lemma_append_state(start: Seq<u8>, state: Aarch64StateV1)
    ensures
        start + state.header.wire() + words_wire(state.x@) + le64(state.sp) + le64(state.pc) + le64(
            state.pstate,
        ) + le64(state.tpidr_el0) + le64(state.tpidrro_el0) + vectors_wire(state.vectors@) + le32(
            state.fpcr,
        ) + le32(state.fpsr) + state.exception.wire() + words_wire(state.reserved@) == start
            + state.wire(),
{
    let part0 = state.header.wire();
    let part1 = part0 + words_wire(state.x@);
    let part2 = part1 + le64(state.sp);
    let part3 = part2 + le64(state.pc);
    let part4 = part3 + le64(state.pstate);
    let part5 = part4 + le64(state.tpidr_el0);
    let part6 = part5 + le64(state.tpidrro_el0);
    let part7 = part6 + vectors_wire(state.vectors@);
    let part8 = part7 + le32(state.fpcr);
    let part9 = part8 + le32(state.fpsr);
    let part10 = part9 + state.exception.wire();
    lemma_append_associative(start, part0, words_wire(state.x@));
    lemma_append_associative(start, part1, le64(state.sp));
    lemma_append_associative(start, part2, le64(state.pc));
    lemma_append_associative(start, part3, le64(state.pstate));
    lemma_append_associative(start, part4, le64(state.tpidr_el0));
    lemma_append_associative(start, part5, le64(state.tpidrro_el0));
    lemma_append_associative(start, part6, vectors_wire(state.vectors@));
    lemma_append_associative(start, part7, le32(state.fpcr));
    lemma_append_associative(start, part8, le32(state.fpsr));
    lemma_append_associative(start, part9, state.exception.wire());
    lemma_append_associative(start, part10, words_wire(state.reserved@));
}

/// Fills an `N`-byte record from the front. Bytes past `position` are still
/// zero.
pub struct WireWriter<const N: usize> {
    bytes: [u8; N],
    position: usize,
}

impl<const N: usize> WireWriter<N> {
    /// The position stays inside the record, and from there on every byte is
    /// still zero. With [`Self::written`] this fixes the whole record.
    pub closed spec fn wf(&self) -> bool {
        &&& self.position <= N
        &&& forall|i: int| self.position <= i < N ==> #[trigger] self.bytes@[i] == 0
    }

    /// The whole record as it stands.
    pub closed spec fn record(&self) -> Seq<u8> {
        self.bytes@
    }

    /// What has been written so far.
    pub closed spec fn written(&self) -> Seq<u8> {
        self.bytes@.take(self.position as int)
    }

    /// The record is what has been written, with zeroes up to its end.
    pub proof fn lemma_record(&self)
        requires
            self.wf(),
        ensures
            self.record().len() == N,
            self.written().len() <= N,
            forall|i: int|
                0 <= i < N ==> #[trigger] self.record()[i] == if i < self.written().len() {
                    self.written()[i]
                } else {
                    0
                },
    {
    }

    /// An empty record.
    pub fn new() -> (writer: Self)
        ensures
            writer.wf(),
            writer.written() == Seq::<u8>::empty(),
    {
        WireWriter { bytes: [0; N], position: 0 }
    }

    /// Appends the `width` low bytes of `value`.
    fn le(&mut self, value: u64, width: usize)
        requires
            old(self).wf(),
            old(self).written().len() + width <= N,
        ensures
            final(self).wf(),
            final(self).written() == old(self).written() + le_bytes(value as nat, width as nat),
    {
        proof {
            reveal(le_bytes);
        }
        let mut rest: u64 = value;
        let mut done: usize = 0;
        while done < width
            invariant
                self.wf(),
                done <= width,
                self.written().len() + (width - done) <= N,
                self.written() + le_bytes(rest as nat, (width - done) as nat) == old(self).written()
                    + le_bytes(value as nat, width as nat),
            decreases width - done,
        {
            let ghost before = self.written();
            let digit: u8 = (rest % 256) as u8;
            self.bytes[self.position] = digit;
            self.position = self.position + 1;
            proof {
                reveal(le_bytes);
                assert(self.written() =~= before.push(digit));
                let tail = le_bytes(rest as nat / 256, (width - done - 1) as nat);
                assert(before + le_bytes(rest as nat, (width - done) as nat) =~= self.written()
                    + tail);
            }
            rest = rest / 256;
            done = done + 1;
        }
        assert(self.written() + le_bytes(rest as nat, 0) =~= self.written());
    }

    /// Appends a `u16`.
    pub fn u16(&mut self, value: u16)
        requires
            old(self).wf(),
            old(self).written().len() + 2 <= N,
        ensures
            final(self).wf(),
            final(self).written() == old(self).written() + le16(value),
    {
        self.le(value as u64, 2);
    }

    /// Appends a `u32`.
    pub fn u32(&mut self, value: u32)
        requires
            old(self).wf(),
            old(self).written().len() + 4 <= N,
        ensures
            final(self).wf(),
            final(self).written() == old(self).written() + le32(value),
    {
        self.le(value as u64, 4);
    }

    /// Appends a `u64`.
    pub fn u64(&mut self, value: u64)
        requires
            old(self).wf(),
            old(self).written().len() + 8 <= N,
        ensures
            final(self).wf(),
            final(self).written() == old(self).written() + le64(value),
    {
        self.le(value, 8);
    }

    /// Appends a frame header.
    pub fn header(&mut self, value: &ForeignHeader)
        requires
            old(self).wf(),
            old(self).written().len() + 16 <= N,
        ensures
            final(self).wf(),
            final(self).written() == old(self).written() + value.wire(),
    {
        broadcast use lemma_append_associative;

        self.u32(value.magic);
        self.u16(value.version);
        self.u16(value.architecture);
        self.u32(value.size);
        self.u32(value.code);
    }

    /// Appends consecutive words.
    pub fn words(&mut self, values: &[u64])
        requires
            old(self).wf(),
            old(self).written().len() + 8 * values@.len() <= N,
        ensures
            final(self).wf(),
            final(self).written() == old(self).written() + words_wire(values@),
    {
        broadcast use lemma_append_associative;

        let mut done: usize = 0;
        assert(self.written() =~= self.written() + words_wire(values@.take(0)));
        while done < values.len()
            invariant
                self.wf(),
                done <= values@.len(),
                self.written().len() + 8 * (values@.len() - done) <= N,
                self.written() == old(self).written() + words_wire(values@.take(done as int)),
            decreases values@.len() - done,
        {
            self.u64(values[done]);
            proof {
                lemma_words_take(values@, done as int);
            }
            done = done + 1;
        }
        assert(values@.take(done as int) =~= values@);
    }

    /// Appends the header of a register state.
    fn state_header(&mut self, value: &StateHeader)
        requires
            old(self).wf(),
            old(self).written().len() + 16 <= N,
        ensures
            final(self).wf(),
            final(self).written() == old(self).written() + value.wire(),
    {
        broadcast use lemma_append_associative;

        self.u32(value.magic);
        self.u16(value.version);
        self.u16(value.architecture);
        self.u32(value.size);
        self.u32(value.flags);
    }

    /// Appends vector registers.
    fn vectors(&mut self, values: &[Aarch64Vector])
        requires
            old(self).wf(),
            old(self).written().len() + 16 * values@.len() <= N,
        ensures
            final(self).wf(),
            final(self).written() == old(self).written() + vectors_wire(values@),
    {
        broadcast use lemma_append_associative;

        let mut done: usize = 0;
        assert(self.written() =~= self.written() + vectors_wire(values@.take(0)));
        while done < values.len()
            invariant
                self.wf(),
                done <= values@.len(),
                self.written().len() + 16 * (values@.len() - done) <= N,
                self.written() == old(self).written() + vectors_wire(values@.take(done as int)),
            decreases values@.len() - done,
        {
            self.u64(values[done].low);
            self.u64(values[done].high);
            proof {
                lemma_vectors_take(values@, done as int);
            }
            done = done + 1;
        }
        assert(values@.take(done as int) =~= values@);
    }

    /// Appends an exception record.
    fn exception(&mut self, value: &Aarch64ExceptionState)
        requires
            old(self).wf(),
            old(self).written().len() + 32 <= N,
        ensures
            final(self).wf(),
            final(self).written() == old(self).written() + value.wire(),
    {
        broadcast use lemma_append_associative;

        self.u32(value.kind);
        self.u32(value.flags);
        self.u64(value.esr);
        self.u64(value.far);
        self.u64(value.pc);
    }

    /// Appends a register state: 896 bytes, and no other byte of the record
    /// changes.
    pub fn state(&mut self, value: &Aarch64StateV1)
        requires
            old(self).wf(),
            old(self).written().len() + 896 <= N,
        ensures
            final(self).wf(),
            final(self).written() == old(self).written() + value.wire(),
            final(self).written().len() == old(self).written().len() + 896,
            forall|i: int|
                0 <= i < N && !(old(self).written().len() <= i < old(self).written().len() + 896)
                    ==> #[trigger] final(self).record()[i] == old(self).record()[i],
    {
        let ghost start = self.written();
        self.state_header(&value.header);
        self.words(&value.x);
        self.u64(value.sp);
        self.u64(value.pc);
        self.u64(value.pstate);
        self.u64(value.tpidr_el0);
        self.u64(value.tpidrro_el0);
        self.vectors(&value.vectors);
        self.u32(value.fpcr);
        self.u32(value.fpsr);
        self.exception(&value.exception);
        self.words(&value.reserved);
        proof {
            lemma_append_state(start, *value);
            value.lemma_wire_len();
            old(self).lemma_record();
            self.lemma_record();
        }
    }

    /// Hands out the record once it is complete.
    pub fn finish(self) -> (bytes: [u8; N])
        requires
            self.wf(),
            self.written().len() == N,
        ensures
            bytes@ == self.written(),
    {
        assert(self.bytes@.take(self.position as int) =~= self.bytes@);
        self.bytes
    }
}

/// Reads the number in the `width` bytes that start at `offset`.
pub fn read_le(bytes: &[u8], offset: usize, width: usize) -> (value: u64)
    requires
        width <= 8,
        offset + width <= bytes@.len(),
    ensures
        value == field(bytes@, offset as int, width as int),
        value < le_range(width as nat),
{
    let mut value: u64 = 0;
    let mut left: usize = width;
    proof {
        reveal(le_value);
        assert(bytes@.subrange(offset + left, offset + width) =~= Seq::<u8>::empty());
    }
    while left > 0
        invariant
            left <= width <= 8,
            offset + width <= bytes@.len(),
            value == le_value(bytes@.subrange(offset + left, offset + width)),
        decreases left,
    {
        assert(bytes.len() <= usize::MAX);
        let digit: u8 = bytes[offset + left - 1];
        proof {
            reveal(le_value);
            let known = bytes@.subrange(offset + left, offset + width);
            let wider = bytes@.subrange(offset + left - 1, offset + width);
            assert(wider.drop_first() =~= known);
            assert(wider[0] == digit);
            lemma_le_bytes_of_le_value(wider);
            lemma_le_range_grows(wider.len(), 8);
            lemma_le_range();
        }
        value = value * 256 + digit as u64;
        left = left - 1;
    }
    proof {
        lemma_le_bytes_of_le_value(bytes@.subrange(offset as int, offset + width));
    }
    value
}

/// Consumes a byte slice from the front.
pub struct WireReader<'a> {
    bytes: &'a [u8],
    position: usize,
}

impl<'a> WireReader<'a> {
    /// The position stays inside the slice.
    pub closed spec fn wf(&self) -> bool {
        self.position <= self.bytes@.len()
    }

    /// All the bytes there are to read.
    pub closed spec fn source(&self) -> Seq<u8> {
        self.bytes@
    }

    /// What has been read so far.
    pub closed spec fn consumed(&self) -> Seq<u8> {
        self.bytes@.take(self.position as int)
    }

    /// The next `count` bytes.
    pub open spec fn upcoming(&self, count: int) -> Seq<u8> {
        let start = self.consumed().len() as int;
        self.source().subrange(start, start + count)
    }

    /// Whether this reader is `before` after it has read `part`.
    pub open spec fn advanced(&self, before: &Self, part: Seq<u8>) -> bool {
        &&& self.wf()
        &&& self.source() == before.source()
        &&& self.consumed() == before.consumed() + part
    }

    /// A reader at the start of `bytes`.
    pub fn new(bytes: &'a [u8]) -> (reader: Self)
        ensures
            reader.wf(),
            reader.source() == bytes@,
            reader.consumed() == Seq::<u8>::empty(),
    {
        WireReader { bytes, position: 0 }
    }

    /// Reads the number in the next `width` bytes.
    fn le(&mut self, width: usize) -> (value: u64)
        requires
            old(self).wf(),
            width <= 8,
            old(self).consumed().len() + width <= old(self).source().len(),
        ensures
            final(self).advanced(old(self), le_bytes(value as nat, width as nat)),
            value < le_range(width as nat),
    {
        assert(self.bytes.len() <= usize::MAX);
        let end: usize = self.position + width;
        let value: u64 = read_le(self.bytes, self.position, width);
        proof {
            let part = self.bytes@.subrange(self.position as int, end as int);
            lemma_le_bytes_of_le_value(part);
            assert(self.bytes@.take(end as int) =~= self.consumed() + part);
        }
        self.position = end;
        value
    }

    /// Reads a `u16`.
    pub fn u16(&mut self) -> (value: u16)
        requires
            old(self).wf(),
            old(self).consumed().len() + 2 <= old(self).source().len(),
        ensures
            final(self).advanced(old(self), le16(value)),
    {
        proof {
            lemma_le_range();
        }
        self.le(2) as u16
    }

    /// Reads a `u32`.
    pub fn u32(&mut self) -> (value: u32)
        requires
            old(self).wf(),
            old(self).consumed().len() + 4 <= old(self).source().len(),
        ensures
            final(self).advanced(old(self), le32(value)),
    {
        proof {
            lemma_le_range();
        }
        self.le(4) as u32
    }

    /// Reads a `u64`.
    pub fn u64(&mut self) -> (value: u64)
        requires
            old(self).wf(),
            old(self).consumed().len() + 8 <= old(self).source().len(),
        ensures
            final(self).advanced(old(self), le64(value)),
    {
        self.le(8)
    }

    /// Reads a frame header.
    pub fn header(&mut self) -> (value: ForeignHeader)
        requires
            old(self).wf(),
            old(self).consumed().len() + 16 <= old(self).source().len(),
        ensures
            final(self).advanced(old(self), value.wire()),
    {
        broadcast use lemma_append_associative;

        ForeignHeader {
            magic: self.u32(),
            version: self.u16(),
            architecture: self.u16(),
            size: self.u32(),
            code: self.u32(),
        }
    }

    /// Reads `K` consecutive words.
    pub fn words<const K: usize>(&mut self) -> (values: [u64; K])
        requires
            old(self).wf(),
            old(self).consumed().len() + 8 * K <= old(self).source().len(),
        ensures
            final(self).advanced(old(self), words_wire(values@)),
    {
        broadcast use lemma_append_associative;

        let mut values: [u64; K] = [0; K];
        let mut done: usize = 0;
        assert(self.consumed() =~= self.consumed() + words_wire(values@.take(0)));
        while done < K
            invariant
                done <= K,
                old(self).consumed().len() + 8 * K <= self.source().len(),
                self.advanced(old(self), words_wire(values@.take(done as int))),
            decreases K - done,
        {
            let ghost shorter = values@.take(done as int);
            let value: u64 = self.u64();
            values[done] = value;
            proof {
                assert(values@.take(done as int) =~= shorter);
                lemma_words_take(values@, done as int);
                assert(self.consumed() == old(self).consumed() + words_wire(
                    values@.take(done + 1),
                ));
            }
            done = done + 1;
        }
        assert(values@.take(done as int) =~= values@);
        values
    }

    /// Reads the header of a register state.
    fn state_header(&mut self) -> (value: StateHeader)
        requires
            old(self).wf(),
            old(self).consumed().len() + 16 <= old(self).source().len(),
        ensures
            final(self).advanced(old(self), value.wire()),
    {
        broadcast use lemma_append_associative;

        StateHeader {
            magic: self.u32(),
            version: self.u16(),
            architecture: self.u16(),
            size: self.u32(),
            flags: self.u32(),
        }
    }

    /// Reads all the vector registers.
    fn vectors(&mut self) -> (values: [Aarch64Vector; 32])
        requires
            old(self).wf(),
            old(self).consumed().len() + 512 <= old(self).source().len(),
        ensures
            final(self).advanced(old(self), vectors_wire(values@)),
    {
        broadcast use lemma_append_associative;

        let mut values: [Aarch64Vector; 32] = [Aarch64Vector::default();32];
        let mut done: usize = 0;
        assert(self.consumed() =~= self.consumed() + vectors_wire(values@.take(0)));
        while done < 32
            invariant
                done <= 32,
                old(self).consumed().len() + 512 <= self.source().len(),
                self.advanced(old(self), vectors_wire(values@.take(done as int))),
            decreases 32 - done,
        {
            let ghost shorter = values@.take(done as int);
            let low: u64 = self.u64();
            let high: u64 = self.u64();
            values[done] = Aarch64Vector { low, high };
            proof {
                assert(values@.take(done as int) =~= shorter);
                lemma_vectors_take(values@, done as int);
                assert(self.consumed() == old(self).consumed() + vectors_wire(
                    values@.take(done + 1),
                ));
            }
            done = done + 1;
        }
        assert(values@.take(done as int) =~= values@);
        values
    }

    /// Reads an exception record.
    fn exception(&mut self) -> (value: Aarch64ExceptionState)
        requires
            old(self).wf(),
            old(self).consumed().len() + 32 <= old(self).source().len(),
        ensures
            final(self).advanced(old(self), value.wire()),
    {
        broadcast use lemma_append_associative;

        Aarch64ExceptionState {
            kind: self.u32(),
            flags: self.u32(),
            esr: self.u64(),
            far: self.u64(),
            pc: self.u64(),
        }
    }

    /// Reads a register state: the one state whose encoding the next 896 bytes
    /// are.
    pub fn state(&mut self) -> (value: Aarch64StateV1)
        requires
            old(self).wf(),
            old(self).consumed().len() + 896 <= old(self).source().len(),
        ensures
            final(self).advanced(old(self), value.wire()),
            forall|other: Aarch64StateV1| #[trigger]
                other.wire() == old(self).upcoming(896) <==> other == value,
    {
        let ghost start = self.consumed();
        let header: StateHeader = self.state_header();
        let x: [u64; 31] = self.words();
        let sp: u64 = self.u64();
        let pc: u64 = self.u64();
        let pstate: u64 = self.u64();
        let tpidr_el0: u64 = self.u64();
        let tpidrro_el0: u64 = self.u64();
        let vectors: [Aarch64Vector; 32] = self.vectors();
        let fpcr: u32 = self.u32();
        let fpsr: u32 = self.u32();
        let exception: Aarch64ExceptionState = self.exception();
        let reserved: [u64; 5] = self.words();
        let state = Aarch64StateV1 {
            header,
            x,
            sp,
            pc,
            pstate,
            tpidr_el0,
            tpidrro_el0,
            vectors,
            fpcr,
            fpsr,
            exception,
            reserved,
        };
        proof {
            lemma_append_state(start, state);
            state.lemma_wire_len();
            self.lemma_read_was_upcoming(old(self), state.wire());
            assert forall|other: Aarch64StateV1| #[trigger]
                other.wire() == state.wire() implies other == state by {
                state_wire_injective(other, state);
            }
        }
        state
    }

    /// What a reader has read are the bytes that were next.
    pub proof fn lemma_read_was_upcoming(&self, before: &Self, part: Seq<u8>)
        requires
            self.advanced(before, part),
        ensures
            part == before.upcoming(part.len() as int),
    {
        let start = before.consumed().len() as int;
        let read = before.upcoming(part.len() as int);
        assert(self.consumed().len() == start + part.len());
        assert forall|i: int| 0 <= i < part.len() implies part[i] == #[trigger] read[i] by {
            assert(self.consumed()[start + i] == part[i]);
            assert(self.consumed()[start + i] == self.source()[start + i]);
        }
        assert(part =~= read);
    }

    /// A reader that has consumed all its bytes has consumed the source.
    pub proof fn lemma_finished(&self)
        requires
            self.wf(),
            self.consumed().len() == self.source().len(),
        ensures
            self.consumed() == self.source(),
    {
        assert(self.consumed() =~= self.source());
    }
}

} // verus!
