use vstd::prelude::*;

use crate::bytes_view::{bytes_as_slice, bytes_content};
use crate::types::{FieldType, ValueEncoding};

verus! {

/// Largest count that the 3-byte length field of a packet can hold.
pub const MAX_PACKET_LENGTH: usize = 0xFF_FFFF;

/// The `k` low-order bytes of `v`, least significant first.
pub open spec fn le_bytes(v: u64, k: nat) -> Seq<u8> {
    Seq::new(k, |i: int| (v >> (8 * i) as u64) as u8)
}

/// The protocol's length-encoded integer.
pub open spec fn lenenc(n: u64) -> Seq<u8> {
    if n < 251 {
        seq![n as u8]
    } else if n < 0x1_0000 {
        seq![0xFCu8] + le_bytes(n, 2)
    } else if n < 0x100_0000 {
        seq![0xFDu8] + le_bytes(n, 3)
    } else {
        seq![0xFEu8] + le_bytes(n, 8)
    }
}

/// The bytes that a parameter value `v` of type `ty` takes in the value block.
pub open spec fn value_bytes(ty: FieldType, v: Seq<u8>) -> Seq<u8> {
    match ty.spec_encoding() {
        ValueEncoding::LengthPrefixed => lenenc(v.len() as u64) + v,
        _ => v,
    }
}

/// Byte buffer that packets are written into. `seq_no` and `encode_length`
/// treat it as one packet from its first byte: the 3-byte length field, then
/// the sequence number.
pub struct Encoder {
    pub buf: Vec<u8>,
}

impl Encoder {
    /// An empty buffer.
    pub fn new(capacity: usize) -> (r: Encoder)
        ensures
            r.buf@ == Seq::<u8>::empty(),
    {
        Encoder { buf: Vec::with_capacity(capacity) }
    }

    /// Appends the four header bytes (length field and sequence number), zeroed.
    pub fn alloc_packet_header(&mut self)
        ensures
            final(self).buf@ == old(self).buf@ + seq![0u8, 0u8, 0u8, 0u8],
    {
        let ghost start = self.buf@;
        self.buf.push(0);
        self.buf.push(0);
        self.buf.push(0);
        self.buf.push(0);
        assert(self.buf@ =~= start + seq![0u8, 0u8, 0u8, 0u8]);
    }

    /// Sets the packet's sequence number.
    pub fn seq_no(&mut self, seq_no: u8)
        requires
            old(self).buf@.len() >= 4,
        ensures
            final(self).buf@ == old(self).buf@.update(3, seq_no),
    {
        self.buf.set(3, seq_no);
    }

    pub fn encode_int_u8(&mut self, v: u8)
        ensures
            final(self).buf@ == old(self).buf@.push(v),
    {
        self.buf.push(v);
    }

    /// Appends the `k` low-order bytes of `v`, least significant first.
    pub fn encode_int_le(&mut self, v: u64, k: u64)
        requires
            k <= 8,
        ensures
            final(self).buf@ == old(self).buf@ + le_bytes(v, k as nat),
    {
        let ghost start = self.buf@;
        let mut i: u64 = 0;
        while i < k
            invariant
                i <= k <= 8,
                self.buf@ == start + le_bytes(v, i as nat),
            decreases k - i,
        {
            self.buf.push(#[verifier::truncate] ((v >> (8 * i)) as u8));
            i = i + 1;
            assert(self.buf@ =~= start + le_bytes(v, i as nat));
        }
    }

    /// Appends a signed 32-bit integer in two's complement, little-endian.
    pub fn encode_int_i32(&mut self, v: i32)
        ensures
            final(self).buf@ == old(self).buf@ + le_bytes(v as u32 as u64, 4),
    {
        self.encode_int_le(v as u32 as u64, 4);
    }

    /// Appends `n` as a length-encoded integer.
    pub fn encode_int_lenenc(&mut self, n: u64)
        ensures
            final(self).buf@ == old(self).buf@ + lenenc(n),
    {
        let ghost start = self.buf@;
        if n < 251 {
            self.buf.push(n as u8);
            assert(self.buf@ =~= start + lenenc(n));
        } else {
            let ghost mid = start.push(0u8);
            if n < 0x1_0000 {
                self.buf.push(0xFC);
                proof { mid = self.buf@; }
                self.encode_int_le(n, 2);
            } else if n < 0x100_0000 {
                self.buf.push(0xFD);
                proof { mid = self.buf@; }
                self.encode_int_le(n, 3);
            } else {
                self.buf.push(0xFE);
                proof { mid = self.buf@; }
                self.encode_int_le(n, 8);
            }
            assert(self.buf@ =~= start + lenenc(n));
        }
    }

    /// Appends the bytes of `s` as they are.
    pub fn encode_bytes(&mut self, s: &[u8])
        ensures
            final(self).buf@ == old(self).buf@ + s@,
    {
        let ghost start = self.buf@;
        let mut i: usize = 0;
        while i < s.len()
            invariant
                i <= s@.len(),
                self.buf@ == start + s@.subrange(0, i as int),
            decreases s@.len() - i,
        {
            self.buf.push(s[i]);
            i = i + 1;
            assert(self.buf@ =~= start + s@.subrange(0, i as int));
        }
        assert(s@.subrange(0, s@.len() as int) =~= s@);
    }

    /// Appends a parameter value as its type asks.
    pub fn encode_param(&mut self, param: &bytes::Bytes, field_type: FieldType)
        requires
            field_type.spec_encoding() != ValueEncoding::Unsupported,
        ensures
            final(self).buf@ == old(self).buf@ + value_bytes(field_type, bytes_content(*param)),
    {
        let ghost start = self.buf@;
        let s = bytes_as_slice(param);
        match field_type.encoding() {
            ValueEncoding::LengthPrefixed => {
                self.encode_int_lenenc(s.len() as u64);
                self.encode_bytes(s);
                assert(self.buf@ =~= start + value_bytes(field_type, bytes_content(*param)));
            },
            _ => {
                self.encode_bytes(s);
            },
        }
    }

    /// Writes into the length field the count of every byte that follows it.
    pub fn encode_length(&mut self)
        requires
            4 <= old(self).buf@.len() <= MAX_PACKET_LENGTH + 3,
        ensures
            final(self).buf@ == le_bytes((old(self).buf@.len() - 3) as u64, 3)
                + old(self).buf@.subrange(3, old(self).buf@.len() as int),
    {
        let ghost start = self.buf@;
        let n = (self.buf.len() - 3) as u64;
        self.buf.set(0, #[verifier::truncate] ((n >> 0u64) as u8));
        self.buf.set(1, #[verifier::truncate] ((n >> 8u64) as u8));
        self.buf.set(2, #[verifier::truncate] ((n >> 16u64) as u8));
        assert(le_bytes(n, 3) =~= seq![(n >> 0u64) as u8, (n >> 8u64) as u8, (n >> 16u64) as u8]);
        assert(self.buf@ =~= le_bytes(n, 3) + start.subrange(3, start.len() as int));
    }
}

} // verus!
