//! Fixed-size values with a defined byte encoding.
//!
//! Foreign records are interpreted as plain values through this trait: a
//! `Pod` type occupies a fixed number of bytes and can be read from and
//! written to a raw byte buffer, little-endian for the integer types.

use vstd::prelude::*;

verus! {

/// A fixed-size value with a total little-endian byte encoding.
///
/// Every byte string of length [`Pod::spec_size`] decodes to a value, and
/// encoding a value and decoding the bytes gives the value back.
pub trait Pod: Sized + Copy {
    /// Number of bytes a value occupies.
    spec fn spec_size() -> usize;

    /// The bytes a value is stored as.
    spec fn encode_spec(self) -> Seq<u8>;

    /// The value a byte string of length [`Pod::spec_size`] stands for.
    spec fn decode_spec(bytes: Seq<u8>) -> Self;

    /// A value occupies at least one byte.
    proof fn lemma_size_positive()
        ensures
            1 <= Self::spec_size(),
    ;

    /// Encoding produces exactly [`Pod::spec_size`] bytes, and decoding them
    /// gives the value back.
    proof fn lemma_round_trip(self)
        ensures
            self.encode_spec().len() == Self::spec_size(),
            Self::decode_spec(self.encode_spec()) == self,
    ;

    fn size() -> (r: usize)
        ensures
            r == Self::spec_size(),
    ;

    fn decode(bytes: &[u8]) -> (r: Self)
        requires
            bytes@.len() == Self::spec_size(),
        ensures
            r == Self::decode_spec(bytes@),
    ;

    fn encode(&self) -> (r: Vec<u8>)
        ensures
            r@ == self.encode_spec(),
    ;
}

impl Pod for u8 {
    open spec fn spec_size() -> usize {
        1
    }

    open spec fn encode_spec(self) -> Seq<u8> {
        seq![self]
    }

    open spec fn decode_spec(bytes: Seq<u8>) -> u8 {
        bytes[0]
    }

    proof fn lemma_size_positive() {
    }

    proof fn lemma_round_trip(self) {
        assert(self.encode_spec() == seq![self]);
    }

    fn size() -> usize {
        1
    }

    fn decode(bytes: &[u8]) -> u8 {
        bytes[0]
    }

    fn encode(&self) -> (r: Vec<u8>) {
        let mut v: Vec<u8> = Vec::new();
        v.push(*self);
        proof {
            assert(v@ =~= self.encode_spec());
        }
        v
    }
}

impl Pod for u16 {
    open spec fn spec_size() -> usize {
        2
    }

    open spec fn encode_spec(self) -> Seq<u8> {
        seq![(self % 0x100) as u8, (self / 0x100) as u8]
    }

    open spec fn decode_spec(bytes: Seq<u8>) -> u16 {
        (bytes[0] + 0x100 * bytes[1]) as u16
    }

    proof fn lemma_size_positive() {
    }

    proof fn lemma_round_trip(self) {
        assert(self % 0x100 + 0x100 * (self / 0x100) == self) by (bit_vector);
    }

    fn size() -> usize {
        2
    }

    fn decode(bytes: &[u8]) -> u16 {
        (bytes[0] as u16) + 0x100 * (bytes[1] as u16)
    }

    fn encode(&self) -> (r: Vec<u8>) {
        let mut v: Vec<u8> = Vec::new();
        v.push((*self % 0x100) as u8);
        v.push((*self / 0x100) as u8);
        proof {
            assert(v@ =~= self.encode_spec());
        }
        v
    }
}

impl Pod for u32 {
    open spec fn spec_size() -> usize {
        4
    }

    open spec fn encode_spec(self) -> Seq<u8> {
        seq![
            (self % 0x100) as u8,
            ((self / 0x100) % 0x100) as u8,
            ((self / 0x10000) % 0x100) as u8,
            ((self / 0x1000000) % 0x100) as u8,
        ]
    }

    open spec fn decode_spec(bytes: Seq<u8>) -> u32 {
        (bytes[0] + 0x100 * bytes[1] + 0x10000 * bytes[2] + 0x1000000 * bytes[3]) as u32
    }

    proof fn lemma_size_positive() {
    }

    proof fn lemma_round_trip(self) {
        assert(self % 0x100 + 0x100 * ((self / 0x100) % 0x100) + 0x10000 * ((self / 0x10000) % 0x100)
            + 0x1000000 * ((self / 0x1000000) % 0x100) == self) by (bit_vector);
    }

    fn size() -> usize {
        4
    }

    fn decode(bytes: &[u8]) -> u32 {
        (bytes[0] as u32) + 0x100 * (bytes[1] as u32) + 0x10000 * (bytes[2] as u32)
            + 0x1000000 * (bytes[3] as u32)
    }

    fn encode(&self) -> (r: Vec<u8>) {
        let mut v: Vec<u8> = Vec::new();
        v.push((*self % 0x100) as u8);
        v.push(((*self / 0x100) % 0x100) as u8);
        v.push(((*self / 0x10000) % 0x100) as u8);
        v.push(((*self / 0x1000000) % 0x100) as u8);
        proof {
            assert(v@ =~= self.encode_spec());
        }
        v
    }
}

impl Pod for u64 {
    open spec fn spec_size() -> usize {
        8
    }

    open spec fn encode_spec(self) -> Seq<u8> {
        seq![
            (self % 0x100) as u8,
            ((self / 0x100) % 0x100) as u8,
            ((self / 0x10000) % 0x100) as u8,
            ((self / 0x1000000) % 0x100) as u8,
            ((self / 0x100000000) % 0x100) as u8,
            ((self / 0x10000000000) % 0x100) as u8,
            ((self / 0x1000000000000) % 0x100) as u8,
            ((self / 0x100000000000000) % 0x100) as u8,
        ]
    }

    open spec fn decode_spec(bytes: Seq<u8>) -> u64 {
        (bytes[0] + 0x100 * bytes[1] + 0x10000 * bytes[2] + 0x1000000 * bytes[3]
            + 0x100000000 * bytes[4] + 0x10000000000 * bytes[5] + 0x1000000000000 * bytes[6]
            + 0x100000000000000 * bytes[7]) as u64
    }

    proof fn lemma_size_positive() {
    }

    proof fn lemma_round_trip(self) {
        assert(self % 0x100 + 0x100 * ((self / 0x100) % 0x100) + 0x10000 * ((self / 0x10000) % 0x100)
            + 0x1000000 * ((self / 0x1000000) % 0x100) + 0x100000000 * ((self / 0x100000000) % 0x100)
            + 0x10000000000 * ((self / 0x10000000000) % 0x100)
            + 0x1000000000000 * ((self / 0x1000000000000) % 0x100)
            + 0x100000000000000 * ((self / 0x100000000000000) % 0x100) == self) by (bit_vector);
    }

    fn size() -> usize {
        8
    }

    fn decode(bytes: &[u8]) -> u64 {
        (bytes[0] as u64) + 0x100 * (bytes[1] as u64) + 0x10000 * (bytes[2] as u64)
            + 0x1000000 * (bytes[3] as u64) + 0x100000000 * (bytes[4] as u64)
            + 0x10000000000 * (bytes[5] as u64) + 0x1000000000000 * (bytes[6] as u64)
            + 0x100000000000000 * (bytes[7] as u64)
    }

    fn encode(&self) -> (r: Vec<u8>) {
        let mut v: Vec<u8> = Vec::new();
        v.push((*self % 0x100) as u8);
        v.push(((*self / 0x100) % 0x100) as u8);
        v.push(((*self / 0x10000) % 0x100) as u8);
        v.push(((*self / 0x1000000) % 0x100) as u8);
        v.push(((*self / 0x100000000) % 0x100) as u8);
        v.push(((*self / 0x10000000000) % 0x100) as u8);
        v.push(((*self / 0x1000000000000) % 0x100) as u8);
        v.push(((*self / 0x100000000000000) % 0x100) as u8);
        proof {
            assert(v@ =~= self.encode_spec());
        }
        v
    }
}

} // verus!
