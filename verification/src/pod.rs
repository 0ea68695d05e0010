//! Types with a fixed size and alignment, and those among them that can be
//! copied out of and back into raw bytes.

use crate::bytes::{
    le16, le16_bytes, le32, le32_bytes, le64, le64_bytes, lemma_le32_roundtrip,
    lemma_le64_roundtrip,
};
use vstd::prelude::*;

verus! {

/// A type that occupies a fixed number of bytes in packet memory.
pub trait Layout {
    /// The number of bytes a value occupies.
    spec fn spec_size() -> nat;

    /// The alignment that a typed load of a value asks of its address.
    spec fn spec_align() -> nat;

    fn size() -> (r: usize)
        ensures
            r == Self::spec_size(),
    ;

    fn align() -> (r: usize)
        ensures
            r == Self::spec_align(),
            r >= 1,
    ;
}

/// A type whose values are fully described by the bytes they occupy, so that
/// a value can be copied out of a buffer and written back unchanged.
pub trait Pod: Layout + Sized {
    /// The value that `bytes` hold, as they lie in host memory.
    spec fn spec_decode(bytes: Seq<u8>) -> Self;

    /// The bytes that `self` occupies in host memory.
    spec fn spec_encode(&self) -> Seq<u8>;

    fn decode(bytes: &[u8]) -> (r: Self)
        requires
            bytes@.len() == Self::spec_size(),
        ensures
            r == Self::spec_decode(bytes@),
    ;

    fn encode(&self) -> (r: Vec<u8>)
        ensures
            r@ == self.spec_encode(),
    ;

    /// Encoding and decoding are inverse to each other on sequences of the
    /// type's size.
    proof fn lemma_roundtrip(bytes: Seq<u8>, v: Self)
        ensures
            v.spec_encode().len() == Self::spec_size(),
            Self::spec_decode(v.spec_encode()) == v,
            bytes.len() == Self::spec_size() ==> Self::spec_decode(bytes).spec_encode() == bytes,
    ;
}

impl Layout for u8 {
    open spec fn spec_size() -> nat {
        1
    }

    open spec fn spec_align() -> nat {
        1
    }

    fn size() -> (r: usize)
        ensures
            r == Self::spec_size(),
    {
        1
    }

    fn align() -> (r: usize)
        ensures
            r == Self::spec_align(),
    {
        1
    }
}

impl Pod for u8 {
    open spec fn spec_decode(bytes: Seq<u8>) -> Self {
        bytes[0]
    }

    open spec fn spec_encode(&self) -> Seq<u8> {
        seq![*self]
    }

    fn decode(bytes: &[u8]) -> (r: Self)
        ensures
            r == Self::spec_decode(bytes@),
    {
        bytes[0]
    }

    fn encode(&self) -> (r: Vec<u8>)
        ensures
            r@ == self.spec_encode(),
    {
        let mut out: Vec<u8> = Vec::new();
        out.push(*self);
        out
    }

    proof fn lemma_roundtrip(bytes: Seq<u8>, v: Self) {
        assert(v.spec_encode().len() == Self::spec_size());
        assert(Self::spec_decode(v.spec_encode()) == v);
        if bytes.len() == Self::spec_size() {
            assert(Self::spec_decode(bytes).spec_encode() =~= bytes);
        }
    }
}

impl Layout for u16 {
    open spec fn spec_size() -> nat {
        2
    }

    open spec fn spec_align() -> nat {
        2
    }

    fn size() -> (r: usize)
        ensures
            r == Self::spec_size(),
    {
        2
    }

    fn align() -> (r: usize)
        ensures
            r == Self::spec_align(),
    {
        2
    }
}

impl Pod for u16 {
    open spec fn spec_decode(bytes: Seq<u8>) -> Self {
        le16(bytes, 0)
    }

    open spec fn spec_encode(&self) -> Seq<u8> {
        le16_bytes(*self)
    }

    fn decode(bytes: &[u8]) -> (r: Self)
        ensures
            r == Self::spec_decode(bytes@),
    {
        let lo: u16 = bytes[0] as u16;
        let hi: u16 = bytes[1] as u16;
        lo + hi * 0x100
    }

    fn encode(&self) -> (r: Vec<u8>)
        ensures
            r@ == self.spec_encode(),
    {
        let mut out: Vec<u8> = Vec::new();
        out.push((*self % 0x100) as u8);
        out.push((*self / 0x100) as u8);
        assert(out@ =~= self.spec_encode());
        out
    }

    proof fn lemma_roundtrip(bytes: Seq<u8>, v: Self) {
        assert(v.spec_encode().len() == Self::spec_size());
        assert(Self::spec_decode(v.spec_encode()) == v);
        if bytes.len() == Self::spec_size() {
            assert(Self::spec_decode(bytes).spec_encode() =~= bytes);
        }
    }
}

impl Layout for u32 {
    open spec fn spec_size() -> nat {
        4
    }

    open spec fn spec_align() -> nat {
        4
    }

    fn size() -> (r: usize)
        ensures
            r == Self::spec_size(),
    {
        4
    }

    fn align() -> (r: usize)
        ensures
            r == Self::spec_align(),
    {
        4
    }
}

impl Pod for u32 {
    open spec fn spec_decode(bytes: Seq<u8>) -> Self {
        le32(bytes, 0)
    }

    open spec fn spec_encode(&self) -> Seq<u8> {
        le32_bytes(*self)
    }

    fn decode(bytes: &[u8]) -> (r: Self)
        ensures
            r == Self::spec_decode(bytes@),
    {
        let b0: u32 = bytes[0] as u32;
        let b1: u32 = bytes[1] as u32;
        let b2: u32 = bytes[2] as u32;
        let b3: u32 = bytes[3] as u32;
        b0 + b1 * 0x100 + b2 * 0x1_0000 + b3 * 0x100_0000
    }

    fn encode(&self) -> (r: Vec<u8>)
        ensures
            r@ == self.spec_encode(),
    {
        let mut out: Vec<u8> = Vec::new();
        out.push((*self % 0x100) as u8);
        out.push((*self / 0x100 % 0x100) as u8);
        out.push((*self / 0x1_0000 % 0x100) as u8);
        out.push((*self / 0x100_0000) as u8);
        assert(out@ =~= self.spec_encode());
        out
    }

    proof fn lemma_roundtrip(bytes: Seq<u8>, v: Self) {
        lemma_le32_roundtrip(le32_bytes(v), 0, v);
        if bytes.len() == Self::spec_size() {
            lemma_le32_roundtrip(bytes, 0, v);
            assert(bytes.subrange(0, 4) =~= bytes);
        }
    }
}

impl Layout for u64 {
    open spec fn spec_size() -> nat {
        8
    }

    open spec fn spec_align() -> nat {
        8
    }

    fn size() -> (r: usize)
        ensures
            r == Self::spec_size(),
    {
        8
    }

    fn align() -> (r: usize)
        ensures
            r == Self::spec_align(),
    {
        8
    }
}

impl Pod for u64 {
    open spec fn spec_decode(bytes: Seq<u8>) -> Self {
        le64(bytes, 0)
    }

    open spec fn spec_encode(&self) -> Seq<u8> {
        le64_bytes(*self)
    }

    fn decode(bytes: &[u8]) -> (r: Self)
        ensures
            r == Self::spec_decode(bytes@),
    {
        let lo: u32 = u32::decode(vstd::slice::slice_subrange(bytes, 0, 4));
        let hi: u32 = u32::decode(vstd::slice::slice_subrange(bytes, 4, 8));
        lo as u64 + (hi as u64) * 0x1_0000_0000
    }

    fn encode(&self) -> (r: Vec<u8>)
        ensures
            r@ == self.spec_encode(),
    {
        let mut out: Vec<u8> = ((*self % 0x1_0000_0000) as u32).encode();
        let mut hi: Vec<u8> = ((*self / 0x1_0000_0000) as u32).encode();
        out.append(&mut hi);
        out
    }

    proof fn lemma_roundtrip(bytes: Seq<u8>, v: Self) {
        lemma_le64_roundtrip(le64_bytes(v), 0, v);
        if bytes.len() == Self::spec_size() {
            lemma_le64_roundtrip(bytes, 0, v);
            assert(bytes.subrange(0, 8) =~= bytes);
        }
    }
}

} // verus!
