//! The contracts that every protocol type meets: conversion from network
//! byte order, construction from a cursor, and descent into the next layer.

use crate::buf::{NetBuf, RawBuf};
use crate::bytes::{lemma_join32, lemma_split32, swap16, swap32};
use crate::error::Result;
use vstd::prelude::*;

verus! {

/// An integer that can be converted from network byte order to the byte
/// order of the host.
pub trait FromBe: Sized {
    /// The value that `self` becomes.
    spec fn spec_from_be(&self) -> Self;

    fn from_be(&self) -> (r: Self)
        ensures
            r == self.spec_from_be(),
    ;

    /// Converting twice gives the value back, so the conversion is also the
    /// one from host to network byte order.
    proof fn lemma_from_be_involution(&self)
        ensures
            self.spec_from_be().spec_from_be() == *self,
    ;
}

impl FromBe for u8 {
    open spec fn spec_from_be(&self) -> Self {
        *self
    }

    fn from_be(&self) -> (r: Self)
        ensures
            r == self.spec_from_be(),
    {
        *self
    }

    proof fn lemma_from_be_involution(&self) {
        assert(self.spec_from_be().spec_from_be() == *self);
    }
}

impl FromBe for u16 {
    open spec fn spec_from_be(&self) -> Self {
        swap16(*self)
    }

    fn from_be(&self) -> (r: Self)
        ensures
            r == self.spec_from_be(),
    {
        let x: u16 = *self;
        (x % 0x100) * 0x100 + x / 0x100
    }

    proof fn lemma_from_be_involution(&self) {
        assert(self.spec_from_be().spec_from_be() == *self);
    }
}

impl FromBe for u32 {
    open spec fn spec_from_be(&self) -> Self {
        swap32(*self)
    }

    fn from_be(&self) -> (r: Self)
        ensures
            r == self.spec_from_be(),
    {
        let x: u32 = *self;
        (x % 0x100) * 0x100_0000 + (x / 0x100 % 0x100) * 0x1_0000 + (x / 0x1_0000 % 0x100) * 0x100
            + x / 0x100_0000
    }

    proof fn lemma_from_be_involution(&self) {
        let y = *self;
        lemma_split32(y);
        lemma_join32(
            (y % 0x100) as u8,
            (y / 0x100 % 0x100) as u8,
            (y / 0x1_0000 % 0x100) as u8,
            (y / 0x100_0000) as u8,
        );
        assert(self.spec_from_be().spec_from_be() == *self);
    }
}

/// A protocol type that can be built from the bytes at a cursor.
pub trait FromBytes<'a, T: RawBuf + 'a>: Sized {
    /// Whether `self` is a well-formed value of the type.
    spec fn valid(&self) -> bool;

    /// What building a value from `buf` gives.
    spec fn spec_from_bytes(buf: NetBuf<'a, T>) -> Result<Self>;

    /// Reads the bytes at the cursor as a value of this type. On success the
    /// value owns the cursor, moved past the bytes that were read. On failure
    /// the buffer is given back as it was.
    fn from_bytes(buf: NetBuf<'a, T>) -> (r: Result<Self>)
        requires
            buf.wf(),
        ensures
            r == Self::spec_from_bytes(buf),
            r matches Ok(v) ==> v.valid(),
            r is Err ==> *final(buf.buf) == *old(buf.buf),
    ;
}

/// A parsed layer of a packet. It owns the cursor, which stands where the
/// next layer begins.
pub trait Packet<'a, T: RawBuf + 'a>: Sized {
    /// What one parse step down from this layer gives.
    type Encapsulated;

    /// Whether `self` is a well-formed value of the type.
    spec fn wf(&self) -> bool;

    /// The cursor that `self` owns.
    spec fn spec_buf(&self) -> NetBuf<'a, T>;

    /// What one parse step down from `self` gives.
    spec fn spec_parse(&self) -> Result<Self::Encapsulated>;

    /// Gives up the cursor, which stands where the body or the next header
    /// begins.
    fn data(self) -> (r: NetBuf<'a, T>)
        requires
            self.wf(),
        ensures
            r == self.spec_buf(),
            r.wf(),
    ;

    /// The cursor, borrowed.
    fn buf_ref(&self) -> (r: &NetBuf<'a, T>)
        requires
            self.wf(),
        ensures
            *r == self.spec_buf(),
            r.wf(),
    ;

    /// Looks at the field that names the next protocol and parses the next
    /// layer accordingly. On failure the buffer is given back as it was.
    fn parse(self) -> (r: Result<Self::Encapsulated>)
        requires
            self.wf(),
        ensures
            r == self.spec_parse(),
            r is Err ==> *final(self.spec_buf().buf) == *old(self.spec_buf().buf),
    ;

    /// Gives up the cursor; another name for `data`.
    fn buf(self) -> (r: NetBuf<'a, T>)
        requires
            self.wf(),
        ensures
            r == self.spec_buf(),
            r.wf(),
    {
        self.data()
    }

    /// The distance from the start of the buffer to where the next layer
    /// begins.
    fn offset(&self) -> (r: usize)
        requires
            self.wf(),
        ensures
            r == self.spec_buf().nh_offset,
    {
        self.buf_ref().nh_offset
    }

    /// The number of bytes from where the next layer begins to the end of the
    /// buffer.
    fn len(&self) -> (r: usize)
        requires
            self.wf(),
        ensures
            r == self.spec_buf().bytes().len() - self.spec_buf().nh_offset,
    {
        let b = self.buf_ref();
        b.len() - b.nh_offset
    }

    /// The bytes from where the next layer begins to the end of the buffer.
    fn body<'b>(&'b self) -> (r: &'b [u8]) where 'a: 'b
        requires
            self.wf(),
        ensures
            r@ == self.spec_buf().bytes().subrange(
                self.spec_buf().nh_offset as int,
                self.spec_buf().bytes().len() as int,
            ),
    {
        let b = self.buf_ref();
        let m = b.as_slice();
        vstd::slice::slice_subrange(m, b.nh_offset, m.len())
    }

    /// Reads the bytes where the next layer begins as a `U`, whatever the
    /// field that names the next protocol says.
    fn parse_as<U: FromBytes<'a, T>>(self) -> (r: Result<U>)
        requires
            self.wf(),
        ensures
            r == U::spec_from_bytes(self.spec_buf()),
            r matches Ok(v) ==> v.valid(),
            r is Err ==> *final(self.spec_buf().buf) == *old(self.spec_buf().buf),
    {
        U::from_bytes(self.data())
    }
}

} // verus!
