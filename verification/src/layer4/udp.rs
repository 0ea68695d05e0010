//! The UDP header.

use crate::bindings::UdpHdr;
use crate::buf::{spec_take, NetBuf, RawBuf, RawBufMut};
use crate::bytes::{be16, be16_bytes, lemma_be16_roundtrip};
use crate::error::Result;
use crate::net::{FromBytes, Packet};
use vstd::prelude::*;

verus! {

/// A view of the UDP header that lies at address `hdr` in the buffer of the
/// cursor `buf`. The cursor stands behind the header, where the datagram's
/// payload begins.
pub struct Udp<'a, T: RawBuf> {
    /// The address of the header.
    pub hdr: usize,
    /// The cursor, which stands behind the header.
    pub buf: NetBuf<'a, T>,
}

impl<'a, T: RawBuf> Udp<'a, T> {
    /// The distance from the start of the buffer to the header.
    pub open spec fn hdr_offset(&self) -> int {
        self.hdr - self.buf.spec_start()
    }

    /// The source port.
    pub open spec fn spec_source(&self) -> u16 {
        be16(self.buf.bytes(), self.hdr_offset())
    }

    /// The destination port.
    pub open spec fn spec_dest(&self) -> u16 {
        be16(self.buf.bytes(), self.hdr_offset() + 2)
    }

    /// The length of header and payload together.
    pub open spec fn spec_len(&self) -> u16 {
        be16(self.buf.bytes(), self.hdr_offset() + 4)
    }

    /// The checksum.
    pub open spec fn spec_check(&self) -> u16 {
        be16(self.buf.bytes(), self.hdr_offset() + 6)
    }

    /// Whether `self` is `before` with the bytes of the header from `at` on
    /// replaced by `data`, and nothing else changed.
    pub open spec fn patched(&self, before: Self, at: int, data: Seq<u8>) -> bool {
        self.hdr == before.hdr && self.buf.rewritten(before.buf, before.hdr_offset() + at, data)
    }

    /// The distance from the start of the buffer to the byte `k` of the
    /// header.
    fn field(&self, k: usize) -> (r: usize)
        requires
            self.wf(),
            k <= 8,
        ensures
            r == self.hdr_offset() + k,
            r + (8 - k) <= self.buf.bytes().len(),
    {
        proof {
            self.buf.lemma_end();
        }
        self.hdr - self.buf.start() + k
    }

    /// The source port, in the byte order of the host.
    pub fn source(&self) -> (r: u16)
        requires
            self.wf(),
        ensures
            r == self.spec_source(),
    {
        self.buf.get_be16(self.field(0))
    }

    /// The destination port, in the byte order of the host.
    pub fn dest(&self) -> (r: u16)
        requires
            self.wf(),
        ensures
            r == self.spec_dest(),
    {
        self.buf.get_be16(self.field(2))
    }

    /// The length of header and payload together, in the byte order of the
    /// host.
    pub fn len(&self) -> (r: u16)
        requires
            self.wf(),
        ensures
            r == self.spec_len(),
    {
        self.buf.get_be16(self.field(4))
    }

    /// The checksum, in the byte order of the host.
    pub fn check(&self) -> (r: u16)
        requires
            self.wf(),
        ensures
            r == self.spec_check(),
    {
        self.buf.get_be16(self.field(6))
    }
}

impl<'a, T: RawBufMut> Udp<'a, T> {
    /// Sets the source port; `val` is written in network byte order.
    pub fn set_source(&mut self, val: u16)
        requires
            old(self).wf(),
        ensures
            final(self).wf(),
            final(self).patched(*old(self), 0, be16_bytes(val)),
            *final(final(self).buf.buf) == *final(old(self).buf.buf),
            final(self).spec_source() == val,
    {
        let at: usize = self.field(0);
        self.buf.put_be16(at, val);
        proof {
            lemma_be16_roundtrip(old(self).buf.bytes(), at as int, val);
        }
    }

    /// Sets the destination port; `val` is written in network byte order.
    pub fn set_dest(&mut self, val: u16)
        requires
            old(self).wf(),
        ensures
            final(self).wf(),
            final(self).patched(*old(self), 2, be16_bytes(val)),
            *final(final(self).buf.buf) == *final(old(self).buf.buf),
            final(self).spec_dest() == val,
    {
        let at: usize = self.field(2);
        self.buf.put_be16(at, val);
        proof {
            lemma_be16_roundtrip(old(self).buf.bytes(), at as int, val);
        }
    }

    /// Sets the length of header and payload together; `val` is written in
    /// network byte order.
    pub fn set_len(&mut self, val: u16)
        requires
            old(self).wf(),
        ensures
            final(self).wf(),
            final(self).patched(*old(self), 4, be16_bytes(val)),
            *final(final(self).buf.buf) == *final(old(self).buf.buf),
            final(self).spec_len() == val,
    {
        let at: usize = self.field(4);
        self.buf.put_be16(at, val);
        proof {
            lemma_be16_roundtrip(old(self).buf.bytes(), at as int, val);
        }
    }

    /// Sets the checksum; `val` is written in network byte order.
    pub fn set_check(&mut self, val: u16)
        requires
            old(self).wf(),
        ensures
            final(self).wf(),
            final(self).patched(*old(self), 6, be16_bytes(val)),
            *final(final(self).buf.buf) == *final(old(self).buf.buf),
            final(self).spec_check() == val,
    {
        let at: usize = self.field(6);
        self.buf.put_be16(at, val);
        proof {
            lemma_be16_roundtrip(old(self).buf.bytes(), at as int, val);
        }
    }
}

impl<'a, T: RawBuf> Packet<'a, T> for Udp<'a, T> {
    type Encapsulated = NetBuf<'a, T>;

    /// The header lies inside the buffer at an address that is not null, and
    /// the cursor stands right behind it.
    open spec fn wf(&self) -> bool {
        &&& self.buf.wf()
        &&& self.hdr != 0
        &&& self.buf.spec_start() <= self.hdr
        &&& self.buf.nh_offset == self.hdr - self.buf.spec_start() + 8
    }

    open spec fn spec_buf(&self) -> NetBuf<'a, T> {
        self.buf
    }

    open spec fn spec_parse(&self) -> Result<Self::Encapsulated> {
        Ok(self.buf)
    }

    fn data(self) -> (r: NetBuf<'a, T>)
        ensures
            r == self.spec_buf(),
    {
        self.buf
    }

    fn buf_ref(&self) -> (r: &NetBuf<'a, T>)
        ensures
            *r == self.spec_buf(),
    {
        &self.buf
    }

    /// Nothing is parsed below UDP: the payload is the cursor.
    fn parse(self) -> (r: Result<Self::Encapsulated>)
        ensures
            r == self.spec_parse(),
            r matches Ok(v) ==> v.wf(),
    {
        Ok(self.buf)
    }
}

impl<'a, T: RawBuf> FromBytes<'a, T> for Udp<'a, T> {
    open spec fn valid(&self) -> bool {
        self.wf()
    }

    open spec fn spec_from_bytes(buf: NetBuf<'a, T>) -> Result<Self> {
        match spec_take(buf, 8) {
            Ok(t) => Ok(Udp { hdr: t.0, buf: t.1 }),
            Err(e) => Err(e),
        }
    }

    /// Takes the 8 bytes at the cursor as a UDP header. Fails with
    /// `OutOfBounds` if fewer are left, and with `NullPtr` if the header's
    /// address is null.
    fn from_bytes(buf: NetBuf<'a, T>) -> (r: Result<Self>)
        ensures
            r == Self::spec_from_bytes(buf),
            r matches Ok(v) ==> v.valid(),
    {
        match buf.take::<UdpHdr>() {
            Ok((hdr, buf)) => Ok(Udp { hdr, buf }),
            Err(e) => Err(e),
        }
    }
}

} // verus!
