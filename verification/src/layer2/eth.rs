//! The Ethernet header.

use crate::bindings::{EthHdr, ETH_ALEN, ETH_P_IP};
use crate::buf::{spec_take, NetBuf, RawBuf, RawBufMut};
use crate::bytes::{be16, be16_bytes, lemma_be16_roundtrip};
use crate::error::{Error, Result};
use crate::layer3::{Ipv4, L3Proto};
use crate::net::{FromBytes, Packet};
use vstd::prelude::*;

verus! {

/// The protocols that an Ethernet frame can announce and that are handled.
#[derive(Debug, Clone, Copy, PartialEq, Eq, Structural)]
pub enum EthProto {
    Ipv4,
}

impl EthProto {
    /// The EtherType that announces the protocol.
    pub open spec fn spec_value(&self) -> u16 {
        match self {
            EthProto::Ipv4 => ETH_P_IP,
        }
    }

    /// The EtherType that announces the protocol.
    pub fn value(&self) -> (r: u16)
        ensures
            r == self.spec_value(),
    {
        match self {
            EthProto::Ipv4 => ETH_P_IP,
        }
    }
}

/// A view of the Ethernet header that lies at address `hdr` in the buffer of
/// the cursor `buf`: the destination address, the source address and the
/// EtherType. The cursor stands behind the header.
pub struct Ethernet<'a, T: RawBuf> {
    /// The address of the header.
    pub hdr: usize,
    /// The cursor, which stands behind the header.
    pub buf: NetBuf<'a, T>,
}

impl<'a, T: RawBuf> Ethernet<'a, T> {
    /// The distance from the start of the buffer to the header.
    pub open spec fn hdr_offset(&self) -> int {
        self.hdr - self.buf.spec_start()
    }

    /// The six bytes of the destination address.
    pub open spec fn spec_dest(&self) -> Seq<u8> {
        self.buf.bytes().subrange(self.hdr_offset(), self.hdr_offset() + 6)
    }

    /// The six bytes of the source address.
    pub open spec fn spec_source(&self) -> Seq<u8> {
        self.buf.bytes().subrange(self.hdr_offset() + 6, self.hdr_offset() + 12)
    }

    /// The EtherType.
    pub open spec fn spec_proto(&self) -> u16 {
        be16(self.buf.bytes(), self.hdr_offset() + 12)
    }

    /// Whether `self` is `before` with the bytes of the header from `at` on
    /// replaced by `data`, and nothing else changed.
    pub open spec fn patched(&self, before: Self, at: int, data: Seq<u8>) -> bool {
        self.hdr == before.hdr && self.buf.rewritten(before.buf, before.hdr_offset() + at, data)
    }

    /// The distance from the start of the buffer to the byte `k` of the
    /// header.
    fn field(&self, k: usize) -> (r: usize)
        requires
            self.wf(),
            k <= 14,
        ensures
            r == self.hdr_offset() + k,
            r + (14 - k) <= self.buf.bytes().len(),
    {
        proof {
            self.buf.lemma_end();
        }
        self.hdr - self.buf.start() + k
    }

    /// The six bytes of the header from byte `k` on.
    fn mac(&self, k: usize) -> (r: [u8; 6])
        requires
            self.wf(),
            k <= 8,
        ensures
            r@ == self.buf.bytes().subrange(self.hdr_offset() + k, self.hdr_offset() + k + 6),
    {
        let at: usize = self.field(k);
        let m = self.buf.as_slice();
        let r: [u8; 6] = [m[at], m[at + 1], m[at + 2], m[at + 3], m[at + 4], m[at + 5]];
        assert(r@ =~= self.buf.bytes().subrange(at as int, at + 6));
        r
    }

    /// The source address, byte for byte as it lies in the header.
    pub fn source(&self) -> (r: [u8; 6])
        requires
            self.wf(),
        ensures
            r@ == self.spec_source(),
    {
        self.mac(ETH_ALEN)
    }

    /// The destination address, byte for byte as it lies in the header.
    pub fn dest(&self) -> (r: [u8; 6])
        requires
            self.wf(),
        ensures
            r@ == self.spec_dest(),
    {
        self.mac(0)
    }

    /// The EtherType, in the byte order of the host.
    pub fn proto(&self) -> (r: u16)
        requires
            self.wf(),
        ensures
            r == self.spec_proto(),
    {
        self.buf.get_be16(self.field(12))
    }
}

impl<'a, T: RawBufMut> Ethernet<'a, T> {
    /// Sets the source address to the six bytes of `val`. `val` is borrowed
    /// apart from the buffer, so it cannot overlap the field that is
    /// written.
    pub fn set_source(&mut self, val: &[u8; 6])
        requires
            old(self).wf(),
        ensures
            final(self).wf(),
            final(self).patched(*old(self), 6, val@),
            *final(final(self).buf.buf) == *final(old(self).buf.buf),
            final(self).spec_source() == val@,
    {
        let at: usize = self.field(ETH_ALEN);
        self.buf.put_bytes(at, val.as_slice());
        assert(final(self).spec_source() =~= val@);
    }

    /// Sets the destination address to the six bytes of `val`. `val` is
    /// borrowed apart from the buffer, so it cannot overlap the field that
    /// is written.
    pub fn set_dest(&mut self, val: &[u8; 6])
        requires
            old(self).wf(),
        ensures
            final(self).wf(),
            final(self).patched(*old(self), 0, val@),
            *final(final(self).buf.buf) == *final(old(self).buf.buf),
            final(self).spec_dest() == val@,
    {
        let at: usize = self.field(0);
        self.buf.put_bytes(at, val.as_slice());
        assert(final(self).spec_dest() =~= val@);
    }

    /// Sets the EtherType; `val` is written in network byte order.
    pub fn set_proto(&mut self, val: u16)
        requires
            old(self).wf(),
        ensures
            final(self).wf(),
            final(self).patched(*old(self), 12, be16_bytes(val)),
            *final(final(self).buf.buf) == *final(old(self).buf.buf),
            final(self).spec_proto() == val,
    {
        let at: usize = self.field(12);
        self.buf.put_be16(at, val);
        proof {
            lemma_be16_roundtrip(old(self).buf.bytes(), at as int, val);
        }
    }
}

impl<'a, T: RawBuf> Packet<'a, T> for Ethernet<'a, T> {
    type Encapsulated = L3Proto<'a, T>;

    /// The header lies inside the buffer at an address that is not null, and
    /// the cursor stands right behind it.
    open spec fn wf(&self) -> bool {
        &&& self.buf.wf()
        &&& self.hdr != 0
        &&& self.buf.spec_start() <= self.hdr
        &&& self.buf.nh_offset == self.hdr - self.buf.spec_start() + 14
    }

    open spec fn spec_buf(&self) -> NetBuf<'a, T> {
        self.buf
    }

    open spec fn spec_parse(&self) -> Result<Self::Encapsulated> {
        if self.spec_proto() == ETH_P_IP {
            match Ipv4::spec_from_bytes(self.buf) {
                Ok(ip) => Ok(L3Proto::Ipv4(ip)),
                Err(e) => Err(e),
            }
        } else {
            Err(Error::UnimplementedProtocol(self.spec_proto() as u32))
        }
    }

    fn data(self) -> (r: NetBuf<'a, T>)
        ensures
            r == self.spec_buf(),
    {
        self.buf
    }

    fn buf_ref(&self) -> (r: &NetBuf<'a, T>)
        ensures
            *r == self.spec_buf(),
    {
        &self.buf
    }

    /// Parses what the EtherType announces: an IPv4 header. Any other
    /// EtherType fails with `UnimplementedProtocol` and the EtherType.
    fn parse(self) -> (r: Result<Self::Encapsulated>)
        ensures
            r == self.spec_parse(),
            r matches Ok(v) ==> v.wf(),
    {
        let p: u16 = self.proto();
        if p == ETH_P_IP {
            match Ipv4::from_bytes(self.buf) {
                Ok(ip) => Ok(L3Proto::Ipv4(ip)),
                Err(e) => Err(e),
            }
        } else {
            Err(Error::UnimplementedProtocol(p as u32))
        }
    }
}

/// Below an Ethernet header lies an IPv4 header exactly if the EtherType is
/// that of IPv4 and 20 bytes are left; the cursor then stands 20 bytes
/// further. With too few bytes left the parse is out of bounds, and any
/// other EtherType is reported as not implemented.
pub proof fn lemma_ethernet_parse<'a, T: RawBuf>(eth: Ethernet<'a, T>)
    requires
        eth.wf(),
    ensures
        eth.spec_proto() != ETH_P_IP ==> eth.spec_parse() == Err::<L3Proto<'a, T>, Error>(
            Error::UnimplementedProtocol(eth.spec_proto() as u32),
        ),
        eth.spec_proto() == ETH_P_IP && eth.buf.nh_offset + 20 > eth.buf.bytes().len()
            ==> eth.spec_parse() == Err::<L3Proto<'a, T>, Error>(Error::OutOfBounds),
        eth.spec_proto() == ETH_P_IP && eth.buf.nh_offset + 20 <= eth.buf.bytes().len() ==> {
            &&& eth.spec_parse() matches Ok(L3Proto::Ipv4(ip))
            &&& ip.wf()
            &&& ip.hdr == eth.hdr + 14
            &&& ip.buf.nh_offset == eth.buf.nh_offset + 20
            &&& ip.buf.buf == eth.buf.buf
        },
{
    eth.buf.lemma_end();
}

impl<'a, T: RawBuf> FromBytes<'a, T> for Ethernet<'a, T> {
    open spec fn valid(&self) -> bool {
        self.wf()
    }

    open spec fn spec_from_bytes(buf: NetBuf<'a, T>) -> Result<Self> {
        match spec_take(buf, 14) {
            Ok(t) => Ok(Ethernet { hdr: t.0, buf: t.1 }),
            Err(e) => Err(e),
        }
    }

    /// Takes the 14 bytes at the cursor as an Ethernet header. Fails with
    /// `OutOfBounds` if fewer are left, and with `NullPtr` if the header's
    /// address is null.
    fn from_bytes(buf: NetBuf<'a, T>) -> (r: Result<Self>)
        ensures
            r == Self::spec_from_bytes(buf),
            r matches Ok(v) ==> v.valid(),
    {
        match buf.take::<EthHdr>() {
            Ok((hdr, buf)) => Ok(Ethernet { hdr, buf }),
            Err(e) => Err(e),
        }
    }
}

} // verus!
