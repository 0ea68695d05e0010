//! The IPv4 header.

use crate::bindings::{IpHdr, IPPROTO_TCP, IPPROTO_UDP};
use crate::bits::{
    lemma_nibbles, lemma_set_bits, lemma_toggle_bit, lemma_toggle_bits, with_high_nibble,
    with_low_nibble,
};
use crate::buf::{spec_take, NetBuf, RawBuf, RawBufMut};
use crate::bytes::{
    be16, be16_bytes, be32, be32_bytes, lemma_be16_roundtrip, lemma_be32_roundtrip,
};
use crate::error::{Error, Result};
use crate::layer4::{L4Proto, Tcp, Udp};
use crate::net::{FromBytes, Packet};
use vstd::prelude::*;

verus! {

/// The bit of the "don't fragment" flag in the field of flags and fragment
/// offset.
pub const IP_DF: u16 = 0x4000;

/// The bit of the "more fragments" flag in the field of flags and fragment
/// offset.
pub const IP_MF: u16 = 0x2000;

/// A view of the IPv4 header that lies at address `hdr` in the buffer of the
/// cursor `buf`. The cursor stands behind the 20 bytes that every IPv4
/// header has; options, if the header has any, are not skipped.
pub struct Ipv4<'a, T: RawBuf> {
    /// The address of the header.
    pub hdr: usize,
    /// The cursor, which stands 20 bytes behind the start of the header.
    pub buf: NetBuf<'a, T>,
}

impl<'a, T: RawBuf> Ipv4<'a, T> {
    /// The distance from the start of the buffer to the header.
    pub open spec fn hdr_offset(&self) -> int {
        self.hdr - self.buf.spec_start()
    }

    /// The first byte of the header, which holds the header length in its
    /// low and the version in its high four bits.
    pub open spec fn spec_first(&self) -> u8 {
        self.buf.bytes()[self.hdr_offset()]
    }

    /// The header length in words of 32 bits.
    pub open spec fn spec_ihl(&self) -> u8 {
        self.spec_first() & 0x0F
    }

    /// The type of service.
    pub open spec fn spec_tos(&self) -> u8 {
        self.buf.bytes()[self.hdr_offset() + 1]
    }

    /// The length of header and body together.
    pub open spec fn spec_tot_len(&self) -> u16 {
        be16(self.buf.bytes(), self.hdr_offset() + 2)
    }

    /// The identification of the datagram.
    pub open spec fn spec_id(&self) -> u16 {
        be16(self.buf.bytes(), self.hdr_offset() + 4)
    }

    /// The field of flags and fragment offset.
    pub open spec fn spec_frag_off(&self) -> u16 {
        be16(self.buf.bytes(), self.hdr_offset() + 6)
    }

    /// Whether the "don't fragment" flag is set.
    pub open spec fn spec_df(&self) -> bool {
        self.spec_frag_off() & IP_DF != 0
    }

    /// Whether the "more fragments" flag is set.
    pub open spec fn spec_mf(&self) -> bool {
        self.spec_frag_off() & IP_MF != 0
    }

    /// The time to live.
    pub open spec fn spec_ttl(&self) -> u8 {
        self.buf.bytes()[self.hdr_offset() + 8]
    }

    /// The number of the protocol that the body holds.
    pub open spec fn spec_protocol(&self) -> u8 {
        self.buf.bytes()[self.hdr_offset() + 9]
    }

    /// The header checksum.
    pub open spec fn spec_check(&self) -> u16 {
        be16(self.buf.bytes(), self.hdr_offset() + 10)
    }

    /// The source address.
    pub open spec fn spec_sadder(&self) -> u32 {
        be32(self.buf.bytes(), self.hdr_offset() + 12)
    }

    /// The destination address.
    pub open spec fn spec_dadder(&self) -> u32 {
        be32(self.buf.bytes(), self.hdr_offset() + 16)
    }

    /// Whether `self` is `before` with the bytes of the header from `at` on
    /// replaced by `data`, and nothing else changed.
    pub open spec fn patched(&self, before: Self, at: int, data: Seq<u8>) -> bool {
        self.hdr == before.hdr && self.buf.rewritten(before.buf, before.hdr_offset() + at, data)
    }

    /// The distance from the start of the buffer to the byte `k` of the
    /// header.
    fn field(&self, k: usize) -> (r: usize)
        requires
            self.wf(),
            k <= 20,
        ensures
            r == self.hdr_offset() + k,
            r + (20 - k) <= self.buf.bytes().len(),
    {
        proof {
            self.buf.lemma_end();
        }
        self.hdr - self.buf.start() + k
    }

    /// The version of the protocol, which is 4 for every header that this
    /// type is a view of.
    pub fn version(&self) -> (r: u8)
        ensures
            r == 4,
    {
        4
    }

    /// The header length in words of 32 bits: 5 for a header without
    /// options, at most 15.
    pub fn ihl(&self) -> (r: u8)
        requires
            self.wf(),
        ensures
            r == self.spec_ihl(),
            r <= 15,
    {
        let first: u8 = self.buf.get_u8(self.field(0));
        proof {
            lemma_nibbles(first, first);
        }
        first & 0x0F
    }

    /// The type of service.
    pub fn tos(&self) -> (r: u8)
        requires
            self.wf(),
        ensures
            r == self.spec_tos(),
    {
        self.buf.get_u8(self.field(1))
    }

    /// The length of header and body together in bytes, in the byte order of
    /// the host.
    pub fn tot_len(&self) -> (r: u16)
        requires
            self.wf(),
        ensures
            r == self.spec_tot_len(),
    {
        self.buf.get_be16(self.field(2))
    }

    /// The identification of the datagram, in the byte order of the host.
    pub fn id(&self) -> (r: u16)
        requires
            self.wf(),
        ensures
            r == self.spec_id(),
    {
        self.buf.get_be16(self.field(4))
    }

    /// Whether the "don't fragment" flag is set: whether the bit `0x4000` of
    /// the field of flags and fragment offset, read in network byte order,
    /// is other than zero.
    pub fn df(&self) -> (r: bool)
        requires
            self.wf(),
        ensures
            r == self.spec_df(),
    {
        self.buf.get_be16(self.field(6)) & IP_DF != 0
    }

    /// Whether the "more fragments" flag is set: whether the bit `0x2000` of
    /// the field of flags and fragment offset, read in network byte order,
    /// is other than zero.
    pub fn mf(&self) -> (r: bool)
        requires
            self.wf(),
        ensures
            r == self.spec_mf(),
    {
        self.buf.get_be16(self.field(6)) & IP_MF != 0
    }

    /// The time to live.
    pub fn ttl(&self) -> (r: u8)
        requires
            self.wf(),
        ensures
            r == self.spec_ttl(),
    {
        self.buf.get_u8(self.field(8))
    }

    /// The number of the protocol that the body holds.
    pub fn protocol(&self) -> (r: u8)
        requires
            self.wf(),
        ensures
            r == self.spec_protocol(),
    {
        self.buf.get_u8(self.field(9))
    }

    /// The header checksum, in the byte order of the host.
    pub fn check(&self) -> (r: u16)
        requires
            self.wf(),
        ensures
            r == self.spec_check(),
    {
        self.buf.get_be16(self.field(10))
    }

    /// The source address, in the byte order of the host.
    pub fn sadder(&self) -> (r: u32)
        requires
            self.wf(),
        ensures
            r == self.spec_sadder(),
    {
        self.buf.get_be32(self.field(12))
    }

    /// The destination address, in the byte order of the host.
    pub fn dadder(&self) -> (r: u32)
        requires
            self.wf(),
        ensures
            r == self.spec_dadder(),
    {
        self.buf.get_be32(self.field(16))
    }

}

impl<'a, T: RawBufMut> Ipv4<'a, T> {
    /// Stores the low four bits of `val` as the version, in the high half
    /// of the first byte. The header length, in the low half, stays.
    pub fn set_version(&mut self, val: u8)
        requires
            old(self).wf(),
        ensures
            final(self).wf(),
            final(self).patched(*old(self), 0, seq![with_high_nibble(old(self).spec_first(), val)]),
            *final(final(self).buf.buf) == *final(old(self).buf.buf),
            final(self).spec_first() >> 4 == val & 0x0F,
            final(self).spec_ihl() == old(self).spec_ihl(),
    {
        let at: usize = self.field(0);
        let first: u8 = self.buf.get_u8(at);
        proof {
            lemma_nibbles(first, val);
        }
        self.buf.put_u8(at, (first & 0x0F) | ((val & 0x0F) << 4));
    }

    /// Stores the low four bits of `val` as the header length, in the low
    /// half of the first byte. The high half stays.
    pub fn set_ihl(&mut self, val: u8)
        requires
            old(self).wf(),
        ensures
            final(self).wf(),
            final(self).patched(*old(self), 0, seq![with_low_nibble(old(self).spec_first(), val)]),
            *final(final(self).buf.buf) == *final(old(self).buf.buf),
            final(self).spec_ihl() == val & 0x0F,
            final(self).spec_first() & 0xF0 == old(self).spec_first() & 0xF0,
    {
        let at: usize = self.field(0);
        let first: u8 = self.buf.get_u8(at);
        proof {
            lemma_nibbles(first, val);
        }
        self.buf.put_u8(at, (first & 0xF0) | (val & 0x0F));
    }

    /// Sets the type of service.
    pub fn set_tos(&mut self, val: u8)
        requires
            old(self).wf(),
        ensures
            final(self).wf(),
            final(self).patched(*old(self), 1, seq![val]),
            *final(final(self).buf.buf) == *final(old(self).buf.buf),
            final(self).spec_tos() == val,
    {
        let at: usize = self.field(1);
        self.buf.put_u8(at, val);
    }

    /// Sets the length of header and body together; `val` is written in
    /// network byte order.
    pub fn set_tot_len(&mut self, val: u16)
        requires
            old(self).wf(),
        ensures
            final(self).wf(),
            final(self).patched(*old(self), 2, be16_bytes(val)),
            *final(final(self).buf.buf) == *final(old(self).buf.buf),
            final(self).spec_tot_len() == val,
    {
        let at: usize = self.field(2);
        self.buf.put_be16(at, val);
        proof {
            lemma_be16_roundtrip(old(self).buf.bytes(), at as int, val);
        }
    }

    /// Sets the identification of the datagram; `val` is written in network
    /// byte order.
    pub fn set_id(&mut self, val: u16)
        requires
            old(self).wf(),
        ensures
            final(self).wf(),
            final(self).patched(*old(self), 4, be16_bytes(val)),
            *final(final(self).buf.buf) == *final(old(self).buf.buf),
            final(self).spec_id() == val,
    {
        let at: usize = self.field(4);
        self.buf.put_be16(at, val);
        proof {
            lemma_be16_roundtrip(old(self).buf.bytes(), at as int, val);
        }
    }

    /// Sets the "don't fragment" flag. No other bit changes.
    pub fn set_df(&mut self)
        requires
            old(self).wf(),
        ensures
            final(self).wf(),
            final(self).patched(*old(self), 6, be16_bytes(old(self).spec_frag_off() | IP_DF)),
            *final(final(self).buf.buf) == *final(old(self).buf.buf),
            final(self).spec_frag_off() == old(self).spec_frag_off() | IP_DF,
            final(self).spec_frag_off() & !IP_DF == old(self).spec_frag_off() & !IP_DF,
            final(self).spec_df(),
    {
        let at: usize = self.field(6);
        let bits: u16 = self.buf.get_be16(at);
        self.buf.put_be16(at, bits | IP_DF);
        proof {
            lemma_be16_roundtrip(old(self).buf.bytes(), at as int, (bits | IP_DF) as u16);
            lemma_set_bits(bits, IP_DF, 0);
        }
    }

    /// Sets the "don't fragment" flag if it is clear, and clears it if it is
    /// set. No other bit changes.
    pub fn toggle_df(&mut self)
        requires
            old(self).wf(),
        ensures
            final(self).wf(),
            final(self).patched(*old(self), 6, be16_bytes(old(self).spec_frag_off() ^ IP_DF)),
            *final(final(self).buf.buf) == *final(old(self).buf.buf),
            final(self).spec_frag_off() == old(self).spec_frag_off() ^ IP_DF,
            final(self).spec_frag_off() & !IP_DF == old(self).spec_frag_off() & !IP_DF,
            final(self).spec_df() == !old(self).spec_df(),
    {
        let at: usize = self.field(6);
        let bits: u16 = self.buf.get_be16(at);
        self.buf.put_be16(at, bits ^ IP_DF);
        proof {
            lemma_be16_roundtrip(old(self).buf.bytes(), at as int, (bits ^ IP_DF) as u16);
            lemma_toggle_bits(bits, IP_DF, 0);
            lemma_toggle_bit(bits);
        }
    }

    /// Sets the "more fragments" flag. No other bit changes.
    pub fn set_mf(&mut self)
        requires
            old(self).wf(),
        ensures
            final(self).wf(),
            final(self).patched(*old(self), 6, be16_bytes(old(self).spec_frag_off() | IP_MF)),
            *final(final(self).buf.buf) == *final(old(self).buf.buf),
            final(self).spec_frag_off() == old(self).spec_frag_off() | IP_MF,
            final(self).spec_frag_off() & !IP_MF == old(self).spec_frag_off() & !IP_MF,
            final(self).spec_mf(),
    {
        let at: usize = self.field(6);
        let bits: u16 = self.buf.get_be16(at);
        self.buf.put_be16(at, bits | IP_MF);
        proof {
            lemma_be16_roundtrip(old(self).buf.bytes(), at as int, (bits | IP_MF) as u16);
            lemma_set_bits(bits, IP_MF, 0);
        }
    }

    /// Sets the "more fragments" flag if it is clear, and clears it if it is
    /// set. No other bit changes.
    pub fn toggle_mf(&mut self)
        requires
            old(self).wf(),
        ensures
            final(self).wf(),
            final(self).patched(*old(self), 6, be16_bytes(old(self).spec_frag_off() ^ IP_MF)),
            *final(final(self).buf.buf) == *final(old(self).buf.buf),
            final(self).spec_frag_off() == old(self).spec_frag_off() ^ IP_MF,
            final(self).spec_frag_off() & !IP_MF == old(self).spec_frag_off() & !IP_MF,
            final(self).spec_mf() == !old(self).spec_mf(),
    {
        let at: usize = self.field(6);
        let bits: u16 = self.buf.get_be16(at);
        self.buf.put_be16(at, bits ^ IP_MF);
        proof {
            lemma_be16_roundtrip(old(self).buf.bytes(), at as int, (bits ^ IP_MF) as u16);
            lemma_toggle_bits(bits, IP_MF, 0);
            lemma_toggle_bit(bits);
        }
    }

    /// Sets the time to live.
    pub fn set_ttl(&mut self, val: u8)
        requires
            old(self).wf(),
        ensures
            final(self).wf(),
            final(self).patched(*old(self), 8, seq![val]),
            *final(final(self).buf.buf) == *final(old(self).buf.buf),
            final(self).spec_ttl() == val,
    {
        let at: usize = self.field(8);
        self.buf.put_u8(at, val);
    }

    /// Takes one from the time to live. From 0 it wraps around to 255.
    pub fn decr_ttl(&mut self)
        requires
            old(self).wf(),
        ensures
            final(self).wf(),
            final(self).patched(*old(self), 8, seq![final(self).spec_ttl()]),
            *final(final(self).buf.buf) == *final(old(self).buf.buf),
            final(self).spec_ttl() == if old(self).spec_ttl() == 0 {
                255u8
            } else {
                (old(self).spec_ttl() - 1) as u8
            },
    {
        let at: usize = self.field(8);
        let ttl: u8 = self.buf.get_u8(at);
        self.buf.put_u8(at, ttl.wrapping_sub(1));
    }

    /// Adds one to the time to live. From 255 it wraps around to 0.
    pub fn incr_ttl(&mut self)
        requires
            old(self).wf(),
        ensures
            final(self).wf(),
            final(self).patched(*old(self), 8, seq![final(self).spec_ttl()]),
            *final(final(self).buf.buf) == *final(old(self).buf.buf),
            final(self).spec_ttl() == if old(self).spec_ttl() == 255 {
                0u8
            } else {
                (old(self).spec_ttl() + 1) as u8
            },
    {
        let at: usize = self.field(8);
        let ttl: u8 = self.buf.get_u8(at);
        self.buf.put_u8(at, ttl.wrapping_add(1));
    }

    /// Sets the number of the protocol that the body holds.
    pub fn set_protocol(&mut self, val: u8)
        requires
            old(self).wf(),
        ensures
            final(self).wf(),
            final(self).patched(*old(self), 9, seq![val]),
            *final(final(self).buf.buf) == *final(old(self).buf.buf),
            final(self).spec_protocol() == val,
    {
        let at: usize = self.field(9);
        self.buf.put_u8(at, val);
    }

    /// Sets the header checksum; `val` is written in network byte order.
    pub fn set_check(&mut self, val: u16)
        requires
            old(self).wf(),
        ensures
            final(self).wf(),
            final(self).patched(*old(self), 10, be16_bytes(val)),
            *final(final(self).buf.buf) == *final(old(self).buf.buf),
            final(self).spec_check() == val,
    {
        let at: usize = self.field(10);
        self.buf.put_be16(at, val);
        proof {
            lemma_be16_roundtrip(old(self).buf.bytes(), at as int, val);
        }
    }

    /// Sets the source address; `val` is written in network byte order.
    pub fn sadder_mut(&mut self, val: u32)
        requires
            old(self).wf(),
        ensures
            final(self).wf(),
            final(self).patched(*old(self), 12, be32_bytes(val)),
            *final(final(self).buf.buf) == *final(old(self).buf.buf),
            final(self).spec_sadder() == val,
    {
        let at: usize = self.field(12);
        self.buf.put_be32(at, val);
        proof {
            lemma_be32_roundtrip(old(self).buf.bytes(), at as int, val);
        }
    }

    /// Sets the destination address; `val` is written in network byte order.
    pub fn dadder_mut(&mut self, val: u32)
        requires
            old(self).wf(),
        ensures
            final(self).wf(),
            final(self).patched(*old(self), 16, be32_bytes(val)),
            *final(final(self).buf.buf) == *final(old(self).buf.buf),
            final(self).spec_dadder() == val,
    {
        let at: usize = self.field(16);
        self.buf.put_be32(at, val);
        proof {
            lemma_be32_roundtrip(old(self).buf.bytes(), at as int, val);
        }
    }

}

impl<'a, T: RawBuf> Packet<'a, T> for Ipv4<'a, T> {
    type Encapsulated = L4Proto<'a, T>;

    /// The header lies inside the buffer at an address that is not null, and
    /// the cursor stands 20 bytes behind its start.
    open spec fn wf(&self) -> bool {
        &&& self.buf.wf()
        &&& self.hdr != 0
        &&& self.buf.spec_start() <= self.hdr
        &&& self.buf.nh_offset == self.hdr - self.buf.spec_start() + 20
    }

    open spec fn spec_buf(&self) -> NetBuf<'a, T> {
        self.buf
    }

    open spec fn spec_parse(&self) -> Result<Self::Encapsulated> {
        if self.spec_protocol() == IPPROTO_TCP {
            match Tcp::spec_from_bytes(self.buf) {
                Ok(tcp) => Ok(L4Proto::Tcp(tcp)),
                Err(e) => Err(e),
            }
        } else if self.spec_protocol() == IPPROTO_UDP {
            match Udp::spec_from_bytes(self.buf) {
                Ok(udp) => Ok(L4Proto::Udp(udp)),
                Err(e) => Err(e),
            }
        } else {
            Err(Error::UnimplementedProtocol(self.spec_protocol() as u32))
        }
    }

    fn data(self) -> (r: NetBuf<'a, T>)
        ensures
            r == self.spec_buf(),
    {
        self.buf
    }

    fn buf_ref(&self) -> (r: &NetBuf<'a, T>)
        ensures
            *r == self.spec_buf(),
    {
        &self.buf
    }

    /// Parses what the header's protocol number announces: a TCP or a UDP
    /// header. Any other number fails with `UnimplementedProtocol` and the
    /// number.
    fn parse(self) -> (r: Result<Self::Encapsulated>)
        ensures
            r == self.spec_parse(),
            r matches Ok(v) ==> v.wf(),
    {
        let p: u8 = self.protocol();
        if p == IPPROTO_TCP {
            match Tcp::from_bytes(self.buf) {
                Ok(tcp) => Ok(L4Proto::Tcp(tcp)),
                Err(e) => Err(e),
            }
        } else if p == IPPROTO_UDP {
            match Udp::from_bytes(self.buf) {
                Ok(udp) => Ok(L4Proto::Udp(udp)),
                Err(e) => Err(e),
            }
        } else {
            Err(Error::UnimplementedProtocol(p as u32))
        }
    }
}

/// Below an IPv4 header lies a TCP header exactly if the protocol number is
/// 6 and 20 bytes are left, and a UDP header exactly if it is 17 and 8 bytes
/// are left; the cursor then stands 20 or 8 bytes further. With too few
/// bytes left the parse is out of bounds, and any other protocol number is
/// reported as not implemented.
pub proof fn lemma_ipv4_parse<'a, T: RawBuf>(ip: Ipv4<'a, T>)
    requires
        ip.wf(),
    ensures
        ip.spec_protocol() != IPPROTO_TCP && ip.spec_protocol() != IPPROTO_UDP ==> ip.spec_parse()
            == Err::<L4Proto<'a, T>, Error>(Error::UnimplementedProtocol(ip.spec_protocol() as u32)),
        ip.spec_protocol() == IPPROTO_TCP && ip.buf.nh_offset + 20 > ip.buf.bytes().len()
            ==> ip.spec_parse() == Err::<L4Proto<'a, T>, Error>(Error::OutOfBounds),
        ip.spec_protocol() == IPPROTO_UDP && ip.buf.nh_offset + 8 > ip.buf.bytes().len()
            ==> ip.spec_parse() == Err::<L4Proto<'a, T>, Error>(Error::OutOfBounds),
        ip.spec_protocol() == IPPROTO_TCP && ip.buf.nh_offset + 20 <= ip.buf.bytes().len() ==> {
            &&& ip.spec_parse() matches Ok(L4Proto::Tcp(tcp))
            &&& tcp.wf()
            &&& tcp.hdr == ip.hdr + 20
            &&& tcp.buf.nh_offset == ip.buf.nh_offset + 20
            &&& tcp.buf.buf == ip.buf.buf
        },
        ip.spec_protocol() == IPPROTO_UDP && ip.buf.nh_offset + 8 <= ip.buf.bytes().len() ==> {
            &&& ip.spec_parse() matches Ok(L4Proto::Udp(udp))
            &&& udp.wf()
            &&& udp.hdr == ip.hdr + 20
            &&& udp.buf.nh_offset == ip.buf.nh_offset + 8
            &&& udp.buf.buf == ip.buf.buf
        },
{
    ip.buf.lemma_end();
}

impl<'a, T: RawBuf> FromBytes<'a, T> for Ipv4<'a, T> {
    open spec fn valid(&self) -> bool {
        self.wf()
    }

    open spec fn spec_from_bytes(buf: NetBuf<'a, T>) -> Result<Self> {
        match spec_take(buf, 20) {
            Ok(t) => Ok(Ipv4 { hdr: t.0, buf: t.1 }),
            Err(e) => Err(e),
        }
    }

    /// Takes the 20 bytes at the cursor as an IPv4 header. Fails with
    /// `OutOfBounds` if fewer are left, and with `NullPtr` if the header's
    /// address is null.
    fn from_bytes(buf: NetBuf<'a, T>) -> (r: Result<Self>)
        ensures
            r == Self::spec_from_bytes(buf),
            r matches Ok(v) ==> v.valid(),
    {
        match buf.take::<IpHdr>() {
            Ok((hdr, buf)) => Ok(Ipv4 { hdr, buf }),
            Err(e) => Err(e),
        }
    }
}

} // verus!
