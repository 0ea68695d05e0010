//! The TCP header.
//!
//! The two bytes behind the acknowledgement number hold the data offset and
//! the flags. They are read as one 16-bit field, least significant byte
//! first, so that bit `i` of the field is bit `i % 8` of byte `12 + i / 8` of
//! the header: bits 0 to 3 are reserved, bits 4 to 7 are the data offset, and
//! bits 8 to 15 are the flags from `FIN` to `CWR`.

use crate::bindings::TcpHdr;
use crate::bits::{lemma_set_bits, lemma_with_field, with_field};
use crate::buf::{spec_take, NetBuf, RawBuf, RawBufMut};
use crate::bytes::{
    be16, be16_bytes, be32, be32_bytes, le16, le16_bytes, lemma_be16_roundtrip,
    lemma_be32_roundtrip, lemma_le16_roundtrip,
};
use crate::error::Result;
use crate::net::{FromBytes, Packet};
use vstd::prelude::*;

verus! {

/// The bit of the `FIN` flag in the field of offset and flags.
pub const TCP_FIN: u16 = 0x0100;

/// The bit of the `SYN` flag in the field of offset and flags.
pub const TCP_SYN: u16 = 0x0200;

/// The bit of the `RST` flag in the field of offset and flags.
pub const TCP_RST: u16 = 0x0400;

/// The bit of the `PSH` flag in the field of offset and flags.
pub const TCP_PSH: u16 = 0x0800;

/// The bit of the `ACK` flag in the field of offset and flags.
pub const TCP_ACK: u16 = 0x1000;

/// The bit of the `URG` flag in the field of offset and flags.
pub const TCP_URG: u16 = 0x2000;

/// The bit of the `ECE` flag in the field of offset and flags.
pub const TCP_ECE: u16 = 0x4000;

/// The bit of the `CWR` flag in the field of offset and flags.
pub const TCP_CWR: u16 = 0x8000;

/// The bits of the data offset in the field of offset and flags.
pub const TCP_DOFF: u16 = 0x00F0;

/// The reserved bits below the data offset.
pub const TCP_RES1: u16 = 0x000F;

/// The two highest bits, which were reserved before they became `ECE` and
/// `CWR`.
pub const TCP_RES2: u16 = 0xC000;

/// A view of the TCP header that lies at address `hdr` in the buffer of the
/// cursor `buf`. The cursor stands behind the 20 bytes of the header.
pub struct Tcp<'a, T: RawBuf> {
    /// The address of the header.
    pub hdr: usize,
    /// The cursor, which stands behind the header.
    pub buf: NetBuf<'a, T>,
}

impl<'a, T: RawBuf> Tcp<'a, T> {
    /// The distance from the start of the buffer to the header.
    pub open spec fn hdr_offset(&self) -> int {
        self.hdr - self.buf.spec_start()
    }

    /// The source port.
    pub open spec fn spec_source(&self) -> u16 {
        be16(self.buf.bytes(), self.hdr_offset())
    }

    /// The destination port.
    pub open spec fn spec_dest(&self) -> u16 {
        be16(self.buf.bytes(), self.hdr_offset() + 2)
    }

    /// The sequence number.
    pub open spec fn spec_seq(&self) -> u32 {
        be32(self.buf.bytes(), self.hdr_offset() + 4)
    }

    /// The acknowledgement number.
    pub open spec fn spec_ack_seq(&self) -> u32 {
        be32(self.buf.bytes(), self.hdr_offset() + 8)
    }

    /// The field of data offset and flags.
    pub open spec fn spec_bitfield(&self) -> u16 {
        le16(self.buf.bytes(), self.hdr_offset() + 12)
    }

    /// The data offset: the length of the header in words of 32 bits.
    pub open spec fn spec_doff(&self) -> u8 {
        ((self.spec_bitfield() & TCP_DOFF) >> 4) as u8
    }

    /// Whether one of the reserved bits below the data offset is set.
    pub open spec fn spec_res1(&self) -> bool {
        self.spec_bitfield() & TCP_RES1 != 0
    }

    /// Whether one of the two highest bits is set.
    pub open spec fn spec_res2(&self) -> bool {
        self.spec_bitfield() & TCP_RES2 != 0
    }

    /// Whether the `FIN` flag is set.
    pub open spec fn spec_fin(&self) -> bool {
        self.spec_bitfield() & TCP_FIN != 0
    }

    /// Whether the `SYN` flag is set.
    pub open spec fn spec_syn(&self) -> bool {
        self.spec_bitfield() & TCP_SYN != 0
    }

    /// Whether the `RST` flag is set.
    pub open spec fn spec_rst(&self) -> bool {
        self.spec_bitfield() & TCP_RST != 0
    }

    /// Whether the `PSH` flag is set.
    pub open spec fn spec_psh(&self) -> bool {
        self.spec_bitfield() & TCP_PSH != 0
    }

    /// Whether the `ACK` flag is set.
    pub open spec fn spec_ack(&self) -> bool {
        self.spec_bitfield() & TCP_ACK != 0
    }

    /// Whether the `URG` flag is set.
    pub open spec fn spec_urg(&self) -> bool {
        self.spec_bitfield() & TCP_URG != 0
    }

    /// Whether the `ECE` flag is set.
    pub open spec fn spec_ece(&self) -> bool {
        self.spec_bitfield() & TCP_ECE != 0
    }

    /// Whether the `CWR` flag is set.
    pub open spec fn spec_cwr(&self) -> bool {
        self.spec_bitfield() & TCP_CWR != 0
    }

    /// Whether `self` is `before` with the bytes of the header from `at` on
    /// replaced by `data`, and nothing else changed.
    pub open spec fn patched(&self, before: Self, at: int, data: Seq<u8>) -> bool {
        self.hdr == before.hdr && self.buf.rewritten(before.buf, before.hdr_offset() + at, data)
    }

    /// The distance from the start of the buffer to the byte `k` of the
    /// header.
    fn field(&self, k: usize) -> (r: usize)
        requires
            self.wf(),
            k <= 20,
        ensures
            r == self.hdr_offset() + k,
            r + (20 - k) <= self.buf.bytes().len(),
    {
        proof {
            self.buf.lemma_end();
        }
        self.hdr - self.buf.start() + k
    }

    /// The field of data offset and flags.
    fn bitfield(&self) -> (r: u16)
        requires
            self.wf(),
        ensures
            r == self.spec_bitfield(),
    {
        self.buf.get_le16(self.field(12))
    }

    /// The source port, in the byte order of the host.
    pub fn source(&self) -> (r: u16)
        requires
            self.wf(),
        ensures
            r == self.spec_source(),
    {
        self.buf.get_be16(self.field(0))
    }

    /// The destination port, in the byte order of the host.
    pub fn dest(&self) -> (r: u16)
        requires
            self.wf(),
        ensures
            r == self.spec_dest(),
    {
        self.buf.get_be16(self.field(2))
    }

    /// The sequence number, in the byte order of the host.
    pub fn seq(&self) -> (r: u32)
        requires
            self.wf(),
        ensures
            r == self.spec_seq(),
    {
        self.buf.get_be32(self.field(4))
    }

    /// The acknowledgement number, in the byte order of the host.
    pub fn ack_seq(&self) -> (r: u32)
        requires
            self.wf(),
        ensures
            r == self.spec_ack_seq(),
    {
        self.buf.get_be32(self.field(8))
    }

    /// The data offset: the length of the header in words of 32 bits.
    pub fn doff(&self) -> (r: u8)
        requires
            self.wf(),
        ensures
            r == self.spec_doff(),
            r <= 15,
    {
        let bits: u16 = self.bitfield();
        assert((bits & 0x00F0) >> 4 <= 15) by (bit_vector);
        ((bits & TCP_DOFF) >> 4) as u8
    }

    /// Whether one of the reserved bits below the data offset is set.
    pub fn res1(&self) -> (r: bool)
        requires
            self.wf(),
        ensures
            r == self.spec_res1(),
    {
        self.bitfield() & TCP_RES1 != 0
    }

    /// Whether one of the two highest bits, those of `ECE` and `CWR`, is
    /// set.
    pub fn res2(&self) -> (r: bool)
        requires
            self.wf(),
        ensures
            r == self.spec_res2(),
    {
        self.bitfield() & TCP_RES2 != 0
    }

    /// Whether the `FIN` ("finish") flag is set.
    pub fn fin(&self) -> (r: bool)
        requires
            self.wf(),
        ensures
            r == self.spec_fin(),
    {
        self.bitfield() & TCP_FIN != 0
    }

    /// Whether the `SYN` ("synchronize") flag is set.
    pub fn syn(&self) -> (r: bool)
        requires
            self.wf(),
        ensures
            r == self.spec_syn(),
    {
        self.bitfield() & TCP_SYN != 0
    }

    /// Whether the `RST` ("reset") flag is set.
    pub fn rst(&self) -> (r: bool)
        requires
            self.wf(),
        ensures
            r == self.spec_rst(),
    {
        self.bitfield() & TCP_RST != 0
    }

    /// Whether the `PSH` ("push") flag is set.
    pub fn psh(&self) -> (r: bool)
        requires
            self.wf(),
        ensures
            r == self.spec_psh(),
    {
        self.bitfield() & TCP_PSH != 0
    }

    /// Whether the `ACK` ("acknowledge") flag is set.
    pub fn ack(&self) -> (r: bool)
        requires
            self.wf(),
        ensures
            r == self.spec_ack(),
    {
        self.bitfield() & TCP_ACK != 0
    }

    /// Whether the `URG` ("urgent") flag is set.
    pub fn urg(&self) -> (r: bool)
        requires
            self.wf(),
        ensures
            r == self.spec_urg(),
    {
        self.bitfield() & TCP_URG != 0
    }

    /// Whether the `ECE` ("ECN echo") flag is set.
    pub fn ece(&self) -> (r: bool)
        requires
            self.wf(),
        ensures
            r == self.spec_ece(),
    {
        self.bitfield() & TCP_ECE != 0
    }

    /// Whether the `CWR` ("congestion window reduced") flag is set.
    pub fn cwr(&self) -> (r: bool)
        requires
            self.wf(),
        ensures
            r == self.spec_cwr(),
    {
        self.bitfield() & TCP_CWR != 0
    }

}

impl<'a, T: RawBufMut> Tcp<'a, T> {
    /// Stores `bits` as the field of data offset and flags.
    fn set_bitfield(&mut self, bits: u16)
        requires
            old(self).wf(),
        ensures
            final(self).wf(),
            final(self).patched(*old(self), 12, le16_bytes(bits)),
            *final(final(self).buf.buf) == *final(old(self).buf.buf),
            final(self).spec_bitfield() == bits,
    {
        let at: usize = self.field(12);
        self.buf.put_le16(at, bits);
        proof {
            lemma_le16_roundtrip(old(self).buf.bytes(), at as int, bits);
        }
    }

    /// Sets the source port; `val` is written in network byte order.
    pub fn set_source(&mut self, val: u16)
        requires
            old(self).wf(),
        ensures
            final(self).wf(),
            final(self).patched(*old(self), 0, be16_bytes(val)),
            *final(final(self).buf.buf) == *final(old(self).buf.buf),
            final(self).spec_source() == val,
    {
        let at: usize = self.field(0);
        self.buf.put_be16(at, val);
        proof {
            lemma_be16_roundtrip(old(self).buf.bytes(), at as int, val);
        }
    }

    /// Sets the destination port; `val` is written in network byte order.
    pub fn set_dest(&mut self, val: u16)
        requires
            old(self).wf(),
        ensures
            final(self).wf(),
            final(self).patched(*old(self), 2, be16_bytes(val)),
            *final(final(self).buf.buf) == *final(old(self).buf.buf),
            final(self).spec_dest() == val,
    {
        let at: usize = self.field(2);
        self.buf.put_be16(at, val);
        proof {
            lemma_be16_roundtrip(old(self).buf.bytes(), at as int, val);
        }
    }

    /// Sets the sequence number; `val` is written in network byte order.
    pub fn set_seq(&mut self, val: u32)
        requires
            old(self).wf(),
        ensures
            final(self).wf(),
            final(self).patched(*old(self), 4, be32_bytes(val)),
            *final(final(self).buf.buf) == *final(old(self).buf.buf),
            final(self).spec_seq() == val,
    {
        let at: usize = self.field(4);
        self.buf.put_be32(at, val);
        proof {
            lemma_be32_roundtrip(old(self).buf.bytes(), at as int, val);
        }
    }

    /// Sets the acknowledgement number; `val` is written in network byte
    /// order, as every other field is, so that `ack_seq` reads it back.
    pub fn set_ack_seq(&mut self, val: u32)
        requires
            old(self).wf(),
        ensures
            final(self).wf(),
            final(self).patched(*old(self), 8, be32_bytes(val)),
            *final(final(self).buf.buf) == *final(old(self).buf.buf),
            final(self).spec_ack_seq() == val,
    {
        let at: usize = self.field(8);
        self.buf.put_be32(at, val);
        proof {
            lemma_be32_roundtrip(old(self).buf.bytes(), at as int, val);
        }
    }

    /// Sets the data offset to the low four bits of `val`. No flag and no
    /// reserved bit changes.
    pub fn set_doff(&mut self, val: u8)
        requires
            old(self).wf(),
        ensures
            final(self).wf(),
            final(self).patched(
                *old(self),
                12,
                le16_bytes(with_field(old(self).spec_bitfield(), TCP_DOFF, 4, val)),
            ),
            *final(final(self).buf.buf) == *final(old(self).buf.buf),
            final(self).spec_bitfield() == with_field(old(self).spec_bitfield(), TCP_DOFF, 4, val),
            final(self).spec_bitfield() & !TCP_DOFF == old(self).spec_bitfield() & !TCP_DOFF,
            final(self).spec_doff() == val & 0x0F,
    {
        let bits: u16 = self.bitfield();
        proof {
            lemma_with_field(bits, val, 0);
        }
        self.set_bitfield((bits & !TCP_DOFF) | (((val as u16) << 4) & TCP_DOFF));
    }

    /// Sets the reserved bits below the data offset to the low four bits of
    /// `val`. No other bit changes.
    pub fn set_res1(&mut self, val: u8)
        requires
            old(self).wf(),
        ensures
            final(self).wf(),
            final(self).patched(
                *old(self),
                12,
                le16_bytes(with_field(old(self).spec_bitfield(), TCP_RES1, 0, val)),
            ),
            *final(final(self).buf.buf) == *final(old(self).buf.buf),
            final(self).spec_bitfield() == with_field(old(self).spec_bitfield(), TCP_RES1, 0, val),
            final(self).spec_bitfield() & !TCP_RES1 == old(self).spec_bitfield() & !TCP_RES1,
            final(self).spec_bitfield() & TCP_RES1 == val & 0x0F,
    {
        let bits: u16 = self.bitfield();
        proof {
            lemma_with_field(bits, val, 0);
        }
        self.set_bitfield((bits & !TCP_RES1) | ((val as u16) & TCP_RES1));
    }

    /// Sets the two highest bits, those of `ECE` and `CWR`, to the low two
    /// bits of `val`. No other bit changes.
    pub fn set_res2(&mut self, val: u8)
        requires
            old(self).wf(),
        ensures
            final(self).wf(),
            final(self).patched(
                *old(self),
                12,
                le16_bytes(with_field(old(self).spec_bitfield(), TCP_RES2, 14, val)),
            ),
            *final(final(self).buf.buf) == *final(old(self).buf.buf),
            final(self).spec_bitfield() == with_field(old(self).spec_bitfield(), TCP_RES2, 14, val),
            final(self).spec_bitfield() & !TCP_RES2 == old(self).spec_bitfield() & !TCP_RES2,
            (final(self).spec_bitfield() & TCP_RES2) >> 14 == val & 0x03,
    {
        let bits: u16 = self.bitfield();
        proof {
            lemma_with_field(bits, val, 0);
        }
        self.set_bitfield((bits & !TCP_RES2) | (((val as u16) << 14) & TCP_RES2));
    }

    /// Sets the bits of `mask` in the field of data offset and flags.
    fn set_bits(&mut self, mask: u16)
        requires
            old(self).wf(),
        ensures
            final(self).wf(),
            final(self).patched(*old(self), 12, le16_bytes(old(self).spec_bitfield() | mask)),
            *final(final(self).buf.buf) == *final(old(self).buf.buf),
            final(self).spec_bitfield() == old(self).spec_bitfield() | mask,
            final(self).spec_bitfield() & !mask == old(self).spec_bitfield() & !mask,
            final(self).spec_bitfield() & mask == mask,
    {
        let bits: u16 = self.bitfield();
        proof {
            lemma_set_bits(bits, mask, 0);
        }
        self.set_bitfield(bits | mask);
    }

    /// Sets the `FIN` ("finish") flag. No other bit changes.
    pub fn set_fin(&mut self)
        requires
            old(self).wf(),
        ensures
            final(self).wf(),
            final(self).patched(*old(self), 12, le16_bytes(old(self).spec_bitfield() | TCP_FIN)),
            *final(final(self).buf.buf) == *final(old(self).buf.buf),
            final(self).spec_bitfield() == old(self).spec_bitfield() | TCP_FIN,
            final(self).spec_bitfield() & !TCP_FIN == old(self).spec_bitfield() & !TCP_FIN,
            final(self).spec_fin(),
    {
        self.set_bits(TCP_FIN);
    }

    /// Sets the `SYN` ("synchronize") flag. No other bit changes.
    pub fn set_syn(&mut self)
        requires
            old(self).wf(),
        ensures
            final(self).wf(),
            final(self).patched(*old(self), 12, le16_bytes(old(self).spec_bitfield() | TCP_SYN)),
            *final(final(self).buf.buf) == *final(old(self).buf.buf),
            final(self).spec_bitfield() == old(self).spec_bitfield() | TCP_SYN,
            final(self).spec_bitfield() & !TCP_SYN == old(self).spec_bitfield() & !TCP_SYN,
            final(self).spec_syn(),
    {
        self.set_bits(TCP_SYN);
    }

    /// Sets the `RST` ("reset") flag. No other bit changes.
    pub fn set_rst(&mut self)
        requires
            old(self).wf(),
        ensures
            final(self).wf(),
            final(self).patched(*old(self), 12, le16_bytes(old(self).spec_bitfield() | TCP_RST)),
            *final(final(self).buf.buf) == *final(old(self).buf.buf),
            final(self).spec_bitfield() == old(self).spec_bitfield() | TCP_RST,
            final(self).spec_bitfield() & !TCP_RST == old(self).spec_bitfield() & !TCP_RST,
            final(self).spec_rst(),
    {
        self.set_bits(TCP_RST);
    }

    /// Sets the `PSH` ("push") flag. No other bit changes.
    pub fn set_psh(&mut self)
        requires
            old(self).wf(),
        ensures
            final(self).wf(),
            final(self).patched(*old(self), 12, le16_bytes(old(self).spec_bitfield() | TCP_PSH)),
            *final(final(self).buf.buf) == *final(old(self).buf.buf),
            final(self).spec_bitfield() == old(self).spec_bitfield() | TCP_PSH,
            final(self).spec_bitfield() & !TCP_PSH == old(self).spec_bitfield() & !TCP_PSH,
            final(self).spec_psh(),
    {
        self.set_bits(TCP_PSH);
    }

    /// Sets the `ACK` ("acknowledge") flag. No other bit changes.
    pub fn set_ack(&mut self)
        requires
            old(self).wf(),
        ensures
            final(self).wf(),
            final(self).patched(*old(self), 12, le16_bytes(old(self).spec_bitfield() | TCP_ACK)),
            *final(final(self).buf.buf) == *final(old(self).buf.buf),
            final(self).spec_bitfield() == old(self).spec_bitfield() | TCP_ACK,
            final(self).spec_bitfield() & !TCP_ACK == old(self).spec_bitfield() & !TCP_ACK,
            final(self).spec_ack(),
    {
        self.set_bits(TCP_ACK);
    }

    /// Sets the `URG` ("urgent") flag. No other bit changes.
    pub fn set_urg(&mut self)
        requires
            old(self).wf(),
        ensures
            final(self).wf(),
            final(self).patched(*old(self), 12, le16_bytes(old(self).spec_bitfield() | TCP_URG)),
            *final(final(self).buf.buf) == *final(old(self).buf.buf),
            final(self).spec_bitfield() == old(self).spec_bitfield() | TCP_URG,
            final(self).spec_bitfield() & !TCP_URG == old(self).spec_bitfield() & !TCP_URG,
            final(self).spec_urg(),
    {
        self.set_bits(TCP_URG);
    }

    /// Sets the `ECE` ("ECN echo") flag. No other bit changes.
    pub fn set_ece(&mut self)
        requires
            old(self).wf(),
        ensures
            final(self).wf(),
            final(self).patched(*old(self), 12, le16_bytes(old(self).spec_bitfield() | TCP_ECE)),
            *final(final(self).buf.buf) == *final(old(self).buf.buf),
            final(self).spec_bitfield() == old(self).spec_bitfield() | TCP_ECE,
            final(self).spec_bitfield() & !TCP_ECE == old(self).spec_bitfield() & !TCP_ECE,
            final(self).spec_ece(),
    {
        self.set_bits(TCP_ECE);
    }

    /// Sets the `CWR` ("congestion window reduced") flag. No other bit changes.
    pub fn set_cwr(&mut self)
        requires
            old(self).wf(),
        ensures
            final(self).wf(),
            final(self).patched(*old(self), 12, le16_bytes(old(self).spec_bitfield() | TCP_CWR)),
            *final(final(self).buf.buf) == *final(old(self).buf.buf),
            final(self).spec_bitfield() == old(self).spec_bitfield() | TCP_CWR,
            final(self).spec_bitfield() & !TCP_CWR == old(self).spec_bitfield() & !TCP_CWR,
            final(self).spec_cwr(),
    {
        self.set_bits(TCP_CWR);
    }

}

/// Setting one flag sets it and changes no other flag, nor the data offset,
/// nor the reserved bits below it.
pub proof fn lemma_set_flag<'a, T: RawBuf>(before: Tcp<'a, T>, after: Tcp<'a, T>, flag: u16)
    requires
        flag == TCP_FIN || flag == TCP_SYN || flag == TCP_RST || flag == TCP_PSH || flag == TCP_ACK
            || flag == TCP_URG || flag == TCP_ECE || flag == TCP_CWR,
        after.spec_bitfield() == before.spec_bitfield() | flag,
    ensures
        after.spec_bitfield() & flag != 0,
        flag != TCP_FIN ==> after.spec_fin() == before.spec_fin(),
        flag != TCP_SYN ==> after.spec_syn() == before.spec_syn(),
        flag != TCP_RST ==> after.spec_rst() == before.spec_rst(),
        flag != TCP_PSH ==> after.spec_psh() == before.spec_psh(),
        flag != TCP_ACK ==> after.spec_ack() == before.spec_ack(),
        flag != TCP_URG ==> after.spec_urg() == before.spec_urg(),
        flag != TCP_ECE ==> after.spec_ece() == before.spec_ece(),
        flag != TCP_CWR ==> after.spec_cwr() == before.spec_cwr(),
        after.spec_doff() == before.spec_doff(),
        after.spec_res1() == before.spec_res1(),
{
    let b = before.spec_bitfield();
    let a = after.spec_bitfield();
    assert((flag == 0x0100 || flag == 0x0200 || flag == 0x0400 || flag == 0x0800 || flag == 0x1000
        || flag == 0x2000 || flag == 0x4000 || flag == 0x8000) && a == b | flag ==> a & flag != 0
        && (flag != 0x0100 ==> a & 0x0100 == b & 0x0100) && (flag != 0x0200 ==> a & 0x0200 == b
        & 0x0200) && (flag != 0x0400 ==> a & 0x0400 == b & 0x0400) && (flag != 0x0800 ==> a
        & 0x0800 == b & 0x0800) && (flag != 0x1000 ==> a & 0x1000 == b & 0x1000) && (flag
        != 0x2000 ==> a & 0x2000 == b & 0x2000) && (flag != 0x4000 ==> a & 0x4000 == b & 0x4000)
        && (flag != 0x8000 ==> a & 0x8000 == b & 0x8000) && a & 0x00F0 == b & 0x00F0 && a & 0x000F
        == b & 0x000F) by (bit_vector);
}

/// Setting the data offset stores the low four bits of the value and changes
/// no flag and no reserved bit.
pub proof fn lemma_set_doff<'a, T: RawBuf>(before: Tcp<'a, T>, after: Tcp<'a, T>, val: u8)
    requires
        after.spec_bitfield() == with_field(before.spec_bitfield(), TCP_DOFF, 4, val),
    ensures
        after.spec_doff() == val & 0x0F,
        after.spec_fin() == before.spec_fin(),
        after.spec_syn() == before.spec_syn(),
        after.spec_rst() == before.spec_rst(),
        after.spec_psh() == before.spec_psh(),
        after.spec_ack() == before.spec_ack(),
        after.spec_urg() == before.spec_urg(),
        after.spec_ece() == before.spec_ece(),
        after.spec_cwr() == before.spec_cwr(),
        after.spec_res1() == before.spec_res1(),
        after.spec_res2() == before.spec_res2(),
{
    let b = before.spec_bitfield();
    lemma_with_field(b, val, TCP_FIN);
    lemma_with_field(b, val, TCP_SYN);
    lemma_with_field(b, val, TCP_RST);
    lemma_with_field(b, val, TCP_PSH);
    lemma_with_field(b, val, TCP_ACK);
    lemma_with_field(b, val, TCP_URG);
    lemma_with_field(b, val, TCP_ECE);
    lemma_with_field(b, val, TCP_CWR);
    lemma_with_field(b, val, TCP_RES1);
    lemma_with_field(b, val, TCP_RES2);
    assert(TCP_DOFF & TCP_FIN == 0 && TCP_DOFF & TCP_SYN == 0 && TCP_DOFF & TCP_RST == 0 && TCP_DOFF
        & TCP_PSH == 0 && TCP_DOFF & TCP_ACK == 0 && TCP_DOFF & TCP_URG == 0 && TCP_DOFF & TCP_ECE
        == 0 && TCP_DOFF & TCP_CWR == 0 && TCP_DOFF & TCP_RES1 == 0 && TCP_DOFF & TCP_RES2 == 0)
        by (bit_vector);
}

impl<'a, T: RawBuf> Packet<'a, T> for Tcp<'a, T> {
    type Encapsulated = NetBuf<'a, T>;

    /// The header lies inside the buffer at an address that is not null, and
    /// the cursor stands right behind its 20 bytes.
    open spec fn wf(&self) -> bool {
        &&& self.buf.wf()
        &&& self.hdr != 0
        &&& self.buf.spec_start() <= self.hdr
        &&& self.buf.nh_offset == self.hdr - self.buf.spec_start() + 20
    }

    open spec fn spec_buf(&self) -> NetBuf<'a, T> {
        self.buf
    }

    open spec fn spec_parse(&self) -> Result<Self::Encapsulated> {
        Ok(self.buf)
    }

    fn data(self) -> (r: NetBuf<'a, T>)
        ensures
            r == self.spec_buf(),
    {
        self.buf
    }

    fn buf_ref(&self) -> (r: &NetBuf<'a, T>)
        ensures
            *r == self.spec_buf(),
    {
        &self.buf
    }

    /// Nothing is parsed below TCP: the payload is the cursor.
    fn parse(self) -> (r: Result<Self::Encapsulated>)
        ensures
            r == self.spec_parse(),
            r matches Ok(v) ==> v.wf(),
    {
        Ok(self.buf)
    }
}

impl<'a, T: RawBuf> FromBytes<'a, T> for Tcp<'a, T> {
    open spec fn valid(&self) -> bool {
        self.wf()
    }

    open spec fn spec_from_bytes(buf: NetBuf<'a, T>) -> Result<Self> {
        match spec_take(buf, 20) {
            Ok(t) => Ok(Tcp { hdr: t.0, buf: t.1 }),
            Err(e) => Err(e),
        }
    }

    /// Takes the 20 bytes at the cursor as a TCP header. Fails with
    /// `OutOfBounds` if fewer are left, and with `NullPtr` if the header's
    /// address is null.
    fn from_bytes(buf: NetBuf<'a, T>) -> (r: Result<Self>)
        ensures
            r == Self::spec_from_bytes(buf),
            r matches Ok(v) ==> v.valid(),
    {
        match buf.take::<TcpHdr>() {
            Ok((hdr, buf)) => Ok(Tcp { hdr, buf }),
            Err(e) => Err(e),
        }
    }
}

} // verus!
