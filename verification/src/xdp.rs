//! The context of a program at the XDP hook, the verdicts such a program
//! returns, and the channel through which it hands events to user space.
//!
//! The packet memory of this hook is one linear region that the program may
//! read and write in place.

use crate::buf::{checked_load, decoded, load_checked, NetBuf, RawBuf, RawBufMut};
use crate::bytes::{le32_bytes, lemma_le32_roundtrip};
use crate::error::{Error, Result};
use crate::pod::Pod;
use vstd::prelude::*;

verus! {

/// What an XDP program returns: a verdict, or why it could not reach one.
pub type XdpResult = core::result::Result<XdpAction, Error>;

/// The verdict of an XDP program on a packet.
#[derive(Debug, Clone, Copy, PartialEq, Eq, Structural)]
pub enum XdpAction {
    /// The program met something it did not expect. The packet is dropped.
    /// Meant for debugging, not for ordinary control flow.
    Aborted,
    /// The packet is dropped.
    Drop,
    /// The packet goes on to the network stack, as the program left it.
    Pass,
    /// The packet is sent back out of the interface it arrived on.
    Tx,
    /// The packet is sent out of another interface.
    Redirect,
}

impl XdpAction {
    /// The number that the hook knows the verdict by.
    pub open spec fn spec_value(&self) -> u32 {
        match self {
            XdpAction::Aborted => 0,
            XdpAction::Drop => 1,
            XdpAction::Pass => 2,
            XdpAction::Tx => 3,
            XdpAction::Redirect => 4,
        }
    }

    /// The number that the hook knows the verdict by.
    pub fn value(&self) -> (r: u32)
        ensures
            r == self.spec_value(),
    {
        match self {
            XdpAction::Aborted => 0,
            XdpAction::Drop => 1,
            XdpAction::Pass => 2,
            XdpAction::Tx => 3,
            XdpAction::Redirect => 4,
        }
    }
}

/// What the kernel tells an XDP program of a packet: where its bytes lie and
/// where it came from.
#[derive(Debug, Clone, Copy, PartialEq, Eq, Structural)]
pub struct XdpMd {
    /// The address of the first byte of the packet.
    pub data: u32,
    /// The address that follows the last byte of the packet.
    pub data_end: u32,
    /// The address of the metadata that precedes the packet.
    pub data_meta: u32,
    /// The index of the interface that the packet arrived on.
    pub ingress_ifindex: u32,
    /// The index of the receive queue that the packet arrived on.
    pub rx_queue_index: u32,
}

/// The context of an XDP program: what the kernel tells of the packet, and
/// the packet's memory.
pub struct XdpContext {
    /// What the kernel tells of the packet; `None` stands for a null
    /// context, which the kernel never hands to a program.
    pub ctx: Option<XdpMd>,
    /// The bytes between `data` and `data_end`.
    pub packet: Vec<u8>,
}

impl XdpContext {
    /// A context for `packet`, lying where `md` says, if `md` describes a
    /// range of as many bytes as `packet` has.
    pub fn new(md: XdpMd, packet: Vec<u8>) -> (r: Option<XdpContext>)
        ensures
            r is Some <==> md.data <= md.data_end && packet@.len() == md.data_end - md.data,
            r matches Some(c) ==> c.wf() && c.ctx == Some(md) && c.packet == packet,
    {
        if md.data <= md.data_end && packet.len() == (md.data_end - md.data) as usize {
            Some(XdpContext { ctx: Some(md), packet })
        } else {
            None
        }
    }

    /// What the kernel tells of the packet. The context must not be null.
    pub fn inner(&mut self) -> (r: &mut XdpMd)
        requires
            old(self).ctx is Some,
        ensures
            *r == old(self).ctx->0,
            final(self).ctx == Some(*final(r)),
            final(self).packet == old(self).packet,
    {
        self.ctx.as_mut().unwrap()
    }

    /// A cursor over the packet that stands at its first byte, since nothing
    /// is known yet of what the packet holds.
    pub fn data<'a>(&'a mut self) -> (r: NetBuf<'a, Self>)
        requires
            old(self).wf(),
        ensures
            r.wf(),
            r.nh_offset == 0,
            *r.buf == *old(self),
            *final(r.buf) == *final(self),
    {
        NetBuf { buf: self, nh_offset: 0 }
    }
}

impl RawBuf for XdpContext {
    /// The context is not null, and the packet has as many bytes as lie
    /// between `data` and `data_end`.
    open spec fn wf(&self) -> bool {
        &&& self.ctx matches Some(md)
        &&& md.data <= md.data_end
        &&& self.packet@.len() == md.data_end - md.data
    }

    open spec fn spec_start(&self) -> usize {
        self.ctx->0.data as usize
    }

    open spec fn bytes(&self) -> Seq<u8> {
        self.packet@
    }

    open spec fn spec_load(&self, offset: usize, size: nat, align: nat) -> Result<Seq<u8>> {
        checked_load(self.spec_start(), self.bytes(), offset, size, align)
    }

    fn start(&self) -> (r: usize)
        ensures
            r == self.spec_start(),
    {
        self.ctx.as_ref().unwrap().data as usize
    }

    fn end(&self) -> (r: usize)
        ensures
            r == self.spec_start() + self.bytes().len(),
    {
        self.ctx.as_ref().unwrap().data_end as usize
    }

    fn as_slice(&self) -> (r: &[u8])
        ensures
            r@ == self.bytes(),
    {
        self.packet.as_slice()
    }

    /// The packet's memory can be addressed directly: the bounds are
    /// checked, then the alignment, then the bytes are copied.
    fn load<V: Pod>(&self, offset: usize) -> (r: Result<V>)
        ensures
            r == decoded::<V>(self.spec_load(offset, V::spec_size(), V::spec_align())),
    {
        let start: usize = self.start();
        load_checked::<V>(start, self.packet.as_slice(), offset)
    }

    proof fn lemma_end(&self) {
        assert(self.spec_start() + self.bytes().len() == self.ctx->0.data_end);
    }

    proof fn lemma_load(&self, offset: usize, size: nat, align: nat) {
        assert(self.spec_load(offset, size, align) == checked_load(
            self.spec_start(),
            self.bytes(),
            offset,
            size,
            align,
        ));
    }
}

impl RawBufMut for XdpContext {
    fn as_slice_mut(&mut self) -> (r: &mut [u8])
        ensures
            r@ == old(self).bytes(),
            final(self).ctx == old(self).ctx,
    {
        self.packet.as_mut_slice()
    }
}

/// A record that a program hands to user space: a value of the program's
/// own, and the announcement of `size` bytes of the packet that follow the
/// record, of which those from `offset` on are of interest.
///
/// On the wire the record is the bytes of `data`, then `offset` and `size`
/// as 32-bit numbers in the byte order of the host; the bytes of the packet
/// follow.
pub struct MapData<T> {
    /// The value of the program's own.
    pub data: T,
    /// Where in the bytes that follow the interesting part begins.
    pub offset: u32,
    /// The number of bytes of the packet that follow the record.
    pub size: u32,
    /// Marks where the bytes of the packet begin: right behind the record.
    pub payload: [u8; 0],
}

impl<T> MapData<T> {
    /// A record of `data` that no bytes of the packet follow.
    pub fn new(data: T) -> (r: Self)
        ensures
            r.data == data,
            r.offset == 0,
            r.size == 0,
    {
        MapData::<T>::with_payload(data, 0, 0)
    }

    /// A record of `data` that `size` bytes of the packet follow, of which
    /// those from `offset` on are of interest.
    pub fn with_payload(data: T, offset: u32, size: u32) -> (r: Self)
        ensures
            r.data == data,
            r.offset == offset,
            r.size == size,
    {
        MapData { data, payload: [], offset, size }
    }

    /// The value of the program's own.
    pub fn data(&self) -> (r: &T)
        ensures
            *r == self.data,
    {
        &self.data
    }
}

impl<T: Pod> MapData<T> {
    /// The bytes of the record on the wire.
    pub open spec fn spec_record(&self) -> Seq<u8> {
        self.data.spec_encode() + le32_bytes(self.offset) + le32_bytes(self.size)
    }

    /// The bytes of the record on the wire.
    pub fn record(&self) -> (r: Vec<u8>)
        ensures
            r@ == self.spec_record(),
            r@.len() == T::spec_size() + 8,
    {
        let mut out: Vec<u8> = self.data.encode();
        let mut offset: Vec<u8> = self.offset.encode();
        let mut size: Vec<u8> = self.size.encode();
        out.append(&mut offset);
        out.append(&mut size);
        proof {
            T::lemma_roundtrip(Seq::empty(), self.data);
            lemma_le32_roundtrip(le32_bytes(self.offset), 0, self.offset);
            lemma_le32_roundtrip(le32_bytes(self.size), 0, self.size);
        }
        out
    }
}

/// What accompanies an event on its way into the channel.
#[derive(Debug, Clone, Copy, PartialEq, Eq, Structural)]
pub struct PerfMapFlags {
    /// The slot of the channel that the event goes to; `None` is the slot of
    /// the processor that the program runs on.
    pub index: Option<u32>,
    /// The number of bytes of the packet that are appended to the event.
    pub xdp_size: u32,
}

impl PerfMapFlags {
    /// Flags for an event that goes to the slot of the current processor,
    /// with no bytes of the packet.
    pub fn new() -> (r: Self)
        ensures
            r == (PerfMapFlags { index: None, xdp_size: 0 }),
    {
        PerfMapFlags { index: None, xdp_size: 0 }
    }

    /// Flags for an event that goes to the slot `index`, with no bytes of
    /// the packet.
    pub fn with_index(index: u32) -> (r: Self)
        ensures
            r == (PerfMapFlags { index: Some(index), xdp_size: 0 }),
    {
        PerfMapFlags { index: Some(index), xdp_size: 0 }
    }

    /// Flags for an event that goes to the slot of the current processor,
    /// with `size` bytes of the packet.
    pub fn with_xdp_size(size: u32) -> (r: Self)
        ensures
            r == (PerfMapFlags { index: None, xdp_size: size }),
    {
        PerfMapFlags { index: None, xdp_size: size }
    }
}

/// An event as it lies in the channel: the flags it was written with, and
/// its bytes, which are the record and the bytes of the packet behind it.
pub struct PerfEvent {
    /// The flags that the event was written with.
    pub flags: PerfMapFlags,
    /// The record, followed by the bytes of the packet.
    pub sample: Vec<u8>,
}

/// The channel of an XDP program to user space. It holds the events that
/// were written and not yet taken out, at most `max_entries` of them.
pub struct PerfMap<T> {
    /// The number of events that the channel has room for.
    pub max_entries: u32,
    /// The events in the channel, oldest first.
    pub events: Vec<PerfEvent>,
    /// The records of the channel hold a `T`.
    pub marker: core::marker::PhantomData<T>,
}

/// The event that writing `data` with `flags` puts into the channel, the
/// packet being `packet`: the flags, with the number of appended bytes set
/// to `data.size` whatever `flags` says, and the record followed by the
/// first `data.size` bytes of the packet.
pub open spec fn spec_event<T: Pod>(packet: Seq<u8>, data: MapData<T>, flags: PerfMapFlags) -> (
    PerfMapFlags,
    Seq<u8>,
) {
    (
        PerfMapFlags { index: flags.index, xdp_size: data.size },
        data.spec_record() + packet.subrange(0, data.size as int),
    )
}

/// The number of bytes that an event appends is the one that its record
/// announces, whatever the flags say that it is written with: two sets of
/// flags that name the same slot give the same event.
pub proof fn lemma_record_decides_size<T: Pod>(
    packet: Seq<u8>,
    data: MapData<T>,
    flags: PerfMapFlags,
    other: PerfMapFlags,
)
    ensures
        spec_event(packet, data, flags).0.xdp_size == data.size,
        flags.index == other.index ==> spec_event(packet, data, flags) == spec_event(
            packet,
            data,
            other,
        ),
{
}

impl<T: Pod> PerfMap<T> {
    /// Whether the channel holds no more events than it has room for.
    pub open spec fn wf(&self) -> bool {
        self.events@.len() <= self.max_entries
    }

    /// Whether the channel takes an event that announces `size` bytes of a
    /// packet of `len` bytes: it has room left, and the packet has that many
    /// bytes.
    pub open spec fn accepts(&self, len: nat, size: u32) -> bool {
        self.events@.len() < self.max_entries && size <= len
    }

    /// An empty channel with room for `max_entries` events. The room does
    /// not grow.
    pub fn with_max_entries(max_entries: u32) -> (r: Self)
        ensures
            r.wf(),
            r.max_entries == max_entries,
            r.events@.len() == 0,
    {
        PerfMap { max_entries, events: Vec::new(), marker: core::marker::PhantomData }
    }

    /// Writes `data` into the slot of the current processor, followed by the
    /// first `data.size` bytes of the packet. The event is lost if the
    /// channel does not accept it; the caller is not told.
    pub fn insert(&mut self, ctx: &mut XdpContext, data: &MapData<T>)
        requires
            old(self).wf(),
            old(ctx).wf(),
        ensures
            final(self).wf(),
            final(self).max_entries == old(self).max_entries,
            *final(ctx) == *old(ctx),
            !old(self).accepts(old(ctx).bytes().len(), data.size) ==> final(self).events@ == old(
                self,
            ).events@,
            old(self).accepts(old(ctx).bytes().len(), data.size) ==> {
                let e = final(self).events@.last();
                &&& final(self).events@.len() == old(self).events@.len() + 1
                &&& final(self).events@.drop_last() == old(self).events@
                &&& e.flags == (PerfMapFlags { index: None, xdp_size: data.size })
                &&& (e.flags, e.sample@) == spec_event(
                    old(ctx).bytes(),
                    *data,
                    PerfMapFlags { index: None, xdp_size: data.size },
                )
            },
    {
        let size: u32 = data.size;
        self.insert_with_flags(ctx, data, PerfMapFlags::with_xdp_size(size))
    }

    /// Writes `data` into the slot that `flags` names, followed by the first
    /// `data.size` bytes of the packet: the number of appended bytes is
    /// always `data.size`, whatever `flags` says of it. The event is lost if
    /// the channel does not accept it; the caller is not told.
    pub fn insert_with_flags(&mut self, ctx: &mut XdpContext, data: &MapData<T>, flags: PerfMapFlags)
        requires
            old(self).wf(),
            old(ctx).wf(),
        ensures
            final(self).wf(),
            final(self).max_entries == old(self).max_entries,
            *final(ctx) == *old(ctx),
            !old(self).accepts(old(ctx).bytes().len(), data.size) ==> final(self).events@ == old(
                self,
            ).events@,
            old(self).accepts(old(ctx).bytes().len(), data.size) ==> {
                let e = final(self).events@.last();
                &&& final(self).events@.len() == old(self).events@.len() + 1
                &&& final(self).events@.drop_last() == old(self).events@
                &&& e.flags.xdp_size == data.size
                &&& e.flags.index == flags.index
                &&& (e.flags, e.sample@) == spec_event(old(ctx).bytes(), *data, flags)
            },
    {
        let mut flags = flags;
        flags.xdp_size = data.size;
        let packet = ctx.as_slice();
        if self.events.len() < self.max_entries as usize && data.size as usize <= packet.len() {
            let mut sample: Vec<u8> = data.record();
            let mut i: usize = 0;
            let n: usize = data.size as usize;
            while i < n
                invariant
                    i <= n,
                    n <= packet@.len(),
                    sample@ == data.spec_record() + packet@.subrange(0, i as int),
                decreases n - i,
            {
                sample.push(packet[i]);
                i = i + 1;
                assert(sample@ =~= data.spec_record() + packet@.subrange(0, i as int));
            }
            let ghost before = self.events@;
            self.events.push(PerfEvent { flags, sample });
            assert(self.events@.drop_last() =~= before);
        }
    }
}

} // verus!
