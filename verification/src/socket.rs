//! The context of programs that filter sockets or classify traffic.
//!
//! The memory of a socket buffer need not be one linear region, so such a
//! program does not copy a value out of it by address: it asks the kernel
//! to copy the bytes.

use crate::buf::{decoded, NetBuf, RawBuf};
use crate::error::{Error, Result};
use crate::pod::Pod;
use vstd::prelude::*;

verus! {

/// Why a socket program failed.
#[derive(Debug, Clone, Copy, PartialEq, Eq, Structural)]
pub enum SocketError {
    /// Loading data from the socket buffer failed.
    LoadFailed,
}

/// The number that the kernel's copy answers with when the range that was
/// asked for is not inside the socket buffer.
pub const EFAULT: i32 = 14;

/// What the kernel tells a program of a socket buffer.
#[derive(Debug, Clone, Copy)]
pub struct SkBuffMeta {
    /// The length of the packet in bytes.
    pub len: u32,
    /// The kind of the packet: for this host, broadcast, multicast, and so on.
    pub pkt_type: u32,
    /// The mark that the firewall put on the packet.
    pub mark: u32,
    /// The queue that the packet is mapped to.
    pub queue_mapping: u32,
    /// The protocol of layer 3, as the kernel stores it.
    pub protocol: u32,
    /// Whether the packet has a VLAN tag: 1 if it has.
    pub vlan_present: u32,
    /// The VLAN tag.
    pub vlan_tci: u32,
    /// The protocol of the VLAN tag.
    pub vlan_proto: u32,
    /// The priority of the packet.
    pub priority: u32,
    /// The index of the interface that the packet arrived on.
    pub ingress_ifindex: u32,
    /// The index of the interface that the packet is on.
    pub ifindex: u32,
    /// The index that traffic control gave the packet.
    pub tc_index: u32,
    /// Five words for the program's own use.
    pub cb: [u32; 5],
    /// The hash of the packet.
    pub hash: u32,
    /// The class that traffic control put the packet in.
    pub tc_classid: u32,
    /// The address of the first byte of the packet.
    pub data: u32,
    /// The address that follows the last byte of the packet.
    pub data_end: u32,
    /// The identifier of the receive context.
    pub napi_id: u32,
    /// The address family of the socket.
    pub family: u32,
    /// The remote IPv4 address.
    pub remote_ip4: u32,
    /// The local IPv4 address.
    pub local_ip4: u32,
    /// The remote IPv6 address.
    pub remote_ip6: [u32; 4],
    /// The local IPv6 address.
    pub local_ip6: [u32; 4],
    /// The remote port.
    pub remote_port: u32,
    /// The local port.
    pub local_port: u32,
}

/// The context of a socket program: what the kernel tells of the socket
/// buffer, and the buffer's bytes.
pub struct SkBuff {
    /// What the kernel tells of the socket buffer; `None` stands for a null
    /// context, which the kernel never hands to a program.
    pub skb: Option<SkBuffMeta>,
    /// The bytes between `data` and `data_end`.
    pub packet: Vec<u8>,
}

/// What a load of `size` bytes at `offset` gives that goes through the
/// kernel's copy: the bytes if they lie inside the buffer, `LoadFailed` if
/// not. The alignment of the address does not matter.
pub open spec fn helper_load(bytes: Seq<u8>, offset: usize, size: nat) -> Result<Seq<u8>> {
    if offset + size <= bytes.len() {
        Ok(bytes.subrange(offset as int, offset + size))
    } else {
        Err(Error::LoadFailed)
    }
}

impl SkBuff {
    /// A context for `packet`, lying where `skb` says, if `skb` describes a
    /// range of as many bytes as `packet` has.
    pub fn new(skb: SkBuffMeta, packet: Vec<u8>) -> (r: Option<SkBuff>)
        ensures
            r is Some <==> skb.data <= skb.data_end && packet@.len() == skb.data_end - skb.data,
            r matches Some(c) ==> c.wf() && c.skb == Some(skb) && c.packet == packet,
    {
        if skb.data <= skb.data_end && packet.len() == (skb.data_end - skb.data) as usize {
            Some(SkBuff { skb: Some(skb), packet })
        } else {
            None
        }
    }

    /// What the kernel tells of the socket buffer. The context must not be
    /// null.
    pub fn inner(&mut self) -> (r: &SkBuffMeta)
        requires
            old(self).skb is Some,
        ensures
            *r == old(self).skb->0,
            *final(self) == *old(self),
    {
        self.skb.as_ref().unwrap()
    }

    /// What the kernel tells of the socket buffer.
    fn meta(&self) -> (r: &SkBuffMeta)
        requires
            self.skb is Some,
        ensures
            *r == self.skb->0,
    {
        self.skb.as_ref().unwrap()
    }

    /// A cursor over the buffer that stands at its first byte, since nothing
    /// is known yet of what the buffer holds.
    pub fn data<'a>(&'a mut self) -> (r: NetBuf<'a, Self>)
        requires
            old(self).wf(),
        ensures
            r.wf(),
            r.nh_offset == 0,
            *r.buf == *old(self),
            *final(r.buf) == *final(self),
    {
        NetBuf { buf: self, nh_offset: 0 }
    }

    /// The length of the packet in bytes. The context must not be null.
    pub fn len(&self) -> (r: u32)
        requires
            self.skb is Some,
        ensures
            r == self.skb->0.len,
    {
        self.meta().len
    }

    /// The kind of the packet. The context must not be null.
    pub fn pkt_type(&self) -> (r: u32)
        requires
            self.skb is Some,
        ensures
            r == self.skb->0.pkt_type,
    {
        self.meta().pkt_type
    }

    /// The mark that the firewall put on the packet. The context must not be null.
    pub fn mark(&self) -> (r: u32)
        requires
            self.skb is Some,
        ensures
            r == self.skb->0.mark,
    {
        self.meta().mark
    }

    /// The queue that the packet is mapped to. The context must not be null.
    pub fn queue_mapping(&self) -> (r: u32)
        requires
            self.skb is Some,
        ensures
            r == self.skb->0.queue_mapping,
    {
        self.meta().queue_mapping
    }

    /// The protocol of layer 3, as the kernel stores it. The context must not be null.
    pub fn protocol(&self) -> (r: u32)
        requires
            self.skb is Some,
        ensures
            r == self.skb->0.protocol,
    {
        self.meta().protocol
    }

    /// Whether the packet has a VLAN tag. The context must not be null.
    pub fn vlan_present(&self) -> (r: bool)
        requires
            self.skb is Some,
        ensures
            r == (self.skb->0.vlan_present == 1),
    {
        self.meta().vlan_present == 1
    }

    /// The VLAN tag. The context must not be null.
    pub fn vlan_tci(&self) -> (r: u32)
        requires
            self.skb is Some,
        ensures
            r == self.skb->0.vlan_tci,
    {
        self.meta().vlan_tci
    }

    /// The protocol of the VLAN tag. The context must not be null.
    pub fn vlan_proto(&self) -> (r: u32)
        requires
            self.skb is Some,
        ensures
            r == self.skb->0.vlan_proto,
    {
        self.meta().vlan_proto
    }

    /// The priority of the packet. The context must not be null.
    pub fn priority(&self) -> (r: u32)
        requires
            self.skb is Some,
        ensures
            r == self.skb->0.priority,
    {
        self.meta().priority
    }

    /// The index of the interface that the packet arrived on. The context must not be null.
    pub fn ingress_ifindex(&self) -> (r: u32)
        requires
            self.skb is Some,
        ensures
            r == self.skb->0.ingress_ifindex,
    {
        self.meta().ingress_ifindex
    }

    /// The index that traffic control gave the packet. The context must not be null.
    pub fn tc_index(&self) -> (r: u32)
        requires
            self.skb is Some,
        ensures
            r == self.skb->0.tc_index,
    {
        self.meta().tc_index
    }

    /// The five words for the program's own use. The context must not be null.
    pub fn cb(&self) -> (r: &[u32; 5])
        requires
            self.skb is Some,
        ensures
            *r == self.skb->0.cb,
    {
        &self.meta().cb
    }

    /// The hash of the packet. The context must not be null.
    pub fn hash(&self) -> (r: u32)
        requires
            self.skb is Some,
        ensures
            r == self.skb->0.hash,
    {
        self.meta().hash
    }

    /// The class that traffic control put the packet in. The context must not be null.
    pub fn tc_classid(&self) -> (r: u32)
        requires
            self.skb is Some,
        ensures
            r == self.skb->0.tc_classid,
    {
        self.meta().tc_classid
    }

    /// The identifier of the receive context. The context must not be null.
    pub fn napi_id(&self) -> (r: u32)
        requires
            self.skb is Some,
        ensures
            r == self.skb->0.napi_id,
    {
        self.meta().napi_id
    }

    /// The address family of the socket. The context must not be null.
    pub fn family(&self) -> (r: u32)
        requires
            self.skb is Some,
        ensures
            r == self.skb->0.family,
    {
        self.meta().family
    }

    /// The remote IPv4 address. The context must not be null.
    pub fn remote_ip4(&self) -> (r: u32)
        requires
            self.skb is Some,
        ensures
            r == self.skb->0.remote_ip4,
    {
        self.meta().remote_ip4
    }

    /// The local IPv4 address. The context must not be null.
    pub fn local_ip4(&self) -> (r: u32)
        requires
            self.skb is Some,
        ensures
            r == self.skb->0.local_ip4,
    {
        self.meta().local_ip4
    }

    /// The remote IPv6 address. The context must not be null.
    pub fn remote_ip6(&self) -> (r: &[u32; 4])
        requires
            self.skb is Some,
        ensures
            *r == self.skb->0.remote_ip6,
    {
        &self.meta().remote_ip6
    }

    /// The local IPv6 address. The context must not be null.
    pub fn local_ip6(&self) -> (r: &[u32; 4])
        requires
            self.skb is Some,
        ensures
            *r == self.skb->0.local_ip6,
    {
        &self.meta().local_ip6
    }

    /// The remote port. The context must not be null.
    pub fn remote_port(&self) -> (r: u32)
        requires
            self.skb is Some,
        ensures
            r == self.skb->0.remote_port,
    {
        self.meta().remote_port
    }

    /// The local port. The context must not be null.
    pub fn local_port(&self) -> (r: u32)
        requires
            self.skb is Some,
        ensures
            r == self.skb->0.local_port,
    {
        self.meta().local_port
    }

    /// The kernel's copy out of the socket buffer: `len` bytes at `offset`.
    /// It answers 0 and hands over the bytes, or answers a negative number
    /// and hands over nothing, if they do not all lie inside the buffer.
    pub fn skb_load_bytes(&self, offset: u32, len: u32) -> (r: (i32, &[u8]))
        ensures
            offset + len <= self.packet@.len() ==> r.0 == 0 && r.1@ == self.packet@.subrange(
                offset as int,
                offset + len,
            ),
            offset + len > self.packet@.len() ==> r.0 == -EFAULT && r.1@.len() == 0,
    {
        let m = self.packet.as_slice();
        if offset as usize <= m.len() && len as usize <= m.len() - offset as usize {
            (0, vstd::slice::slice_subrange(m, offset as usize, offset as usize + len as usize))
        } else {
            (-EFAULT, vstd::slice::slice_subrange(m, 0, 0))
        }
    }

    /// What to ask of the kernel's copy for a load of a `V` at `offset`: the
    /// offset and the number of bytes, if the offset fits in the 32 bits that
    /// the kernel takes. A load that cannot be asked for fails.
    pub fn load_request<V: Pod>(offset: usize) -> (r: Option<(u32, u32)>)
        ensures
            r is Some <==> offset <= u32::MAX && V::spec_size() <= u32::MAX,
            r matches Some(q) ==> q.0 == offset && q.1 == V::spec_size(),
    {
        let size: usize = V::size();
        if offset > u32::MAX as usize || size > u32::MAX as usize {
            None
        } else {
            Some((offset as u32, size as u32))
        }
    }

    /// What a load of a `V` gives once the kernel's copy has answered `ret`
    /// and handed over `bytes`: `LoadFailed` if the answer is negative, the
    /// value that the bytes hold if not.
    pub fn loaded<V: Pod>(ret: i32, bytes: &[u8]) -> (r: Result<V>)
        requires
            ret >= 0 ==> bytes@.len() == V::spec_size(),
        ensures
            r == if ret < 0 {
                Err::<V, Error>(Error::LoadFailed)
            } else {
                Ok(V::spec_decode(bytes@))
            },
    {
        if ret < 0 {
            Err(Error::LoadFailed)
        } else {
            Ok(V::decode(bytes))
        }
    }
}

impl RawBuf for SkBuff {
    /// The context is not null, and the packet has as many bytes as lie
    /// between `data` and `data_end`.
    open spec fn wf(&self) -> bool {
        &&& self.skb matches Some(meta)
        &&& meta.data <= meta.data_end
        &&& self.packet@.len() == meta.data_end - meta.data
    }

    open spec fn spec_start(&self) -> usize {
        self.skb->0.data as usize
    }

    open spec fn bytes(&self) -> Seq<u8> {
        self.packet@
    }

    open spec fn spec_load(&self, offset: usize, size: nat, align: nat) -> Result<Seq<u8>> {
        helper_load(self.bytes(), offset, size)
    }

    fn start(&self) -> (r: usize)
        ensures
            r == self.spec_start(),
    {
        self.meta().data as usize
    }

    fn end(&self) -> (r: usize)
        ensures
            r == self.spec_start() + self.bytes().len(),
    {
        self.meta().data_end as usize
    }

    fn as_slice(&self) -> (r: &[u8])
        ensures
            r@ == self.bytes(),
    {
        self.packet.as_slice()
    }

    /// Asks the kernel to copy the bytes, whatever the alignment of their
    /// address. Fails with `LoadFailed` if the kernel refuses.
    fn load<V: Pod>(&self, offset: usize) -> (r: Result<V>)
        ensures
            r == decoded::<V>(self.spec_load(offset, V::spec_size(), V::spec_align())),
    {
        match SkBuff::load_request::<V>(offset) {
            Some((at, size)) => {
                let (ret, bytes) = self.skb_load_bytes(at, size);
                SkBuff::loaded::<V>(ret, bytes)
            },
            None => Err(Error::LoadFailed),
        }
    }

    proof fn lemma_end(&self) {
        assert(self.spec_start() + self.bytes().len() == self.skb->0.data_end);
    }

    proof fn lemma_load(&self, offset: usize, size: nat, align: nat) {
        assert(self.spec_load(offset, size, align) == helper_load(self.bytes(), offset, size));
    }
}

} // verus!
