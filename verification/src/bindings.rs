//! The numbers and header layouts that the kernel's network headers define.

use crate::pod::Layout;
use vstd::prelude::*;

verus! {

/// The number of bytes in a hardware address.
pub const ETH_ALEN: usize = 6;

/// The EtherType of IPv4.
pub const ETH_P_IP: u16 = 0x0800;

/// The IPv4 protocol number of TCP.
pub const IPPROTO_TCP: u8 = 6;

/// The IPv4 protocol number of UDP.
pub const IPPROTO_UDP: u8 = 17;

/// The layout of an Ethernet header: two hardware addresses and the
/// EtherType, 14 bytes that may lie at any address.
pub struct EthHdr;

/// The layout of an IPv4 header without options: 20 bytes that may lie at
/// any address.
pub struct IpHdr;

/// The layout of a TCP header without options: 20 bytes that may lie at any
/// address.
pub struct TcpHdr;

/// The layout of a UDP header: 8 bytes that may lie at any address.
pub struct UdpHdr;

impl Layout for EthHdr {
    open spec fn spec_size() -> nat {
        14
    }

    open spec fn spec_align() -> nat {
        1
    }

    fn size() -> (r: usize)
        ensures
            r == Self::spec_size(),
    {
        14
    }

    fn align() -> (r: usize)
        ensures
            r == Self::spec_align(),
    {
        1
    }
}

impl Layout for IpHdr {
    open spec fn spec_size() -> nat {
        20
    }

    open spec fn spec_align() -> nat {
        1
    }

    fn size() -> (r: usize)
        ensures
            r == Self::spec_size(),
    {
        20
    }

    fn align() -> (r: usize)
        ensures
            r == Self::spec_align(),
    {
        1
    }
}

impl Layout for TcpHdr {
    open spec fn spec_size() -> nat {
        20
    }

    open spec fn spec_align() -> nat {
        1
    }

    fn size() -> (r: usize)
        ensures
            r == Self::spec_size(),
    {
        20
    }

    fn align() -> (r: usize)
        ensures
            r == Self::spec_align(),
    {
        1
    }
}

impl Layout for UdpHdr {
    open spec fn spec_size() -> nat {
        8
    }

    open spec fn spec_align() -> nat {
        1
    }

    fn size() -> (r: usize)
        ensures
            r == Self::spec_size(),
    {
        8
    }

    fn align() -> (r: usize)
        ensures
            r == Self::spec_align(),
    {
        1
    }
}

} // verus!
