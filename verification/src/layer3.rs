//! The protocols that an Ethernet frame carries.

pub mod ipv4;

pub use self::ipv4::Ipv4;

use crate::buf::{NetBuf, RawBuf};
use crate::error::Result;
use crate::layer4::L4Proto;
use crate::net::Packet;
use vstd::prelude::*;

verus! {

/// The parsed layer 3 of a packet, whichever protocol it turned out to be.
/// Every variant holds a header view of the same shape, the address of the
/// header and the cursor, so that the value has one size whatever it holds.
/// More protocols may follow.
#[non_exhaustive]
pub enum L3Proto<'a, T: RawBuf> {
    Ipv4(Ipv4<'a, T>),
}

impl<'a, T: RawBuf> L3Proto<'a, T> {
    /// Gives up the cursor of whichever protocol `self` holds.
    pub fn inner_buf(self) -> (r: NetBuf<'a, T>)
        requires
            self.wf(),
        ensures
            r == self.spec_buf(),
            r.wf(),
    {
        match self {
            L3Proto::Ipv4(ip) => ip.data(),
        }
    }

    /// The cursor of whichever protocol `self` holds, borrowed.
    pub fn inner_buf_ref(&self) -> (r: &NetBuf<'a, T>)
        requires
            self.wf(),
        ensures
            *r == self.spec_buf(),
            r.wf(),
    {
        match self {
            L3Proto::Ipv4(ip) => ip.buf_ref(),
        }
    }
}

impl<'a, T: RawBuf> Packet<'a, T> for L3Proto<'a, T> {
    type Encapsulated = L4Proto<'a, T>;

    open spec fn wf(&self) -> bool {
        match self {
            L3Proto::Ipv4(ip) => ip.wf(),
        }
    }

    open spec fn spec_buf(&self) -> NetBuf<'a, T> {
        match self {
            L3Proto::Ipv4(ip) => ip.spec_buf(),
        }
    }

    open spec fn spec_parse(&self) -> Result<Self::Encapsulated> {
        match self {
            L3Proto::Ipv4(ip) => ip.spec_parse(),
        }
    }

    fn data(self) -> (r: NetBuf<'a, T>)
        ensures
            r == self.spec_buf(),
    {
        self.inner_buf()
    }

    fn buf_ref(&self) -> (r: &NetBuf<'a, T>)
        ensures
            *r == self.spec_buf(),
    {
        self.inner_buf_ref()
    }

    /// Parses the layer below whichever protocol `self` holds.
    fn parse(self) -> (r: Result<Self::Encapsulated>)
        ensures
            r == self.spec_parse(),
            r matches Ok(v) ==> v.wf(),
    {
        match self {
            L3Proto::Ipv4(ip) => ip.parse(),
        }
    }
}

} // verus!
