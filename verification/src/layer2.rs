//! The protocols of the link layer.

pub mod eth;

pub use self::eth::{EthProto, Ethernet};

use crate::buf::{NetBuf, RawBuf};
use crate::error::Result;
use crate::layer3::L3Proto;
use crate::net::Packet;
use vstd::prelude::*;

verus! {

/// The parsed layer 2 of a packet, whichever protocol it turned out to be.
/// Every variant holds a header view of the same shape, the address of the
/// header and the cursor, so that the value has one size whatever it holds.
/// More protocols may follow.
#[non_exhaustive]
pub enum L2Proto<'a, T: RawBuf> {
    Ethernet(Ethernet<'a, T>),
}

impl<'a, T: RawBuf> L2Proto<'a, T> {
    /// Gives up the cursor of whichever protocol `self` holds.
    pub fn inner_buf(self) -> (r: NetBuf<'a, T>)
        requires
            self.wf(),
        ensures
            r == self.spec_buf(),
            r.wf(),
    {
        match self {
            L2Proto::Ethernet(eth) => eth.data(),
        }
    }

    /// The cursor of whichever protocol `self` holds, borrowed.
    pub fn inner_buf_ref(&self) -> (r: &NetBuf<'a, T>)
        requires
            self.wf(),
        ensures
            *r == self.spec_buf(),
            r.wf(),
    {
        match self {
            L2Proto::Ethernet(eth) => eth.buf_ref(),
        }
    }
}

impl<'a, T: RawBuf> Packet<'a, T> for L2Proto<'a, T> {
    type Encapsulated = L3Proto<'a, T>;

    open spec fn wf(&self) -> bool {
        match self {
            L2Proto::Ethernet(eth) => eth.wf(),
        }
    }

    open spec fn spec_buf(&self) -> NetBuf<'a, T> {
        match self {
            L2Proto::Ethernet(eth) => eth.spec_buf(),
        }
    }

    open spec fn spec_parse(&self) -> Result<Self::Encapsulated> {
        match self {
            L2Proto::Ethernet(eth) => eth.spec_parse(),
        }
    }

    fn data(self) -> (r: NetBuf<'a, T>)
        ensures
            r == self.spec_buf(),
    {
        self.inner_buf()
    }

    fn buf_ref(&self) -> (r: &NetBuf<'a, T>)
        ensures
            *r == self.spec_buf(),
    {
        self.inner_buf_ref()
    }

    /// Parses the layer below whichever protocol `self` holds.
    fn parse(self) -> (r: Result<Self::Encapsulated>)
        ensures
            r == self.spec_parse(),
            r matches Ok(v) ==> v.wf(),
    {
        match self {
            L2Proto::Ethernet(eth) => eth.parse(),
        }
    }
}

} // verus!
