//! The protocols that IPv4 carries.

pub mod tcp;
pub mod udp;

pub use self::tcp::Tcp;
pub use self::udp::Udp;

use crate::buf::{NetBuf, RawBuf};
use crate::error::Result;
use crate::net::Packet;
use vstd::prelude::*;

verus! {

/// The parsed layer 4 of a packet, whichever protocol it turned out to be.
/// Every variant holds a header view of the same shape, the address of the
/// header and the cursor, so that the value has one size whatever it holds.
/// More protocols may follow.
#[non_exhaustive]
pub enum L4Proto<'a, T: RawBuf> {
    Tcp(Tcp<'a, T>),
    Udp(Udp<'a, T>),
}

impl<'a, T: RawBuf> L4Proto<'a, T> {
    /// Gives up the cursor of whichever protocol `self` holds.
    pub fn inner_buf(self) -> (r: NetBuf<'a, T>)
        requires
            self.wf(),
        ensures
            r == self.spec_buf(),
            r.wf(),
    {
        match self {
            L4Proto::Tcp(tcp) => tcp.data(),
            L4Proto::Udp(udp) => udp.data(),
        }
    }

    /// The cursor of whichever protocol `self` holds, borrowed.
    pub fn inner_buf_ref(&self) -> (r: &NetBuf<'a, T>)
        requires
            self.wf(),
        ensures
            *r == self.spec_buf(),
            r.wf(),
    {
        match self {
            L4Proto::Tcp(tcp) => tcp.buf_ref(),
            L4Proto::Udp(udp) => udp.buf_ref(),
        }
    }
}

impl<'a, T: RawBuf> Packet<'a, T> for L4Proto<'a, T> {
    type Encapsulated = NetBuf<'a, T>;

    open spec fn wf(&self) -> bool {
        match self {
            L4Proto::Tcp(tcp) => tcp.wf(),
            L4Proto::Udp(udp) => udp.wf(),
        }
    }

    open spec fn spec_buf(&self) -> NetBuf<'a, T> {
        match self {
            L4Proto::Tcp(tcp) => tcp.spec_buf(),
            L4Proto::Udp(udp) => udp.spec_buf(),
        }
    }

    open spec fn spec_parse(&self) -> Result<Self::Encapsulated> {
        Ok(self.spec_buf())
    }

    fn data(self) -> (r: NetBuf<'a, T>)
        ensures
            r == self.spec_buf(),
    {
        self.inner_buf()
    }

    fn buf_ref(&self) -> (r: &NetBuf<'a, T>)
        ensures
            *r == self.spec_buf(),
    {
        self.inner_buf_ref()
    }

    /// Nothing is parsed below layer 4: the payload is the cursor.
    fn parse(self) -> (r: Result<Self::Encapsulated>)
        ensures
            r == self.spec_parse(),
            r matches Ok(v) ==> v.wf(),
    {
        Ok(self.inner_buf())
    }
}

} // verus!
