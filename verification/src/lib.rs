//! Bounds-checked access to packet memory and zero-copy parsing of nested
//! network headers (Ethernet, IPv4, TCP, UDP) for programs that run at the
//! kernel's packet hooks, together with the record format in which such
//! programs hand events to user space.
//!
//! # The model
//!
//! Every contract in this crate is stated over a model of memory, so that
//! what a function reads or writes is pinned down byte by byte.
//!
//! * A buffer ([`buf::RawBuf`]) is a sequence of bytes placed at a start
//!   address. Addresses are numbers; an operation that hands out an address
//!   has checked it against the bounds of the buffer.
//! * A context ([`xdp::XdpContext`], [`socket::SkBuff`]) holds what the
//!   kernel tells of a packet together with the packet's bytes.
//! * A cursor ([`buf::NetBuf`]) borrows a context and remembers how far it
//!   has been parsed. Parsing a header consumes the cursor and yields a view
//!   that owns it.
//! * A header view ([`layer2::Ethernet`], [`layer3::Ipv4`], [`layer4::Tcp`],
//!   [`layer4::Udp`]) is the address of a header and the cursor behind it.
//!   Its getters read the bytes of the buffer in network byte order; its
//!   setters, which exist where the buffer can be written, write them in
//!   place.
//! * The host is little-endian: a value that is copied out of a buffer as it
//!   lies there ([`pod::Pod`]) is read least significant byte first.
//!
//! A function that takes a cursor or a view by value says what becomes of
//! the borrow: either the result holds it, or the buffer is left as it was.

pub mod bindings;
pub mod bits;
pub mod buf;
pub mod bytes;
pub mod error;
pub mod layer2;
pub mod layer3;
pub mod layer4;
pub mod net;
pub mod pod;
pub mod protocols;
pub mod socket;
pub mod user;
pub mod xdp;

