//! Buffers given by a start and an end address, every access to which is
//! checked against those bounds, and the cursor that parsing moves over such
//! a buffer.

use crate::bytes::{
    be16, be16_bytes, be32, be32_bytes, le16, le16_bytes, le32, lemma_swap_is_network_order,
    read_be16, read_be32, read_le16, read_u8, splice, swap16, write_be16, write_be32, write_bytes,
    write_le16, write_u8,
};
use crate::error::{Error, Result};
use crate::net::{FromBe, FromBytes};
use crate::pod::{Layout, Pod};
use vstd::prelude::*;

verus! {

/// Where a value of `size` bytes lies that starts `offset` bytes into a
/// buffer of `len` bytes at address `start`, if it fits.
pub open spec fn spec_ptr_at(start: usize, len: nat, offset: usize, size: nat) -> Option<usize> {
    if offset + size <= len {
        Some((start + offset) as usize)
    } else {
        None
    }
}

/// Where the value of `next` bytes lies that follows a value of `size` bytes
/// at address `prev`, if the first lies inside the buffer and is not empty,
/// and the second fits.
pub open spec fn spec_ptr_after(start: usize, len: nat, prev: usize, size: nat, next: nat) -> Option<
    usize,
> {
    if start <= prev && 0 < size && prev + size <= start + len && prev - start + size + next
        <= len {
        Some((prev + size) as usize)
    } else {
        None
    }
}

/// The bytes that a load of `size` bytes at `offset` copies if it is
/// checked against the bounds first and against the alignment `align` of the
/// address second.
pub open spec fn checked_load(start: usize, bytes: Seq<u8>, offset: usize, size: nat, align: nat) -> Result<
    Seq<u8>,
> {
    if offset + size > bytes.len() {
        Err(Error::LoadFailed)
    } else if (start + offset) % (align as int) != 0 {
        Err(Error::Unaligned)
    } else {
        Ok(bytes.subrange(offset as int, offset + size))
    }
}

/// The value of type `T` that the outcome `raw` of a load stands for.
pub open spec fn decoded<T: Pod>(raw: Result<Seq<u8>>) -> Result<T> {
    match raw {
        Ok(b) => Ok(T::spec_decode(b)),
        Err(e) => Err(e),
    }
}

/// A buffer of bytes that lies between a start and an end address.
///
/// An implementation says where the buffer lies and hands out its bytes; the
/// checked operations are derived from that. How a typed load is carried out
/// is left to the implementation: one over memory that can be addressed
/// directly hands its bytes to `load_checked`.
pub trait RawBuf {
    /// Whether the buffer can be used: the implementation's own invariant.
    spec fn wf(&self) -> bool;

    /// The address of the first byte.
    spec fn spec_start(&self) -> usize;

    /// The bytes that lie between the start and the end address.
    spec fn bytes(&self) -> Seq<u8>;

    /// The bytes that a load of `size` bytes at `offset` copies, for a type
    /// of alignment `align`.
    spec fn spec_load(&self, offset: usize, size: nat, align: nat) -> Result<Seq<u8>>;

    /// The address of the first byte.
    fn start(&self) -> (r: usize)
        requires
            self.wf(),
        ensures
            r == self.spec_start(),
    ;

    /// The address that follows the last byte.
    fn end(&self) -> (r: usize)
        requires
            self.wf(),
        ensures
            r == self.spec_start() + self.bytes().len(),
    ;

    /// The whole buffer.
    fn as_slice(&self) -> (r: &[u8])
        requires
            self.wf(),
        ensures
            r@ == self.bytes(),
    ;

    /// Copies a `V` out of the buffer at `offset`.
    fn load<V: Pod>(&self, offset: usize) -> (r: Result<V>)
        requires
            self.wf(),
        ensures
            r == decoded::<V>(self.spec_load(offset, V::spec_size(), V::spec_align())),
    ;

    /// The end address of a buffer that can be used is an address: the
    /// buffer does not reach past the highest one.
    proof fn lemma_end(&self)
        requires
            self.wf(),
        ensures
            self.spec_start() + self.bytes().len() <= usize::MAX,
    ;

    /// Whatever way an implementation loads, the bytes that it hands out
    /// are those at `offset`, a load that reaches past the end fails with
    /// `LoadFailed`, and no load fails in another way than with `LoadFailed`
    /// or `Unaligned`.
    proof fn lemma_load(&self, offset: usize, size: nat, align: nat)
        requires
            self.wf(),
        ensures
            self.spec_load(offset, size, align) matches Ok(b) ==> offset + size
                <= self.bytes().len() && b == self.bytes().subrange(offset as int, offset + size),
            self.spec_load(offset, size, align) matches Err(e) ==> e == Error::LoadFailed || e
                == Error::Unaligned,
            offset + size > self.bytes().len() ==> self.spec_load(offset, size, align) == Err::<
                Seq<u8>,
                Error,
            >(Error::LoadFailed),
    ;

    /// The number of bytes in the buffer.
    fn len(&self) -> (r: usize)
        requires
            self.wf(),
        ensures
            r == self.bytes().len(),
    {
        self.end() - self.start()
    }

    /// Whether `addr` lies in the buffer or is its end address.
    fn check_bound(&self, addr: usize) -> (r: bool)
        requires
            self.wf(),
        ensures
            r == (self.spec_start() <= addr <= self.spec_start() + self.bytes().len()),
    {
        !(addr > self.end() || addr < self.start())
    }

    /// Whether the addresses from `start` up to `end` are a range of the
    /// buffer that is not empty.
    fn check_bounds(&self, start: usize, end: usize) -> (r: bool)
        requires
            self.wf(),
        ensures
            r == (start < end && self.spec_start() <= start && end <= self.spec_start()
                + self.bytes().len()),
    {
        !(start >= end || start < self.start() || end > self.end())
    }

    /// The address `offset` bytes past the start, if a `U` fits between it
    /// and the end of the buffer. Nothing is said of the alignment of the
    /// address.
    fn ptr_at<U: Layout>(&self, offset: usize) -> (r: Option<usize>)
        requires
            self.wf(),
        ensures
            r == spec_ptr_at(self.spec_start(), self.bytes().len(), offset, U::spec_size()),
    {
        proof {
            self.lemma_end();
        }
        match self.start().checked_add(offset) {
            Some(addr) => match addr.checked_add(U::size()) {
                Some(limit) => if self.check_bound(limit) {
                    Some(addr)
                } else {
                    None
                },
                None => None,
            },
            None => None,
        }
    }

    /// The address that follows the `P` at address `prev`, if that `P` lies
    /// inside the buffer and a `U` fits behind it.
    fn ptr_after<P: Layout, U: Layout>(&self, prev: usize) -> (r: Option<usize>)
        requires
            self.wf(),
        ensures
            r == spec_ptr_after(
                self.spec_start(),
                self.bytes().len(),
                prev,
                P::spec_size(),
                U::spec_size(),
            ),
    {
        proof {
            self.lemma_end();
        }
        match prev.checked_add(P::size()) {
            Some(limit) => if self.check_bounds(prev, limit) {
                self.ptr_at::<U>(limit - self.start())
            } else {
                None
            },
            None => None,
        }
    }

    /// The `len` bytes that start `offset` bytes into the buffer, if there
    /// are as many and `len` is not zero.
    fn slice_at(&self, offset: usize, len: usize) -> (r: Option<&[u8]>)
        requires
            self.wf(),
        ensures
            r is Some <==> 0 < len && offset + len <= self.bytes().len(),
            r matches Some(s) ==> s@ == self.bytes().subrange(offset as int, offset + len),
    {
        let m = self.as_slice();
        if len == 0 || offset > m.len() || len > m.len() - offset {
            None
        } else {
            Some(vstd::slice::slice_subrange(m, offset, offset + len))
        }
    }

    /// Copies a `V` out of the buffer at `offset` and converts it from
    /// network byte order to the byte order of the host.
    fn load_be<V: Pod + FromBe>(&self, offset: usize) -> (r: Result<V>)
        requires
            self.wf(),
        ensures
            r == match decoded::<V>(self.spec_load(offset, V::spec_size(), V::spec_align())) {
                Ok(v) => Ok::<V, Error>(v.spec_from_be()),
                Err(e) => Err(e),
            },
    {
        match self.load::<V>(offset) {
            Ok(v) => Ok(v.from_be()),
            Err(e) => Err(e),
        }
    }
}

/// The load for buffers whose memory can be addressed directly: the bounds
/// are checked, then the alignment of the address, then the bytes are copied.
/// `mem` is the buffer and `start` its address. The value that is handed out
/// is a new one, which lies wherever its type asks, so that only the address
/// in the buffer can be misaligned.
pub fn load_checked<T: Pod>(start: usize, mem: &[u8], offset: usize) -> (r: Result<T>)
    requires
        start + mem@.len() <= usize::MAX,
    ensures
        r == decoded::<T>(checked_load(start, mem@, offset, T::spec_size(), T::spec_align())),
{
    let size: usize = T::size();
    if offset > mem.len() || size > mem.len() - offset {
        Err(Error::LoadFailed)
    } else if (start + offset) % T::align() != 0 {
        Err(Error::Unaligned)
    } else {
        Ok(T::decode(vstd::slice::slice_subrange(mem, offset, offset + size)))
    }
}

/// A value that was loaded occupies, written back, exactly the bytes that it
/// was loaded from.
pub proof fn lemma_load_roundtrip<B: RawBuf, T: Pod>(buf: &B, offset: usize)
    requires
        buf.wf(),
    ensures
        decoded::<T>(buf.spec_load(offset, T::spec_size(), T::spec_align())) matches Ok(v)
            ==> v.spec_encode() == buf.bytes().subrange(offset as int, offset + T::spec_size()),
{
    buf.lemma_load(offset, T::spec_size(), T::spec_align());
    if let Ok(v) = decoded::<T>(buf.spec_load(offset, T::spec_size(), T::spec_align())) {
        T::lemma_roundtrip(buf.bytes().subrange(offset as int, offset + T::spec_size()), v);
    }
}

/// A value that was loaded from network byte order occupies, converted back
/// and written, exactly the bytes that it was loaded from.
pub proof fn lemma_load_be_roundtrip<B: RawBuf, T: Pod + FromBe>(buf: &B, offset: usize)
    requires
        buf.wf(),
    ensures
        decoded::<T>(buf.spec_load(offset, T::spec_size(), T::spec_align())) matches Ok(v)
            ==> v.spec_from_be().spec_from_be().spec_encode() == buf.bytes().subrange(
            offset as int,
            offset + T::spec_size(),
        ),
{
    lemma_load_roundtrip::<B, T>(buf, offset);
    if let Ok(v) = decoded::<T>(buf.spec_load(offset, T::spec_size(), T::spec_align())) {
        v.lemma_from_be_involution();
    }
}

/// A 16-bit or 32-bit value that was loaded and converted from network byte
/// order is the value that the bytes at `offset` hold most significant byte
/// first.
pub proof fn lemma_load_be_is_network_order<B: RawBuf>(buf: &B, offset: usize)
    requires
        buf.wf(),
    ensures
        decoded::<u16>(buf.spec_load(offset, 2, 2)) matches Ok(v) ==> v.spec_from_be() == be16(
            buf.bytes(),
            offset as int,
        ),
        decoded::<u32>(buf.spec_load(offset, 4, 4)) matches Ok(v) ==> v.spec_from_be() == be32(
            buf.bytes(),
            offset as int,
        ),
{
    buf.lemma_load(offset, 2, 2);
    buf.lemma_load(offset, 4, 4);
    if let Ok(v) = decoded::<u16>(buf.spec_load(offset, 2, 2)) {
        let b = buf.bytes().subrange(offset as int, offset + 2);
        assert(v == le16(b, 0));
        assert(swap16(le16(b, 0)) == be16(b, 0));
        assert(be16(b, 0) == be16(buf.bytes(), offset as int));
    }
    if let Ok(v) = decoded::<u32>(buf.spec_load(offset, 4, 4)) {
        let b = buf.bytes().subrange(offset as int, offset + 4);
        lemma_swap_is_network_order(b, 0, 0, 0);
        assert(v == le32(b, 0));
        assert(be32(b, 0) == be32(buf.bytes(), offset as int));
    }
}

/// A buffer whose bytes can be written in place.
pub trait RawBufMut: RawBuf + Sized {
    /// The whole buffer, for writing. What is written stays in the buffer,
    /// which keeps its place.
    fn as_slice_mut(&mut self) -> (r: &mut [u8])
        requires
            old(self).wf(),
        ensures
            r@ == old(self).bytes(),
            final(r)@.len() == r@.len() ==> final(self).wf() && final(self).bytes() == final(r)@
                && final(self).spec_start() == old(self).spec_start(),
    ;

    /// The address `offset` bytes past the start, for writing, if a `U` fits
    /// between it and the end of the buffer.
    fn ptr_at_mut<U: Layout>(&self, offset: usize) -> (r: Option<usize>)
        requires
            self.wf(),
        ensures
            r == spec_ptr_at(self.spec_start(), self.bytes().len(), offset, U::spec_size()),
    {
        self.ptr_at::<U>(offset)
    }

    /// The address that follows the `P` at address `prev`, for writing, if
    /// that `P` lies inside the buffer and a `U` fits behind it.
    fn ptr_after_mut<P: Layout, U: Layout>(&self, prev: usize) -> (r: Option<usize>)
        requires
            self.wf(),
        ensures
            r == spec_ptr_after(
                self.spec_start(),
                self.bytes().len(),
                prev,
                P::spec_size(),
                U::spec_size(),
            ),
    {
        self.ptr_after::<P, U>(prev)
    }

    /// The `len` bytes that start `offset` bytes into the buffer, for
    /// writing, if there are as many and `len` is not zero. What is written
    /// to them replaces those bytes of the buffer and no others.
    fn slice_at_mut(&mut self, offset: usize, len: usize) -> (r: Option<&mut [u8]>)
        requires
            old(self).wf(),
        ensures
            r is Some <==> 0 < len && offset + len <= old(self).bytes().len(),
            r matches Some(s) ==> s@ == old(self).bytes().subrange(offset as int, offset + len)
                && (final(s)@.len() == len ==> final(self).wf() && final(self).spec_start()
                == old(self).spec_start() && final(self).bytes() == splice(
                old(self).bytes(),
                offset as int,
                final(s)@,
            )),
            r is None ==> *final(self) == *old(self),
    {
        let total: usize = self.len();
        if len == 0 || offset > total || len > total - offset {
            None
        } else {
            let whole = self.as_slice_mut();
            let (head, rest) = whole.split_at_mut(offset);
            let (mid, tail) = rest.split_at_mut(len);
            proof {
                assert(mid@ =~= old(self).bytes().subrange(offset as int, offset + len));
                assert(final(mid)@.len() == len ==> head@ + (final(mid)@ + tail@) =~= splice(
                    old(self).bytes(),
                    offset as int,
                    final(mid)@,
                ));
            }
            Some(mid)
        }
    }
}

/// A cursor over a buffer: the buffer, borrowed for as long as the cursor
/// or what was parsed from it lives, and how much of it has been parsed.
pub struct NetBuf<'a, T: RawBuf> {
    /// The buffer that is parsed.
    pub buf: &'a mut T,
    /// The distance from the start of the buffer to where the next header
    /// or the body begins.
    pub nh_offset: usize,
}

/// What taking a header of `size` bytes at the cursor gives: the address of
/// the header and the cursor moved past it.
pub open spec fn spec_take<'a, T: RawBuf>(buf: NetBuf<'a, T>, size: nat) -> Result<
    (usize, NetBuf<'a, T>),
> {
    match spec_ptr_at(buf.spec_start(), buf.bytes().len(), buf.nh_offset, size) {
        Some(p) => if p == 0 {
            Err(Error::NullPtr)
        } else {
            Ok((p, NetBuf { buf: buf.buf, nh_offset: (buf.nh_offset + size) as usize }))
        },
        None => Err(Error::OutOfBounds),
    }
}

impl<'a, T: RawBuf> RawBuf for NetBuf<'a, T> {
    open spec fn wf(&self) -> bool {
        self.buf.wf() && self.nh_offset <= self.buf.bytes().len()
    }

    open spec fn spec_start(&self) -> usize {
        self.buf.spec_start()
    }

    open spec fn bytes(&self) -> Seq<u8> {
        self.buf.bytes()
    }

    open spec fn spec_load(&self, offset: usize, size: nat, align: nat) -> Result<Seq<u8>> {
        checked_load(self.buf.spec_start(), self.buf.bytes(), offset, size, align)
    }

    fn start(&self) -> (r: usize)
        ensures
            r == self.spec_start(),
    {
        self.buf.start()
    }

    fn end(&self) -> (r: usize)
        ensures
            r == self.spec_start() + self.bytes().len(),
    {
        self.buf.end()
    }

    fn as_slice(&self) -> (r: &[u8])
        ensures
            r@ == self.bytes(),
    {
        self.buf.as_slice()
    }

    fn load<V: Pod>(&self, offset: usize) -> (r: Result<V>)
        ensures
            r == decoded::<V>(self.spec_load(offset, V::spec_size(), V::spec_align())),
    {
        let start: usize = self.buf.start();
        proof {
            self.buf.lemma_end();
        }
        load_checked::<V>(start, self.buf.as_slice(), offset)
    }

    proof fn lemma_end(&self) {
        self.buf.lemma_end();
        assert(self.spec_start() == self.buf.spec_start() && self.bytes() == self.buf.bytes());
    }

    proof fn lemma_load(&self, offset: usize, size: nat, align: nat) {
        assert(self.spec_load(offset, size, align) == checked_load(
            self.spec_start(),
            self.bytes(),
            offset,
            size,
            align,
        ));
    }
}

impl<'a, T: RawBufMut> RawBufMut for NetBuf<'a, T> {
    fn as_slice_mut(&mut self) -> (r: &mut [u8])
        ensures
            r@ == old(self).bytes(),
            final(self).nh_offset == old(self).nh_offset,
            *final(final(self).buf) == *final(old(self).buf),
    {
        self.buf.as_slice_mut()
    }
}

impl<'a, T: RawBuf> NetBuf<'a, T> {
    /// Whether `self` is `before` with the bytes from `at` on replaced by
    /// `data`: the cursor stands where it stood, the buffer lies where it
    /// lay, and no other byte differs.
    pub open spec fn rewritten(&self, before: Self, at: int, data: Seq<u8>) -> bool {
        &&& self.wf()
        &&& self.nh_offset == before.nh_offset
        &&& self.spec_start() == before.spec_start()
        &&& self.bytes() == splice(before.bytes(), at, data)
    }

    /// The distance from the start of the buffer to where the next header
    /// or the body begins.
    pub fn offset(&self) -> (r: usize)
        ensures
            r == self.nh_offset,
    {
        self.nh_offset
    }

    /// The number of bytes in the buffer, parsed or not.
    pub fn data_len(&self) -> (r: usize)
        requires
            self.wf(),
        ensures
            r == self.bytes().len(),
    {
        self.end() - self.start()
    }

    /// The cursor itself: a cursor is its own body.
    pub fn data(self) -> (r: Self)
        ensures
            r == self,
    {
        self
    }

    /// Reads the bytes at the cursor as a `U`.
    pub fn parse_as<U: FromBytes<'a, T>>(self) -> (r: Result<U>)
        requires
            self.wf(),
        ensures
            r == U::spec_from_bytes(self),
            r matches Ok(v) ==> v.valid(),
            r is Err ==> *final(self.buf) == *old(self.buf),
    {
        U::from_bytes(self)
    }

    /// Takes a header with the layout `H` at the cursor: gives its address
    /// and the cursor moved past it. Fails with `OutOfBounds` if the header
    /// does not fit, and with `NullPtr` if its address is null.
    pub fn take<H: Layout>(self) -> (r: Result<(usize, Self)>)
        requires
            self.wf(),
        ensures
            r == spec_take(self, H::spec_size()),
            r matches Ok(t) ==> t.1.wf() && t.0 != 0 && t.0 == self.spec_start() + self.nh_offset
                && t.1.nh_offset == self.nh_offset + H::spec_size() && t.1.buf == self.buf,
            r is Err ==> *final(self.buf) == *old(self.buf),
    {
        let mut buf = self;
        proof {
            buf.lemma_end();
        }
        match buf.ptr_at::<H>(buf.nh_offset) {
            Some(p) => {
                buf.nh_offset = buf.nh_offset + H::size();
                if p == 0 {
                    Err(Error::NullPtr)
                } else {
                    Ok((p, buf))
                }
            },
            None => Err(Error::OutOfBounds),
        }
    }

    /// The byte `at` bytes into the buffer.
    pub fn get_u8(&self, at: usize) -> (r: u8)
        requires
            self.wf(),
            at < self.bytes().len(),
        ensures
            r == self.bytes()[at as int],
    {
        read_u8(self.as_slice(), at)
    }

    /// The 16-bit value that lies `at` bytes into the buffer in network
    /// byte order.
    pub fn get_be16(&self, at: usize) -> (r: u16)
        requires
            self.wf(),
            at + 2 <= self.bytes().len(),
        ensures
            r == be16(self.bytes(), at as int),
    {
        read_be16(self.as_slice(), at)
    }

    /// The 16-bit value that lies `at` bytes into the buffer least
    /// significant byte first.
    pub fn get_le16(&self, at: usize) -> (r: u16)
        requires
            self.wf(),
            at + 2 <= self.bytes().len(),
        ensures
            r == le16(self.bytes(), at as int),
    {
        read_le16(self.as_slice(), at)
    }

    /// The 32-bit value that lies `at` bytes into the buffer in network
    /// byte order.
    pub fn get_be32(&self, at: usize) -> (r: u32)
        requires
            self.wf(),
            at + 4 <= self.bytes().len(),
        ensures
            r == be32(self.bytes(), at as int),
    {
        read_be32(self.as_slice(), at)
    }
}

impl<'a, T: RawBufMut> NetBuf<'a, T> {
    /// Stores `v` `at` bytes into the buffer.
    pub fn put_u8(&mut self, at: usize, v: u8)
        requires
            old(self).wf(),
            at < old(self).bytes().len(),
        ensures
            final(self).rewritten(*old(self), at as int, seq![v]),
            *final(final(self).buf) == *final(old(self).buf),
    {
        let m = self.as_slice_mut();
        write_u8(m, at, v);
    }

    /// Stores `v` `at` bytes into the buffer in network byte order.
    pub fn put_be16(&mut self, at: usize, v: u16)
        requires
            old(self).wf(),
            at + 2 <= old(self).bytes().len(),
        ensures
            final(self).rewritten(*old(self), at as int, be16_bytes(v)),
            *final(final(self).buf) == *final(old(self).buf),
    {
        let m = self.as_slice_mut();
        write_be16(m, at, v);
    }

    /// Stores `v` `at` bytes into the buffer, least significant byte first.
    pub fn put_le16(&mut self, at: usize, v: u16)
        requires
            old(self).wf(),
            at + 2 <= old(self).bytes().len(),
        ensures
            final(self).rewritten(*old(self), at as int, le16_bytes(v)),
            *final(final(self).buf) == *final(old(self).buf),
    {
        let m = self.as_slice_mut();
        write_le16(m, at, v);
    }

    /// Stores `v` `at` bytes into the buffer in network byte order.
    pub fn put_be32(&mut self, at: usize, v: u32)
        requires
            old(self).wf(),
            at + 4 <= old(self).bytes().len(),
        ensures
            final(self).rewritten(*old(self), at as int, be32_bytes(v)),
            *final(final(self).buf) == *final(old(self).buf),
    {
        let m = self.as_slice_mut();
        write_be32(m, at, v);
    }

    /// Copies `data` over the bytes of the buffer from `at` on.
    pub fn put_bytes(&mut self, at: usize, data: &[u8])
        requires
            old(self).wf(),
            at + data@.len() <= old(self).bytes().len(),
        ensures
            final(self).rewritten(*old(self), at as int, data@),
            *final(final(self).buf) == *final(old(self).buf),
    {
        let m = self.as_slice_mut();
        write_bytes(m, at, data);
    }
}

impl<'a, T: RawBuf> FromBytes<'a, T> for NetBuf<'a, T> {
    open spec fn valid(&self) -> bool {
        self.wf()
    }

    open spec fn spec_from_bytes(buf: NetBuf<'a, T>) -> Result<Self> {
        Ok(buf)
    }

    /// A cursor read as a cursor is the cursor, not moved.
    fn from_bytes(buf: NetBuf<'a, T>) -> (r: Result<Self>)
        ensures
            r == Self::spec_from_bytes(buf),
    {
        Ok(buf)
    }
}

} // verus!
