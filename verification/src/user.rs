//! What user space needs of the XDP side: the flags with which a program is
//! attached to an interface, and a second definition of the record that
//! programs write, through which the bytes of a received event are read.

use crate::bytes::{le32, le32_bytes, lemma_le32_roundtrip};
use crate::pod::Pod;
use vstd::prelude::*;

verus! {

/// How a program is attached to an interface. Each value is one bit or a
/// union of bits.
#[derive(Debug, Clone, Copy, PartialEq, Eq, Structural)]
pub enum Flags {
    /// No bit: the kernel chooses the mode.
    Unset,
    /// Fail if a program is attached already, rather than replace it.
    UpdateIfNoExist,
    /// Run in the generic mode, which needs no support from the driver.
    SkbMode,
    /// Run in the driver.
    DrvMode,
    /// Run on the hardware of the interface.
    HwMode,
    /// The bits of the three modes together.
    Modes,
    /// All the bits that are valid.
    Mask,
}

impl Flags {
    /// The bits of the value.
    pub open spec fn spec_bits(&self) -> u32 {
        match self {
            Flags::Unset => 0,
            Flags::UpdateIfNoExist => 1,
            Flags::SkbMode => 2,
            Flags::DrvMode => 4,
            Flags::HwMode => 8,
            Flags::Modes => 14,
            Flags::Mask => 15,
        }
    }

    /// The bits of the value.
    pub fn bits(&self) -> (r: u32)
        ensures
            r == self.spec_bits(),
    {
        match self {
            Flags::Unset => 0,
            Flags::UpdateIfNoExist => 1,
            Flags::SkbMode => 2,
            Flags::DrvMode => 4,
            Flags::HwMode => 8,
            Flags::Modes => 14,
            Flags::Mask => 15,
        }
    }
}

impl Default for Flags {
    fn default() -> (r: Self)
        ensures
            r == Flags::Unset,
    {
        Flags::Unset
    }
}

/// `Modes` is the union of the three modes, `Mask` the union of all the
/// bits, and no two single flags share a bit.
pub proof fn lemma_flags()
    ensures
        Flags::Modes.spec_bits() == Flags::SkbMode.spec_bits() | Flags::DrvMode.spec_bits()
            | Flags::HwMode.spec_bits(),
        Flags::Mask.spec_bits() == Flags::UpdateIfNoExist.spec_bits() | Flags::Modes.spec_bits(),
        Flags::UpdateIfNoExist.spec_bits() & Flags::Modes.spec_bits() == 0,
        Flags::SkbMode.spec_bits() & Flags::DrvMode.spec_bits() == 0,
        Flags::SkbMode.spec_bits() & Flags::HwMode.spec_bits() == 0,
        Flags::DrvMode.spec_bits() & Flags::HwMode.spec_bits() == 0,
{
    assert(14u32 == 2u32 | 4u32 | 8u32 && 15u32 == 1u32 | 14u32 && 1u32 & 14u32 == 0 && 2u32 & 4u32
        == 0 && 2u32 & 8u32 == 0 && 4u32 & 8u32 == 0) by (bit_vector);
}

/// The record that programs write, as user space sees it: the same fields
/// in the same order and of the same widths as on the side that writes.
pub struct MapData<T> {
    /// The value of the program's own.
    pub data: T,
    /// Where in the bytes that follow the interesting part begins.
    pub offset: u32,
    /// The number of bytes of the packet that follow the record.
    pub size: u32,
    /// Marks where the bytes of the packet begin: right behind the record.
    pub payload: [u8; 0],
}

/// Whether `sample` is long enough to hold a record of a `T`.
pub open spec fn sample_fits<T: Pod>(sample: Seq<u8>) -> bool {
    sample.len() >= T::spec_size() + 8
}

/// The value of the program's own in the record at the start of `sample`.
pub open spec fn sample_data<T: Pod>(sample: Seq<u8>) -> T {
    T::spec_decode(sample.subrange(0, T::spec_size() as int))
}

/// The field `offset` of the record at the start of `sample`.
pub open spec fn sample_offset<T: Pod>(sample: Seq<u8>) -> u32 {
    le32(sample, T::spec_size() as int)
}

/// The field `size` of the record at the start of `sample`.
pub open spec fn sample_size<T: Pod>(sample: Seq<u8>) -> u32 {
    le32(sample, T::spec_size() as int + 4)
}

impl<T> MapData<T> {
    /// A record of `data` that no bytes of the packet follow.
    pub fn new(data: T) -> (r: Self)
        ensures
            r.data == data,
            r.offset == 0,
            r.size == 0,
    {
        MapData::<T>::with_payload(data, 0, 0)
    }

    /// A record of `data` that `size` bytes of the packet follow, of which
    /// those from `offset` on are of interest.
    pub fn with_payload(data: T, offset: u32, size: u32) -> (r: Self)
        ensures
            r.data == data,
            r.offset == offset,
            r.size == size,
    {
        MapData { data, payload: [], offset, size }
    }

    /// The value that the program shared.
    pub fn data(&self) -> (r: &T)
        ensures
            *r == self.data,
    {
        &self.data
    }
}

impl<T: Pod> MapData<T> {
    /// Reads the start of `sample`, the bytes of a received event, as a
    /// record. There is none if `sample` is shorter than a record.
    pub fn from_sample(sample: &[u8]) -> (r: Option<Self>)
        ensures
            r is Some <==> sample_fits::<T>(sample@),
            r matches Some(m) ==> m.data == sample_data::<T>(sample@) && m.offset
                == sample_offset::<T>(sample@) && m.size == sample_size::<T>(sample@),
    {
        let n: usize = T::size();
        if sample.len() < 8 || n > sample.len() - 8 {
            None
        } else {
            let data: T = T::decode(vstd::slice::slice_subrange(sample, 0, n));
            let offset: u32 = u32::decode(vstd::slice::slice_subrange(sample, n, n + 4));
            let size: u32 = u32::decode(vstd::slice::slice_subrange(sample, n + 4, n + 8));
            Some(MapData { data, payload: [], offset, size })
        }
    }

    /// The bytes of the packet that are of interest: those that follow the
    /// record in `sample` from `offset` up to `size`. There are none if
    /// `offset` lies behind `size`, or if `sample` holds fewer than `size`
    /// bytes behind the record.
    pub fn payload<'s>(&self, sample: &'s [u8]) -> (r: Option<&'s [u8]>)
        ensures
            r is Some <==> self.offset <= self.size && T::spec_size() + 8 + self.size
                <= sample@.len(),
            r matches Some(p) ==> p@ == sample@.subrange(
                T::spec_size() + 8 + self.offset,
                T::spec_size() + 8 + self.size,
            ),
    {
        let n: usize = T::size();
        if sample.len() < 8 || n > sample.len() - 8 {
            None
        } else {
            let rest: usize = sample.len() - 8 - n;
            if self.offset <= self.size && self.size as usize <= rest {
                Some(
                    vstd::slice::slice_subrange(
                        sample,
                        n + 8 + self.offset as usize,
                        n + 8 + self.size as usize,
                    ),
                )
            } else {
                None
            }
        }
    }
}

/// The record that a program writes is read back field for field through the
/// definition of user space, whatever bytes follow the record.
pub proof fn lemma_mirror_reads_record<T: Pod>(written: crate::xdp::MapData<T>, tail: Seq<u8>)
    ensures
        sample_fits::<T>(written.spec_record() + tail),
        sample_data::<T>(written.spec_record() + tail) == written.data,
        sample_offset::<T>(written.spec_record() + tail) == written.offset,
        sample_size::<T>(written.spec_record() + tail) == written.size,
{
    let n = T::spec_size() as int;
    let d = written.data.spec_encode();
    let o = le32_bytes(written.offset);
    let s = le32_bytes(written.size);
    let sample = written.spec_record() + tail;
    T::lemma_roundtrip(Seq::empty(), written.data);
    lemma_le32_roundtrip(o, 0, written.offset);
    lemma_le32_roundtrip(s, 0, written.size);
    assert(sample.subrange(0, n) =~= d);
    assert(forall|i: int| 0 <= i < 4 ==> sample[n + i] == o[i]);
    assert(forall|i: int| 0 <= i < 4 ==> sample[n + 4 + i] == s[i]);
}

} // verus!
