//! The register-window and DMA-buffer capabilities every driver is built on.
//!
//! A peripheral's register block is modelled as a word array, the
//! [`RegisterWindow`]: `write32` updates the array and records the write in
//! an ordered log, `read32` returns the current array entry.  The runner that
//! owns the actual memory mapping drains the log with [`RegisterWindow::take_writes`]
//! and forwards each entry to the device in order; values it reads back from
//! the device are placed into the window with [`RegisterWindow::deposit`]
//! before the driver inspects status.  A simulated device for tests is the
//! same thing: deposit status words, then check what the driver wrote.
//!
//! A [`DmaBuffer`] stands for a contiguous region shared with the hardware:
//! byte contents plus the stable physical address the device is programmed
//! with.  All copies are bounds-checked against the capacity.

use vstd::prelude::*;

use crate::errors::Error;

verus! {

/// One programmed register write: a byte offset and the 32-bit value.
#[derive(Clone, Copy, Debug, PartialEq, Eq, Structural)]
pub struct RegWrite {
    pub offset: usize,
    pub value: u32,
}

/// The software image of a peripheral's register block.
#[derive(Debug)]
pub struct RegisterWindow {
    regs: Vec<u32>,
    log: Vec<RegWrite>,
}

impl RegisterWindow {
    /// The current register image, one entry per 32-bit word.
    pub closed spec fn image(&self) -> Seq<u32> {
        self.regs@
    }

    /// The programmed writes not yet drained by the runner, oldest first.
    pub closed spec fn writes(&self) -> Seq<RegWrite> {
        self.log@
    }

    /// A byte offset that addresses a word of this window.
    pub open spec fn valid_offset(&self, offset: usize) -> bool {
        offset % 4 == 0 && offset / 4 < self.image().len()
    }

    /// A window of `size_bytes / 4` words, all zero, with an empty log.
    pub fn new(size_bytes: usize) -> (r: Self)
        ensures
            r.image() == Seq::<u32>::new((size_bytes / 4) as nat, |i: int| 0u32),
            r.writes() === Seq::<RegWrite>::empty(),
    {
        let regs: Vec<u32> = vec![0u32; size_bytes / 4];
        proof {
            assert(regs@ =~= Seq::<u32>::new((size_bytes / 4) as nat, |i: int| 0u32));
        }
        RegisterWindow { regs, log: Vec::new() }
    }

    /// How many 32-bit words the window holds.
    pub fn word_len(&self) -> (r: usize)
        ensures
            r == self.image().len(),
    {
        self.regs.len()
    }

    /// Read the word at a byte offset.
    pub fn read32(&self, offset: usize) -> (r: u32)
        requires
            self.valid_offset(offset),
        ensures
            r == self.image()[offset as int / 4],
    {
        self.regs[offset / 4]
    }

    /// Program the word at a byte offset: the image is updated and the
    /// write is appended to the log.
    pub fn write32(&mut self, offset: usize, value: u32)
        requires
            old(self).valid_offset(offset),
        ensures
            final(self).image() == old(self).image().update(offset as int / 4, value),
            final(self).writes() == old(self).writes().push(RegWrite { offset, value }),
    {
        self.regs[offset / 4] = value;
        self.log.push(RegWrite { offset, value });
    }

    /// Program the word at a byte offset with a signed value, kept bit for
    /// bit in two's complement.
    pub fn write32i(&mut self, offset: usize, value: i32)
        requires
            old(self).valid_offset(offset),
        ensures
            final(self).image() == old(self).image().update(
                offset as int / 4,
                value as u32,
            ),
            final(self).writes() == old(self).writes().push(
                RegWrite { offset, value: value as u32 },
            ),
    {
        self.write32(offset, value as u32);
    }

    /// Read the word at a byte offset as a signed value.
    pub fn read32i(&self, offset: usize) -> (r: i32)
        requires
            self.valid_offset(offset),
        ensures
            r == self.image()[offset as int / 4] as i32,
    {
        self.read32(offset) as i32
    }

    /// Place a value read from the device into the image without logging
    /// it: this is the runner's (or a simulated device's) side of the window.
    pub fn deposit(&mut self, offset: usize, value: u32)
        requires
            old(self).valid_offset(offset),
        ensures
            final(self).image() == old(self).image().update(offset as int / 4, value),
            final(self).writes() == old(self).writes(),
    {
        self.regs[offset / 4] = value;
    }

    /// Drain the log: the runner forwards the returned writes to the device
    /// in order.
    pub fn take_writes(&mut self) -> (r: Vec<RegWrite>)
        ensures
            r@ == old(self).writes(),
            final(self).writes() === Seq::<RegWrite>::empty(),
            final(self).image() == old(self).image(),
    {
        let mut drained: Vec<RegWrite> = Vec::new();
        core::mem::swap(&mut self.log, &mut drained);
        drained
    }
}

/// The low 32 bits of a physical address, as the address registers take
/// them.
pub open spec fn spec_addr_lo(a: usize) -> u32 {
    (a as int % 0x1_0000_0000) as u32
}

/// A contiguous memory region shared with the hardware: software-visible
/// contents plus the physical address the device is programmed with.
#[derive(Debug)]
pub struct DmaBuffer {
    bytes: Vec<u8>,
    phys: usize,
}

impl DmaBuffer {
    /// The software-visible contents of the region.
    pub closed spec fn contents(&self) -> Seq<u8> {
        self.bytes@
    }

    /// The physical address of the region's first byte.
    pub closed spec fn spec_phys_addr(&self) -> usize {
        self.phys
    }

    /// A zero-filled buffer of `size` bytes at physical address `phys`.
    pub fn new(size: usize, phys: usize) -> (r: Self)
        ensures
            r.contents() == Seq::<u8>::new(size as nat, |i: int| 0u8),
            r.spec_phys_addr() == phys,
    {
        let bytes: Vec<u8> = vec![0u8; size];
        proof {
            assert(bytes@ =~= Seq::<u8>::new(size as nat, |i: int| 0u8));
        }
        DmaBuffer { bytes, phys }
    }

    /// The physical address of the region's first byte.
    pub fn phys_addr(&self) -> (r: usize)
        ensures
            r == self.spec_phys_addr(),
    {
        self.phys
    }

    /// The capacity of the region in bytes.
    pub fn size(&self) -> (r: usize)
        ensures
            r == self.contents().len(),
    {
        self.bytes.len()
    }

    /// Copy `data` into the buffer starting at `offset`; fails without any
    /// change when the copy would run past the end of the region.
    pub fn copy_from(&mut self, offset: usize, data: &[u8]) -> (r: Result<(), Error>)
        ensures
            match r {
                Ok(()) => {
                    &&& offset + data@.len() <= old(self).contents().len()
                    &&& final(self).contents().len() == old(self).contents().len()
                    &&& forall|i: int|
                        0 <= i < data@.len() ==> final(self).contents()[offset + i] == data@[i]
                    &&& forall|i: int|
                        0 <= i < old(self).contents().len() && !(offset <= i < offset
                            + data@.len()) ==> final(self).contents()[i] == old(
                            self,
                        ).contents()[i]
                },
                Err(e) => {
                    &&& e == Error::Resource
                    &&& offset + data@.len() > old(self).contents().len()
                    &&& *final(self) == *old(self)
                },
            },
            final(self).spec_phys_addr() == old(self).spec_phys_addr(),
    {
        let cap = self.bytes.len();
        if data.len() > cap || offset > cap - data.len() {
            return Err(Error::Resource);
        }
        let mut i: usize = 0;
        while i < data.len()
            invariant
                i <= data@.len(),
                offset + data@.len() <= self.bytes@.len() <= usize::MAX,
                self.bytes@.len() == old(self).contents().len(),
                self.phys == old(self).spec_phys_addr(),
                forall|j: int| 0 <= j < i ==> self.bytes@[offset + j] == data@[j],
                forall|j: int|
                    0 <= j < self.bytes@.len() && !(offset <= j < offset + i)
                        ==> self.bytes@[j] == old(self).contents()[j],
            decreases data@.len() - i,
        {
            self.bytes[offset + i] = data[i];
            i = i + 1;
        }
        Ok(())
    }

    /// Copy `len` bytes out of the buffer starting at `offset`; fails when
    /// the range runs past the end of the region.
    pub fn copy_to(&self, offset: usize, len: usize) -> (r: Result<Vec<u8>, Error>)
        ensures
            match r {
                Ok(v) => {
                    &&& offset + len <= self.contents().len()
                    &&& v@ == self.contents().subrange(offset as int, offset + len)
                },
                Err(e) => {
                    &&& e == Error::Resource
                    &&& offset + len > self.contents().len()
                },
            },
    {
        let cap = self.bytes.len();
        if len > cap || offset > cap - len {
            return Err(Error::Resource);
        }
        let mut out: Vec<u8> = Vec::new();
        let mut i: usize = 0;
        while i < len
            invariant
                i <= len,
                offset + len <= self.bytes@.len() <= usize::MAX,
                out@ == self.contents().subrange(offset as int, offset + i),
            decreases len - i,
        {
            out.push(self.bytes[offset + i]);
            proof {
                assert(out@ =~= self.contents().subrange(offset as int, offset + i + 1));
            }
            i = i + 1;
        }
        Ok(out)
    }

    /// The little-endian 32-bit word assembled from four bytes of a region.
    pub open spec fn word_at(bytes: Seq<u8>, index: int) -> u32 {
        (bytes[4 * index] + bytes[4 * index + 1] * 0x100 + bytes[4 * index + 2] * 0x1_0000
            + bytes[4 * index + 3] * 0x100_0000) as u32
    }

    /// Read the `index`-th little-endian 32-bit word of the buffer; fails
    /// when the word lies past the end of the region.
    pub fn read_word(&self, index: usize) -> (r: Result<u32, Error>)
        ensures
            match r {
                Ok(w) => {
                    &&& 4 * index + 4 <= self.contents().len()
                    &&& w == Self::word_at(self.contents(), index as int)
                },
                Err(e) => {
                    &&& e == Error::Resource
                    &&& 4 * index + 4 > self.contents().len()
                },
            },
    {
        let cap = self.bytes.len();
        if cap < 4 || index > (cap - 4) / 4 {
            return Err(Error::Resource);
        }
        let b0 = self.bytes[4 * index] as u32;
        let b1 = self.bytes[4 * index + 1] as u32;
        let b2 = self.bytes[4 * index + 2] as u32;
        let b3 = self.bytes[4 * index + 3] as u32;
        Ok(b0 + b1 * 0x100 + b2 * 0x1_0000 + b3 * 0x100_0000)
    }

    /// Write `data` as consecutive little-endian 32-bit words starting at
    /// word `word_offset`; fails without any change when the words would
    /// run past the end of the region.
    pub fn copy_words_from(&mut self, word_offset: usize, data: &[u32]) -> (r: Result<
        (),
        Error,
    >)
        ensures
            match r {
                Ok(()) => {
                    &&& 4 * (word_offset + data@.len()) <= old(self).contents().len()
                    &&& final(self).contents().len() == old(self).contents().len()
                    &&& forall|i: int|
                        0 <= i < data@.len() ==> Self::word_at(
                            final(self).contents(),
                            word_offset + i,
                        ) == data@[i]
                    &&& forall|i: int|
                        0 <= i < old(self).contents().len() && !(4 * word_offset <= i < 4 * (
                        word_offset + data@.len())) ==> final(self).contents()[i] == old(
                            self,
                        ).contents()[i]
                },
                Err(e) => {
                    &&& e == Error::Resource
                    &&& 4 * (word_offset + data@.len()) > old(self).contents().len()
                    &&& *final(self) == *old(self)
                },
            },
            final(self).spec_phys_addr() == old(self).spec_phys_addr(),
    {
        let cap = self.bytes.len();
        if word_offset > cap / 4 || data.len() > cap / 4 - word_offset || 4 * (word_offset
            + data.len()) > cap {
            return Err(Error::Resource);
        }
        let mut i: usize = 0;
        while i < data.len()
            invariant
                i <= data@.len(),
                4 * (word_offset + data@.len()) <= self.bytes@.len() <= usize::MAX,
                self.bytes@.len() == old(self).contents().len(),
                self.phys == old(self).spec_phys_addr(),
                forall|j: int|
                    0 <= j < i ==> Self::word_at(self.bytes@, word_offset + j) == data@[j],
                forall|j: int|
                    0 <= j < self.bytes@.len() && !(4 * word_offset <= j < 4 * word_offset + 4
                        * i) ==> self.bytes@[j] == old(self).contents()[j],
            decreases data@.len() - i,
        {
            let w = data[i];
            let base = 4 * (word_offset + i);
            let b0 = (w & 0xFF) as u8;
            let b1 = ((w >> 8) & 0xFF) as u8;
            let b2 = ((w >> 16) & 0xFF) as u8;
            let b3 = ((w >> 24) & 0xFF) as u8;
            self.bytes[base] = b0;
            self.bytes[base + 1] = b1;
            self.bytes[base + 2] = b2;
            self.bytes[base + 3] = b3;
            proof {
                assert(((w & 0xFF) as u8) + (((w >> 8) & 0xFF) as u8) * 0x100 + (((w >> 16)
                    & 0xFF) as u8) * 0x1_0000 + (((w >> 24) & 0xFF) as u8) * 0x100_0000 == w)
                    by (bit_vector);
                let bs = self.bytes@;
                let wi = word_offset + i as int;
                assert(bs[4 * wi] == b0 && bs[4 * wi + 1] == b1 && bs[4 * wi + 2] == b2 && bs[4
                    * wi + 3] == b3);
                assert(Self::word_at(bs, wi) == w);
            }
            i = i + 1;
        }
        Ok(())
    }
}

} // verus!
