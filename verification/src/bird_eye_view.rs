//! The bird-eye-view transform accelerator: an input image, a remapping
//! table and an output image, each in its own DMA region, driven by the
//! shared start/done/idle/ready control vocabulary.

use vstd::prelude::*;

use crate::errors::Error;
use crate::hwinfo::HwIdentity;
use crate::regio::{spec_addr_lo, DmaBuffer, RegWrite, RegisterWindow};

verus! {

/// Control register.
pub const BEV_REG_CTRL: usize = 0x00;

/// Physical address of the input image.
pub const BEV_REG_IMG_IN: usize = 0x18;

/// Physical address of the remapping table.
pub const BEV_REG_IMG_MAP: usize = 0x24;

/// Physical address of the output image.
pub const BEV_REG_IMG_OUT: usize = 0x30;

/// How many 32-bit words of register window the block needs.
pub const BEV_WINDOW_WORDS: usize = 13;

/// The index of the input-image buffer.
pub const BEV_BUF_IN: usize = 0;

/// The index of the remapping-table buffer.
pub const BEV_BUF_MAP: usize = 1;

/// The index of the output-image buffer.
pub const BEV_BUF_OUT: usize = 2;

/// The bird-eye-view transform accelerator.
#[derive(Debug)]
pub struct BirdEyeViewHW {
    /// The register window the block programs; the runner deposits device
    /// registers here and drains the programmed writes.
    pub window: RegisterWindow,
    /// Input image, remapping table and output image, in that order.
    pub buffers: Vec<DmaBuffer>,
    /// Width of the transformed image in pixels.
    pub max_width: u32,
    /// Height of the transformed image in lines.
    pub max_height: u32,
}

impl BirdEyeViewHW {
    /// The driver's invariant: a large enough window, the three regions,
    /// and an image size the word arithmetic can take.
    pub open spec fn wf(&self) -> bool {
        &&& self.window.image().len() >= BEV_WINDOW_WORDS
        &&& self.buffers@.len() == 3
        &&& self.max_width == 1280
        &&& self.max_height == 720
    }

    /// Bind the driver to a `bird_eye_view` block: the identity may come
    /// from either the packaged-IP or the high-level-synthesis library.
    pub fn new(id: &HwIdentity, window: RegisterWindow, buffers: Vec<DmaBuffer>) -> (r: Result<
        Self,
        Error,
    >)
        ensures
            match r {
                Ok(d) => {
                    &&& id.vendor@ == "xilinx.com"@ && (id.library@ == "ip"@ || id.library@
                        == "hls"@) && id.name@ == "bird_eye_view"@
                    &&& buffers@.len() == 3
                    &&& window.image().len() >= BEV_WINDOW_WORDS
                    &&& d.wf()
                    &&& d.window == window
                    &&& d.buffers == buffers
                },
                Err(Error::UnsupportedIp) => !(id.vendor@ == "xilinx.com"@ && (id.library@
                    == "ip"@ || id.library@ == "hls"@) && id.name@ == "bird_eye_view"@),
                Err(Error::Resource) => {
                    &&& id.vendor@ == "xilinx.com"@ && (id.library@ == "ip"@ || id.library@
                        == "hls"@) && id.name@ == "bird_eye_view"@
                    &&& (buffers@.len() != 3 || window.image().len() < BEV_WINDOW_WORDS)
                },
                Err(_) => false,
            },
    {
        if !(id.matches("xilinx.com", "ip", "bird_eye_view") || id.matches(
            "xilinx.com",
            "hls",
            "bird_eye_view",
        )) {
            return Err(Error::UnsupportedIp);
        }
        if buffers.len() != 3 || window.word_len() < BEV_WINDOW_WORDS {
            return Err(Error::Resource);
        }
        Ok(BirdEyeViewHW { window, buffers, max_width: 1280, max_height: 720 })
    }

    /// The image geometry and buffers, unchanged by register operations.
    pub open spec fn same_cfg(a: Self, b: Self) -> bool {
        &&& a.max_width == b.max_width
        &&& a.max_height == b.max_height
        &&& a.buffers@ == b.buffers@
    }

    /// Whether the block reports that it is transforming.
    pub fn is_running(&self) -> (r: bool)
        requires
            self.wf(),
        ensures
            r == (self.window.image()[BEV_REG_CTRL as int / 4] & 1 == 1),
    {
        self.window.read32(BEV_REG_CTRL) & 1 == 1
    }

    /// Whether the block reports the done bit.
    pub fn is_done(&self) -> (r: bool)
        requires
            self.wf(),
        ensures
            r == (self.window.image()[BEV_REG_CTRL as int / 4] & 2 == 2),
    {
        self.window.read32(BEV_REG_CTRL) & 2 == 2
    }

    /// Whether the block reports the idle bit.
    pub fn is_idle(&self) -> (r: bool)
        requires
            self.wf(),
        ensures
            r == (self.window.image()[BEV_REG_CTRL as int / 4] & 4 == 4),
    {
        self.window.read32(BEV_REG_CTRL) & 4 == 4
    }

    /// Whether the block reports the ready bit.
    pub fn is_ready(&self) -> (r: bool)
        requires
            self.wf(),
        ensures
            r == (self.window.image()[BEV_REG_CTRL as int / 4] & 8 == 8),
    {
        self.window.read32(BEV_REG_CTRL) & 8 == 8
    }

    /// Whether the persistent auto-restart bit is set.
    pub fn get_auto_restart_enable(&self) -> (r: bool)
        requires
            self.wf(),
        ensures
            r == (self.window.image()[BEV_REG_CTRL as int / 4] & 0x20 == 0x20),
    {
        self.window.read32(BEV_REG_CTRL) & 0x20 == 0x20
    }

    /// Program the persistent auto-restart bit.
    pub fn set_auto_restart_enable(&mut self, en: bool)
        requires
            old(self).wf(),
        ensures
            final(self).wf(),
            Self::same_cfg(*old(self), *final(self)),
            final(self).window.writes() == old(self).window.writes().push(
                RegWrite { offset: BEV_REG_CTRL, value: if en { 0x20 } else { 0 } },
            ),
            final(self).window.image() == old(self).window.image().update(
                BEV_REG_CTRL as int / 4,
                if en {
                    0x20u32
                } else {
                    0u32
                },
            ),
    {
        let reg: u32 = if en {
            0x20
        } else {
            0
        };
        self.window.write32(BEV_REG_CTRL, reg);
    }

    /// Strobe the start bit for a single transform.
    pub fn start_once(&mut self) -> (r: Result<(), Error>)
        requires
            old(self).wf(),
        ensures
            final(self).wf(),
            Self::same_cfg(*old(self), *final(self)),
            r is Ok,
            final(self).window.writes() == old(self).window.writes().push(
                RegWrite { offset: BEV_REG_CTRL, value: 1 },
            ),
    {
        self.window.write32(BEV_REG_CTRL, 0x01);
        Ok(())
    }

    /// Program the input-image address register.
    pub fn set_img_in_addr(&mut self) -> (r: Result<(), Error>)
        requires
            old(self).wf(),
        ensures
            final(self).wf(),
            Self::same_cfg(*old(self), *final(self)),
            r is Ok,
            final(self).window.writes() == old(self).window.writes().push(
                RegWrite {
                    offset: BEV_REG_IMG_IN,
                    value: spec_addr_lo(old(self).buffers@[BEV_BUF_IN as int].spec_phys_addr()),
                },
            ),
    {
        let a = (self.buffers[BEV_BUF_IN].phys_addr() as u64 % 0x1_0000_0000) as u32;
        self.window.write32(BEV_REG_IMG_IN, a);
        Ok(())
    }

    /// Program the remapping-table address register.
    pub fn set_img_map_addr(&mut self) -> (r: Result<(), Error>)
        requires
            old(self).wf(),
        ensures
            final(self).wf(),
            Self::same_cfg(*old(self), *final(self)),
            r is Ok,
            final(self).window.writes() == old(self).window.writes().push(
                RegWrite {
                    offset: BEV_REG_IMG_MAP,
                    value: spec_addr_lo(
                        old(self).buffers@[BEV_BUF_MAP as int].spec_phys_addr(),
                    ),
                },
            ),
    {
        let a = (self.buffers[BEV_BUF_MAP].phys_addr() as u64 % 0x1_0000_0000) as u32;
        self.window.write32(BEV_REG_IMG_MAP, a);
        Ok(())
    }

    /// Program the output-image address register.
    pub fn set_img_out_addr(&mut self) -> (r: Result<(), Error>)
        requires
            old(self).wf(),
        ensures
            final(self).wf(),
            Self::same_cfg(*old(self), *final(self)),
            r is Ok,
            final(self).window.writes() == old(self).window.writes().push(
                RegWrite {
                    offset: BEV_REG_IMG_OUT,
                    value: spec_addr_lo(
                        old(self).buffers@[BEV_BUF_OUT as int].spec_phys_addr(),
                    ),
                },
            ),
    {
        let a = (self.buffers[BEV_BUF_OUT].phys_addr() as u64 % 0x1_0000_0000) as u32;
        self.window.write32(BEV_REG_IMG_OUT, a);
        Ok(())
    }

    /// Copy an input image into the input region as little-endian words;
    /// an image beyond the region's capacity changes nothing.
    pub fn write_img_in(&mut self, img_in: &[u32]) -> (r: Result<(), Error>)
        requires
            old(self).wf(),
        ensures
            final(self).wf(),
            final(self).window == old(self).window,
            final(self).buffers@.len() == 3,
            final(self).buffers@[BEV_BUF_MAP as int] == old(self).buffers@[BEV_BUF_MAP
                as int],
            final(self).buffers@[BEV_BUF_OUT as int] == old(self).buffers@[BEV_BUF_OUT
                as int],
            match r {
                Ok(()) => {
                    &&& 4 * img_in@.len() <= old(self).buffers@[BEV_BUF_IN
                        as int].contents().len()
                    &&& forall|i: int|
                        0 <= i < img_in@.len() ==> crate::regio::DmaBuffer::word_at(
                            final(self).buffers@[BEV_BUF_IN as int].contents(),
                            i,
                        ) == img_in@[i]
                },
                Err(e) => {
                    &&& e == Error::Resource
                    &&& 4 * img_in@.len() > old(self).buffers@[BEV_BUF_IN
                        as int].contents().len()
                    &&& final(self).buffers@ =~= old(self).buffers@
                },
            },
    {
        let res = {
            let buf = &mut self.buffers[BEV_BUF_IN];
            buf.copy_words_from(0, img_in)
        };
        match res {
            Ok(()) => Ok(()),
            Err(e) => {
                proof {
                    assert(self.buffers@ =~= old(self).buffers@);
                }
                Err(e)
            },
        }
    }

    /// Copy a remapping table into the table region as little-endian
    /// words.
    pub fn write_img_map(&mut self, img_map: &[u32]) -> (r: Result<(), Error>)
        requires
            old(self).wf(),
        ensures
            final(self).wf(),
            final(self).window == old(self).window,
            final(self).buffers@.len() == 3,
            final(self).buffers@[BEV_BUF_IN as int] == old(self).buffers@[BEV_BUF_IN as int],
            final(self).buffers@[BEV_BUF_OUT as int] == old(self).buffers@[BEV_BUF_OUT
                as int],
            match r {
                Ok(()) => {
                    &&& 4 * img_map@.len() <= old(self).buffers@[BEV_BUF_MAP
                        as int].contents().len()
                    &&& forall|i: int|
                        0 <= i < img_map@.len() ==> crate::regio::DmaBuffer::word_at(
                            final(self).buffers@[BEV_BUF_MAP as int].contents(),
                            i,
                        ) == img_map@[i]
                },
                Err(e) => {
                    &&& e == Error::Resource
                    &&& 4 * img_map@.len() > old(self).buffers@[BEV_BUF_MAP
                        as int].contents().len()
                    &&& final(self).buffers@ =~= old(self).buffers@
                },
            },
    {
        let res = {
            let buf = &mut self.buffers[BEV_BUF_MAP];
            buf.copy_words_from(0, img_map)
        };
        match res {
            Ok(()) => Ok(()),
            Err(e) => {
                proof {
                    assert(self.buffers@ =~= old(self).buffers@);
                }
                Err(e)
            },
        }
    }

    /// Read the transformed image out of the output region, one
    /// little-endian word per pixel.
    pub fn read_img_out(&mut self) -> (r: Result<Vec<u32>, Error>)
        requires
            old(self).wf(),
        ensures
            final(self).wf(),
            *final(self) == *old(self),
            match r {
                Ok(v) => {
                    &&& 4 * (old(self).max_width * old(self).max_height) <= old(
                        self,
                    ).buffers@[BEV_BUF_OUT as int].contents().len()
                    &&& v@.len() == old(self).max_width * old(self).max_height
                    &&& forall|i: int|
                        0 <= i < v@.len() ==> v@[i] == crate::regio::DmaBuffer::word_at(
                            old(self).buffers@[BEV_BUF_OUT as int].contents(),
                            i,
                        )
                },
                Err(e) => {
                    &&& e == Error::Resource
                    &&& 4 * (old(self).max_width * old(self).max_height) > old(
                        self,
                    ).buffers@[BEV_BUF_OUT as int].contents().len()
                },
            },
    {
        let n: usize = (self.max_width as usize) * (self.max_height as usize);
        let cap = self.buffers[BEV_BUF_OUT].size();
        if cap < 4 || n > (cap - 4) / 4 + 1 || 4 * n > cap {
            return Err(Error::Resource);
        }
        let mut out: Vec<u32> = Vec::new();
        let mut i: usize = 0;
        while i < n
            invariant
                old(self).wf(),
                *self == *old(self),
                n == self.max_width * self.max_height,
                4 * n <= self.buffers@[BEV_BUF_OUT as int].contents().len(),
                i <= n,
                out@.len() == i,
                forall|j: int|
                    0 <= j < i ==> out@[j] == crate::regio::DmaBuffer::word_at(
                        self.buffers@[BEV_BUF_OUT as int].contents(),
                        j,
                    ),
            decreases n - i,
        {
            let w = match self.buffers[BEV_BUF_OUT].read_word(i) {
                Ok(w) => w,
                Err(_) => {
                    proof {
                        assert(false);
                    }
                    return Err(Error::Resource);
                },
            };
            out.push(w);
            i = i + 1;
        }
        Ok(out)
    }
}

} // verus!
