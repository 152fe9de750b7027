//! The multi-buffer circular video DMA engine (memory-map-to-stream side):
//! the hardware advances an *active* frame pointer through a ring of
//! buffers as it streams; software selects the *desired* frame it will fill
//! next through the park-pointer register.
//!
//! The engine's central invariant: software never writes into the buffer
//! the hardware reports as active.  [`AxiVdmaMM2S::write_frame`] first
//! requires the frame-done bit in the status image, then guards the chosen
//! target against the active frame explicitly; see
//! [`lemma_ring_write_safe`].

use vstd::prelude::*;

use crate::errors::Error;
use crate::hwinfo::HwIdentity;
use crate::regio::{spec_addr_lo, DmaBuffer, RegWrite, RegisterWindow};
use crate::v_frmbuf::spec_stride;

verus! {

/// Control register of the memory-map-to-stream channel.
pub const MM2S_DMACR: usize = 0x00;

/// Status register of the memory-map-to-stream channel.
pub const MM2S_DMASR: usize = 0x04;

/// Park pointer: desired frame in the low bits, active frame in bits 16
/// and up.
pub const PARK_PTR_REG: usize = 0x28;

/// Vertical size in lines; writing it commits the whole frame geometry.
pub const MM2S_VSIZE: usize = 0x50;

/// Horizontal size in bytes.
pub const MM2S_HSIZE: usize = 0x54;

/// Frame-delay and stride register.
pub const MM2S_FRMDLY_STRIDE: usize = 0x58;

/// First of the sixteen frame start-address registers.
pub const MM2S_START_ADDRESS1: usize = 0x5C;

/// How many 32-bit words of register window the engine needs.
pub const VDMA_WINDOW_WORDS: usize = 44;

/// The frame-done bit of the status register.
pub const FRAME_DONE_BIT: u32 = 0x1000;

/// The desired-frame field of a park-pointer value.
pub open spec fn spec_desired_of(park: u32) -> u32 {
    park & 0x1F
}

/// The active-frame field of a park-pointer value.
pub open spec fn spec_active_of(park: u32) -> u32 {
    (park >> 16) & 0x1F
}

/// The ring slot software fills next, one past the hardware's desired
/// field, wrapping at the ring size.
pub open spec fn spec_next_target(park: u32, n: int) -> int {
    (spec_desired_of(park) + 1) % n
}

/// Whether the engine admits a frame write under this register image:
/// the hardware has finished consuming a frame, and the slot that would
/// be filled is not the one the hardware reports as active.
pub open spec fn spec_write_admitted(img: Seq<u32>, n: int) -> bool {
    &&& img[MM2S_DMASR as int / 4] & FRAME_DONE_BIT == FRAME_DONE_BIT
    &&& spec_next_target(img[PARK_PTR_REG as int / 4], n) != spec_active_of(
        img[PARK_PTR_REG as int / 4],
    )
}

/// However the hardware advances its active frame, a write the guard
/// admits targets a slot inside the ring that differs from the active
/// one — so software never overwrites the buffer being streamed.
pub proof fn lemma_ring_write_safe(img: Seq<u32>, n: int)
    requires
        0 < n < 16,
        spec_write_admitted(img, n),
    ensures
        0 <= spec_next_target(img[PARK_PTR_REG as int / 4], n) < n,
        spec_next_target(img[PARK_PTR_REG as int / 4], n) != spec_active_of(
            img[PARK_PTR_REG as int / 4],
        ),
{
    let park = img[PARK_PTR_REG as int / 4];
    assert(spec_desired_of(park) >= 0) by (bit_vector);
    assert(0 <= (spec_desired_of(park) + 1) % n < n);
}

/// The circular video DMA engine, memory-map-to-stream direction.
#[derive(Debug)]
pub struct AxiVdmaMM2S {
    /// The register window the engine programs; the runner deposits device
    /// registers here and drains the programmed writes.
    pub window: RegisterWindow,
    /// The ring of frame buffers, one per hardware frame store.
    pub buffers: Vec<DmaBuffer>,
    /// Width of the streamed frames, in pixels.
    pub frame_width: u32,
    /// Height of the streamed frames, in lines.
    pub frame_height: u32,
    /// Bytes per pixel of the streamed format.
    pub bytes_per_pix: u32,
    /// Pixels handled per clock cycle.
    pub pix_per_clk: u32,
    /// The ring slot software last selected.
    pub desired_frame: usize,
    /// How many ring slots the engine uses.
    pub frame_buffers: usize,
}

impl AxiVdmaMM2S {
    /// The driver's invariant: a large enough window, a ring of fewer than
    /// sixteen slots backed by as many buffers, and a clock ratio the
    /// stride arithmetic can take.
    pub open spec fn wf(&self) -> bool {
        &&& self.window.image().len() >= VDMA_WINDOW_WORDS
        &&& 0 < self.frame_buffers < 16
        &&& self.desired_frame < self.frame_buffers
        &&& self.buffers@.len() == self.frame_buffers
        &&& 1 <= self.pix_per_clk <= 16
    }

    /// The frame geometry, unchanged by every operation.
    pub open spec fn same_geometry(a: Self, b: Self) -> bool {
        &&& a.frame_width == b.frame_width
        &&& a.frame_height == b.frame_height
        &&& a.bytes_per_pix == b.bytes_per_pix
        &&& a.pix_per_clk == b.pix_per_clk
        &&& a.frame_buffers == b.frame_buffers
    }

    /// Bind the driver to an `axi_vdma` block.  The engine starts with the
    /// conventional three-slot ring, one buffer per slot, and the default
    /// frame geometry.
    pub fn new(id: &HwIdentity, window: RegisterWindow, buffers: Vec<DmaBuffer>) -> (r: Result<
        Self,
        Error,
    >)
        ensures
            match r {
                Ok(d) => {
                    &&& id.vendor@ == "xilinx.com"@ && id.library@ == "ip"@ && id.name@
                        == "axi_vdma"@
                    &&& buffers@.len() == 3
                    &&& window.image().len() >= VDMA_WINDOW_WORDS
                    &&& d.wf()
                    &&& d.window == window
                    &&& d.buffers == buffers
                    &&& d.frame_width == 720
                    &&& d.frame_height == 1280
                    &&& d.bytes_per_pix == 3
                    &&& d.pix_per_clk == 1
                    &&& d.desired_frame == 1
                    &&& d.frame_buffers == 3
                },
                Err(Error::UnsupportedIp) => !(id.vendor@ == "xilinx.com"@ && id.library@
                    == "ip"@ && id.name@ == "axi_vdma"@),
                Err(Error::Resource) => {
                    &&& id.vendor@ == "xilinx.com"@ && id.library@ == "ip"@ && id.name@
                        == "axi_vdma"@
                    &&& (buffers@.len() != 3 || window.image().len() < VDMA_WINDOW_WORDS)
                },
                Err(_) => false,
            },
    {
        if !id.matches("xilinx.com", "ip", "axi_vdma") {
            return Err(Error::UnsupportedIp);
        }
        if buffers.len() != 3 || window.word_len() < VDMA_WINDOW_WORDS {
            return Err(Error::Resource);
        }
        Ok(
            AxiVdmaMM2S {
                window,
                buffers,
                frame_width: 720,
                frame_height: 1280,
                bytes_per_pix: 3,
                pix_per_clk: 1,
                desired_frame: 1,
                frame_buffers: 3,
            },
        )
    }

    /// Whether the channel runs: the halted bit of the status register is
    /// clear.
    pub fn is_running(&self) -> (r: bool)
        requires
            self.wf(),
        ensures
            r == (self.window.image()[MM2S_DMASR as int / 4] & 1 == 0),
    {
        self.window.read32(MM2S_DMASR) & 1 == 0
    }

    /// Program the physical address of every ring slot into its
    /// start-address register, in slot order.
    fn write_framebuf_addr(&mut self)
        requires
            old(self).wf(),
        ensures
            final(self).wf(),
            Self::same_geometry(*old(self), *final(self)),
            final(self).desired_frame == old(self).desired_frame,
            final(self).buffers == old(self).buffers,
            final(self).window.writes() == old(self).window.writes() + Seq::new(
                old(self).frame_buffers as nat,
                |i: int|
                    RegWrite {
                        offset: (MM2S_START_ADDRESS1 + 4 * i) as usize,
                        value: spec_addr_lo(old(self).buffers@[i].spec_phys_addr()),
                    },
            ),
            final(self).window.image().len() == old(self).window.image().len(),
            forall|k: int|
                0 <= k < old(self).window.image().len() && !(MM2S_START_ADDRESS1 as int / 4
                    <= k < MM2S_START_ADDRESS1 as int / 4 + old(self).frame_buffers) ==> final(self).window.image()[k] == old(self).window.image()[k],
    {
        let ghost expected = Seq::new(
            old(self).frame_buffers as nat,
            |i: int|
                RegWrite {
                    offset: (MM2S_START_ADDRESS1 + 4 * i) as usize,
                    value: spec_addr_lo(old(self).buffers@[i].spec_phys_addr()),
                },
        );
        let mut i: usize = 0;
        proof {
            assert(old(self).window.writes() + expected.take(0) =~= old(self).window.writes());
        }
        while i < self.frame_buffers
            invariant
                old(self).wf(),
                i <= self.frame_buffers,
                Self::same_geometry(*old(self), *self),
                self.desired_frame == old(self).desired_frame,
                self.buffers == old(self).buffers,
                self.window.image().len() == old(self).window.image().len(),
                expected == Seq::new(
                    old(self).frame_buffers as nat,
                    |j: int|
                        RegWrite {
                            offset: (MM2S_START_ADDRESS1 + 4 * j) as usize,
                            value: spec_addr_lo(old(self).buffers@[j].spec_phys_addr()),
                        },
                ),
                self.window.writes() == old(self).window.writes() + expected.take(i as int),
                forall|k: int|
                    0 <= k < old(self).window.image().len() && !(MM2S_START_ADDRESS1 as int / 4
                        <= k < MM2S_START_ADDRESS1 as int / 4 + i) ==> self.window.image()[k]
                        == old(self).window.image()[k],
            decreases self.frame_buffers - i,
        {
            let a = (self.buffers[i].phys_addr() as u64 % 0x1_0000_0000) as u32;
            self.window.write32(MM2S_START_ADDRESS1 + 4 * i, a);
            proof {
                assert(self.window.writes() =~= old(self).window.writes() + expected.take(
                    i + 1,
                ));
            }
            i = i + 1;
        }
        proof {
            assert(expected.take(old(self).frame_buffers as int) =~= expected);
        }
    }

    /// Program the horizontal size and the stride, keeping the frame-delay
    /// field of the stride register.  The row must fit the stride
    /// arithmetic; nothing is written otherwise.
    pub fn write_format(&mut self) -> (r: Result<(), Error>)
        requires
            old(self).wf(),
        ensures
            final(self).wf(),
            Self::same_geometry(*old(self), *final(self)),
            final(self).desired_frame == old(self).desired_frame,
            final(self).buffers == old(self).buffers,
            match r {
                Ok(()) => {
                    &&& old(self).frame_width * old(self).bytes_per_pix <= 0x0FFF_FFFF
                    &&& final(self).window.writes() == old(self).window.writes() + old(self).spec_format_writes()
                },
                Err(e) => {
                    &&& e == Error::Protocol
                    &&& old(self).frame_width * old(self).bytes_per_pix > 0x0FFF_FFFF
                    &&& *final(self) == *old(self)
                },
            },
    {
        proof {
            let w = self.frame_width as int;
            let b = self.bytes_per_pix as int;
            assert(w * b <= 0xFFFF_FFFF * 0xFFFF_FFFF) by (nonlinear_arith)
                requires
                    0 <= w <= 0xFFFF_FFFF,
                    0 <= b <= 0xFFFF_FFFF,
            ;
        }
        let wb64 = self.frame_width as u64 * self.bytes_per_pix as u64;
        if wb64 > 0x0FFF_FFFF {
            return Err(Error::Protocol);
        }
        let width_bytes = wb64 as u32;
        let mmap_width = self.pix_per_clk * 8;
        let stride = crate::v_frmbuf::stride_bytes(width_bytes, mmap_width);
        self.window.write32(MM2S_HSIZE, width_bytes);
        let reg = self.window.read32(MM2S_FRMDLY_STRIDE) & 0x0F00_0000;
        self.window.write32(MM2S_FRMDLY_STRIDE, reg | stride);
        proof {
            assert(final(self).window.writes() =~= old(self).window.writes() + old(self).spec_format_writes());
        }
        Ok(())
    }

    /// The write sequence that programs the geometry: horizontal size,
    /// then the stride merged into the kept frame-delay field.
    pub open spec fn spec_format_writes(&self) -> Seq<RegWrite> {
        seq![
            RegWrite {
                offset: MM2S_HSIZE,
                value: (self.frame_width * self.bytes_per_pix) as u32,
            },
            RegWrite {
                offset: MM2S_FRMDLY_STRIDE,
                value: (self.window.image()[MM2S_FRMDLY_STRIDE as int / 4] & 0x0F00_0000) | (
                spec_stride(
                    self.frame_width * self.bytes_per_pix,
                    self.pix_per_clk * 8,
                ) as u32),
            },
        ]
    }

    /// Commit the frame geometry by writing the vertical size.  The
    /// hardware latches the whole geometry on this write, so it must
    /// follow every desired-frame change.
    pub fn reload(&mut self)
        requires
            old(self).wf(),
        ensures
            final(self).wf(),
            Self::same_geometry(*old(self), *final(self)),
            final(self).desired_frame == old(self).desired_frame,
            final(self).buffers == old(self).buffers,
            final(self).window.writes() == old(self).window.writes().push(
                RegWrite { offset: MM2S_VSIZE, value: old(self).frame_height },
            ),
            final(self).window.image() == old(self).window.image().update(
                MM2S_VSIZE as int / 4,
                old(self).frame_height,
            ),
    {
        self.window.write32(MM2S_VSIZE, self.frame_height);
    }

    /// Ask the channel to halt, keeping the configuration bits.  The
    /// status image must already show the channel halted; otherwise the
    /// caller forwards the write, lets the device drain, refreshes the
    /// image and calls again.
    pub fn stop(&mut self) -> (r: Result<(), Error>)
        requires
            old(self).wf(),
        ensures
            final(self).wf(),
            Self::same_geometry(*old(self), *final(self)),
            final(self).desired_frame == old(self).desired_frame,
            final(self).buffers == old(self).buffers,
            final(self).window.writes() == old(self).window.writes().push(
                RegWrite { offset: MM2S_DMACR, value: 0x0001_1080 },
            ),
            final(self).window.image() == old(self).window.image().update(
                MM2S_DMACR as int / 4,
                0x0001_1080u32,
            ),
            match r {
                Ok(()) => old(self).window.image()[MM2S_DMASR as int / 4] & 1 != 0,
                Err(e) => {
                    &&& e == Error::Timeout
                    &&& old(self).window.image()[MM2S_DMASR as int / 4] & 1 == 0
                },
            },
    {
        self.window.write32(MM2S_DMACR, 0x0001_1080);
        if self.window.read32(MM2S_DMASR) & 1 == 0 {
            Err(Error::Timeout)
        } else {
            Ok(())
        }
    }

    /// Halt the channel and assert the soft-reset bit.  The runner
    /// forwards the writes, polls the device until the bit self-clears,
    /// refreshes the image, and finishes with [`Self::finish_reset`].
    pub fn reset(&mut self) -> (r: Result<(), Error>)
        requires
            old(self).wf(),
        ensures
            final(self).wf(),
            Self::same_geometry(*old(self), *final(self)),
            final(self).desired_frame == old(self).desired_frame,
            final(self).buffers == old(self).buffers,
            match r {
                Ok(()) => {
                    &&& old(self).window.image()[MM2S_DMASR as int / 4] & 1 != 0
                    &&& final(self).window.writes() == old(self).window.writes() + seq![
                        RegWrite { offset: MM2S_DMACR, value: 0x0001_1080 },
                        RegWrite { offset: MM2S_DMACR, value: 0x0001_1084 },
                    ]
                },
                Err(e) => {
                    &&& e == Error::Timeout
                    &&& old(self).window.image()[MM2S_DMASR as int / 4] & 1 == 0
                    &&& final(self).window.writes() == old(self).window.writes().push(
                        RegWrite { offset: MM2S_DMACR, value: 0x0001_1080 },
                    )
                },
            },
    {
        self.stop()?;
        self.window.write32(MM2S_DMACR, 0x0001_1084);
        proof {
            assert(final(self).window.writes() =~= old(self).window.writes() + seq![
                RegWrite { offset: MM2S_DMACR, value: 0x0001_1080 },
                RegWrite { offset: MM2S_DMACR, value: 0x0001_1084 },
            ]);
        }
        Ok(())
    }

    /// Whether the soft-reset bit has self-cleared in the status image.
    pub fn reset_done(&self) -> (r: bool)
        requires
            self.wf(),
        ensures
            r == (self.window.image()[MM2S_DMACR as int / 4] & 4 == 0),
    {
        self.window.read32(MM2S_DMACR) & 4 == 0
    }

    /// Re-assert the control word after a completed soft reset, as the
    /// hardware expects.
    pub fn finish_reset(&mut self)
        requires
            old(self).wf(),
        ensures
            final(self).wf(),
            Self::same_geometry(*old(self), *final(self)),
            final(self).desired_frame == old(self).desired_frame,
            final(self).buffers == old(self).buffers,
            final(self).window.writes() == old(self).window.writes().push(
                RegWrite { offset: MM2S_DMACR, value: 0x0001_1084 },
            ),
    {
        self.window.write32(MM2S_DMACR, 0x0001_1084);
    }

    /// Program every buffer address and the whole geometry, then set the
    /// run and auto-restart bits — configuration strictly before start.
    /// The runner forwards the writes, waits until the channel reports
    /// running, refreshes the image, and issues the post-start
    /// [`Self::reload`].
    pub fn start(&mut self) -> (r: Result<(), Error>)
        requires
            old(self).wf(),
        ensures
            final(self).wf(),
            Self::same_geometry(*old(self), *final(self)),
            final(self).desired_frame == old(self).desired_frame,
            final(self).buffers == old(self).buffers,
            match r {
                Ok(()) => {
                    &&& old(self).frame_width * old(self).bytes_per_pix <= 0x0FFF_FFFF
                    &&& final(self).window.writes() == old(self).window.writes() + Seq::new(
                        old(self).frame_buffers as nat,
                        |i: int|
                            RegWrite {
                                offset: (MM2S_START_ADDRESS1 + 4 * i) as usize,
                                value: spec_addr_lo(old(self).buffers@[i].spec_phys_addr()),
                            },
                    ) + old(self).spec_format_writes() + seq![
                        RegWrite { offset: MM2S_VSIZE, value: old(self).frame_height },
                        RegWrite { offset: MM2S_DMACR, value: 0x0001_1089 },
                    ]
                },
                Err(e) => {
                    &&& e == Error::Protocol
                    &&& old(self).frame_width * old(self).bytes_per_pix > 0x0FFF_FFFF
                    &&& final(self).window.writes() == old(self).window.writes() + Seq::new(
                        old(self).frame_buffers as nat,
                        |i: int|
                            RegWrite {
                                offset: (MM2S_START_ADDRESS1 + 4 * i) as usize,
                                value: spec_addr_lo(old(self).buffers@[i].spec_phys_addr()),
                            },
                    )
                },
            },
    {
        let ghost w0 = self.window.writes();
        self.write_framebuf_addr();
        let ghost fmt = self.spec_format_writes();
        proof {
            assert(fmt == old(self).spec_format_writes());
        }
        match self.write_format() {
            Ok(()) => {},
            Err(e) => {
                return Err(e);
            },
        }
        self.reload();
        self.window.write32(MM2S_DMACR, 0x0001_1089);
        proof {
            assert(final(self).window.writes() =~= old(self).window.writes() + Seq::new(
                old(self).frame_buffers as nat,
                |i: int|
                    RegWrite {
                        offset: (MM2S_START_ADDRESS1 + 4 * i) as usize,
                        value: spec_addr_lo(old(self).buffers@[i].spec_phys_addr()),
                    },
            ) + old(self).spec_format_writes() + seq![
                RegWrite { offset: MM2S_VSIZE, value: old(self).frame_height },
                RegWrite { offset: MM2S_DMACR, value: 0x0001_1089 },
            ]);
        }
        Ok(())
    }

    /// The ring slot software last selected, as the hardware's park
    /// pointer reports it.
    pub fn read_desired_frame(&self) -> (r: u32)
        requires
            self.wf(),
        ensures
            r == spec_desired_of(self.window.image()[PARK_PTR_REG as int / 4]),
    {
        self.window.read32(PARK_PTR_REG) & 0x1F
    }

    /// The ring slot the hardware is currently streaming.
    pub fn read_active_frame(&self) -> (r: u32)
        requires
            self.wf(),
        ensures
            r == spec_active_of(self.window.image()[PARK_PTR_REG as int / 4]),
    {
        (self.window.read32(PARK_PTR_REG) >> 16) & 0x1F
    }

    /// How many bytes one configured frame occupies.
    pub open spec fn spec_frame_bytes(&self) -> int {
        self.frame_width * self.frame_height * self.bytes_per_pix
    }

    /// Fill the next ring slot with a frame and hand it to the hardware:
    /// requires the frame-done bit in the status image, acknowledges it,
    /// advances the desired frame by one slot, refuses the write if that
    /// slot is the hardware's active frame, copies the pixels, re-commits
    /// the geometry and parks the new desired frame.
    pub fn write_frame(&mut self, frame: &[u8]) -> (r: Result<(), Error>)
        requires
            old(self).wf(),
        ensures
            final(self).wf(),
            Self::same_geometry(*old(self), *final(self)),
            match r {
                Ok(()) => {
                    let park = old(self).window.image()[PARK_PTR_REG as int / 4];
                    let target = spec_next_target(park, old(self).frame_buffers as int);
                    &&& old(self).window.image()[MM2S_DMASR as int / 4] & FRAME_DONE_BIT
                        == FRAME_DONE_BIT
                    &&& target != spec_active_of(park)
                    &&& final(self).desired_frame == target
                    &&& old(self).frame_width * old(self).frame_height <= 0x0FFF_FFFF
                    &&& old(self).frame_width * old(self).frame_height * old(self).bytes_per_pix <= 0x0FFF_FFFF
                    &&& frame@.len() >= old(self).spec_frame_bytes()
                    &&& old(self).spec_frame_bytes() <= old(self).buffers@[target].contents().len()
                    &&& final(self).buffers@.len() == old(self).buffers@.len()
                    &&& forall|i: int|
                        0 <= i < old(self).spec_frame_bytes() ==> final(self).buffers@[target].contents()[i] == frame@[i]
                    &&& forall|j: int|
                        0 <= j < old(self).buffers@.len() && j != target ==> final(self).buffers@[j] == old(self).buffers@[j]
                    &&& final(self).window.writes() == old(self).window.writes() + seq![
                        RegWrite { offset: MM2S_DMASR, value: FRAME_DONE_BIT },
                        RegWrite { offset: MM2S_VSIZE, value: old(self).frame_height },
                        RegWrite {
                            offset: PARK_PTR_REG,
                            value: (park & 0xFFFF_FFE0) | (target as u32),
                        },
                    ]
                },
                Err(e) => {
                    let park = old(self).window.image()[PARK_PTR_REG as int / 4];
                    let target = spec_next_target(park, old(self).frame_buffers as int);
                    &&& final(self).desired_frame == old(self).desired_frame
                    &&& final(self).buffers@ =~= old(self).buffers@
                    &&& final(self).window == old(self).window
                    &&& (e == Error::Timeout ==> old(self).window.image()[MM2S_DMASR as int
                        / 4] & FRAME_DONE_BIT != FRAME_DONE_BIT)
                    &&& (e == Error::Protocol ==> target == spec_active_of(park) || old(
                        self,
                    ).frame_width * old(self).frame_height > 0x0FFF_FFFF || old(
                        self,
                    ).frame_width * old(self).frame_height * old(self).bytes_per_pix
                        > 0x0FFF_FFFF)
                    &&& (e == Error::Resource ==> frame@.len() < old(self).spec_frame_bytes()
                        || old(self).spec_frame_bytes() > old(self).buffers@[target].contents().len())
                    &&& (e == Error::Timeout || e == Error::Protocol || e == Error::Resource)
                },
            },
    {
        if self.window.read32(MM2S_DMASR) & FRAME_DONE_BIT != FRAME_DONE_BIT {
            return Err(Error::Timeout);
        }
        let park = self.window.read32(PARK_PTR_REG);
        let n = self.frame_buffers as u32;
        proof {
            assert(park & 0x1F <= 0x1F) by (bit_vector);
        }
        let target = ((park & 0x1F) + 1) % n;
        let active = (park >> 16) & 0x1F;
        if target == active {
            return Err(Error::Protocol);
        }
        proof {
            let w = self.frame_width as int;
            let h = self.frame_height as int;
            let b = self.bytes_per_pix as int;
            assert(w * h <= 0xFFFF_FFFF * 0xFFFF_FFFF && (w * h <= 0x0FFF_FFFF && 0 <= b
                <= 0xFFFF_FFFF ==> w * h * b <= 0x0FFF_FFFF * 0xFFFF_FFFF))
                by (nonlinear_arith)
                requires
                    0 <= w <= 0xFFFF_FFFF,
                    0 <= h <= 0xFFFF_FFFF,
                    0 <= b <= 0xFFFF_FFFF,
            ;
        }
        let wh64 = self.frame_width as u64 * self.frame_height as u64;
        if wh64 > 0x0FFF_FFFF || wh64 * self.bytes_per_pix as u64 > 0x0FFF_FFFF {
            return Err(Error::Protocol);
        }
        let count = (wh64 * self.bytes_per_pix as u64) as usize;
        if frame.len() < count {
            return Err(Error::Resource);
        }
        proof {
            assert((park & 0x1F) < 32) by (bit_vector);
        }
        let target_idx = target as usize;
        let part = vstd::slice::slice_subrange(frame, 0, count);
        let copied = {
            let buf = &mut self.buffers[target_idx];
            buf.copy_from(0, part)
        };
        match copied {
            Ok(()) => {},
            Err(e) => {
                proof {
                    assert(self.buffers@ =~= old(self).buffers@);
                }
                return Err(e);
            },
        }
        self.window.write32(MM2S_DMASR, FRAME_DONE_BIT);
        self.desired_frame = target_idx;
        self.reload();
        let parked = (park & 0xFFFF_FFE0) | target;
        self.window.write32(PARK_PTR_REG, parked);
        proof {
            assert(final(self).window.writes() =~= old(self).window.writes() + seq![
                RegWrite { offset: MM2S_DMASR, value: FRAME_DONE_BIT },
                RegWrite { offset: MM2S_VSIZE, value: old(self).frame_height },
                RegWrite { offset: PARK_PTR_REG, value: (park & 0xFFFF_FFE0) | target },
            ]);
            assert(forall|i: int| 0 <= i < count ==> part@[i] == frame@[i]);
        }
        Ok(())
    }
}

} // verus!
