//! The video frame-buffer stages: the read stage feeds pixel data from
//! software memory into the fabric, the write stage captures pixel data
//! from the fabric into software memory.  Both share the format, stride and
//! buffer-address configuration protocol; the read stage can additionally
//! be tied to a write stage's buffer to cascade pipelines without a copy.

use vstd::prelude::*;

use vstd::arithmetic::div_mod::{
    lemma_fundamental_div_mod, lemma_mod_division_less_than_divisor, lemma_mod_multiples_basic,
};

use crate::errors::Error;
use crate::hwinfo::HwIdentity;
use crate::regio::{DmaBuffer, RegWrite, RegisterWindow};
use crate::text::str_eq;

verus! {

/// Control register: start, done, idle, ready and auto-restart bits.
pub const REG_CTRL: usize = 0x00;

/// Global interrupt enable.
pub const REG_GIE: usize = 0x04;

/// Interrupt enable for the done event.
pub const REG_IER: usize = 0x08;

/// Interrupt status, cleared by writing one.
pub const REG_ISR: usize = 0x0C;

/// Frame width in pixels.
pub const REG_WIDTH: usize = 0x10;

/// Frame height in lines.
pub const REG_HEIGHT: usize = 0x18;

/// Line stride in bytes.
pub const REG_STRIDE: usize = 0x20;

/// Numeric pixel-format code.
pub const REG_FORMAT: usize = 0x28;

/// Physical address of the frame buffer.
pub const REG_ADDR: usize = 0x30;

/// How many 32-bit words of register window the stage needs.
pub const FRMBUF_WINDOW_WORDS: usize = 13;

/// Format code meaning that no format has been chosen yet.
pub const FMT_NONE: u32 = 0;

/// The format code of packed YUYV 4:2:2, two bytes per pixel.
pub const FMT_YUYV8: u32 = 12;

/// The format code of packed RGB, three bytes per pixel.
pub const FMT_RGB8: u32 = 20;

/// The memory formats a frame-buffer stage can be synthesized with.
#[derive(Clone, Copy, Debug)]
pub enum ColorFormat {
    Rgbx8,
    Yuvx8,
    Yuyv8,
    Rgba8,
    Yuva8,
    Rgbx10,
    Yuvx10,
    Rgb565,
    YUv8,
    YUv8420,
    Rgb8,
    Yuv8,
    YUv10,
    YUv10420,
    Y8,
    Y10,
    Bgra8,
    Bgrx8,
    Uyvy8,
    Bgr8,
    Rgbx12,
    Yuvx12,
    YUv12,
    YUv12420,
    Y12,
    Rgb16,
    Yuv16,
    YUv16,
    Yuv16420,
    Y16,
    RGb8,
    YUV8420,
    YUV8,
    YUV10,
}

/// The bytes-per-pixel ratio of a memory format, as a numerator and
/// denominator pair.
pub open spec fn spec_bpp_ratio(fmt: ColorFormat) -> (int, int) {
    match fmt {
        ColorFormat::YUv10 | ColorFormat::YUv10420 | ColorFormat::Y10 => (4, 3),
        ColorFormat::YUv8 | ColorFormat::YUv8420 | ColorFormat::Y8 | ColorFormat::YUV10 => (
            1,
            1,
        ),
        ColorFormat::Rgb8 | ColorFormat::Yuv8 | ColorFormat::Bgr8 => (3, 1),
        ColorFormat::Rgbx12 | ColorFormat::Yuvx12 => (5, 1),
        ColorFormat::YUv12 | ColorFormat::YUv12420 | ColorFormat::Y12 => (3, 2),
        ColorFormat::Rgb16 | ColorFormat::Yuv16 => (6, 1),
        ColorFormat::Yuyv8 | ColorFormat::Uyvy8 | ColorFormat::YUv16 | ColorFormat::Yuv16420
            | ColorFormat::Y16 => (2, 1),
        _ => (4, 1),
    }
}

/// The line stride for a row of `width_bytes` bytes: `width_bytes` rounded
/// up to the next multiple of the memory-map width.
pub open spec fn spec_stride(width_bytes: int, mmap_width: int) -> int {
    ((width_bytes + mmap_width - 1) / mmap_width) * mmap_width
}

/// The stride is the least multiple of the memory-map width that holds a
/// row: it is divisible by the map width, no smaller than the row, and
/// less than one map width above it.
pub proof fn lemma_stride_props(width_bytes: int, mmap_width: int)
    requires
        0 <= width_bytes,
        0 < mmap_width,
    ensures
        spec_stride(width_bytes, mmap_width) % mmap_width == 0,
        spec_stride(width_bytes, mmap_width) >= width_bytes,
        spec_stride(width_bytes, mmap_width) < width_bytes + mmap_width,
{
    let x = width_bytes + mmap_width - 1;
    let q = x / mmap_width;
    lemma_fundamental_div_mod(x, mmap_width);
    lemma_mod_division_less_than_divisor(x, mmap_width);
    assert(q * mmap_width == mmap_width * q) by (nonlinear_arith);
    lemma_mod_multiples_basic(q, mmap_width);
}

/// Compute the stride for a row of `width_bytes` bytes.
pub fn stride_bytes(width_bytes: u32, mmap_width: u32) -> (r: u32)
    requires
        0 < mmap_width <= 128,
        width_bytes <= 0x0FFF_FFFF,
    ensures
        r == spec_stride(width_bytes as int, mmap_width as int),
        r <= width_bytes + mmap_width,
{
    proof {
        lemma_stride_props(width_bytes as int, mmap_width as int);
    }
    ((width_bytes + mmap_width - 1) / mmap_width) * mmap_width
}

/// The synthesis parameters of a frame-buffer stage, read from the
/// hardware description.
#[derive(Debug)]
pub struct FrameBufParams {
    /// Largest frame width the IP was synthesized for.
    pub max_width: u32,
    /// Largest frame height the IP was synthesized for.
    pub max_height: u32,
    /// Whether the packed RGB format is enabled.
    pub has_rgb8: bool,
    /// Whether the packed YUYV format is enabled.
    pub has_yuyv8: bool,
    /// Pixels handled per clock cycle.
    pub pix_per_clk: u32,
}

impl FrameBufParams {
    /// Parameter values the driver can do arithmetic on without leaving
    /// the machine word.
    pub open spec fn valid(&self) -> bool {
        &&& 0 < self.max_width <= 8192
        &&& 0 < self.max_height <= 8192
        &&& 1 <= self.pix_per_clk <= 16
    }

    fn check(&self) -> (r: bool)
        ensures
            r == self.valid(),
    {
        0 < self.max_width && self.max_width <= 8192 && 0 < self.max_height && self.max_height
            <= 8192 && 1 <= self.pix_per_clk && self.pix_per_clk <= 16
    }
}

/// The frame-buffer read stage: feeds frames from a DMA buffer into the
/// fabric.
#[derive(Debug)]
pub struct VideoFrameBufRead {
    /// The register window the stage programs; the runner deposits device
    /// registers here and drains the programmed writes.
    pub window: RegisterWindow,
    /// The stage's own DMA buffer.
    pub buffer: DmaBuffer,
    /// Current numeric format code; zero until a format is set.
    pub fmt_id: u32,
    /// Largest frame width the IP allows.
    pub max_width: u32,
    /// Largest frame height the IP allows.
    pub max_height: u32,
    /// Whether packed RGB is enabled in this IP.
    pub has_rgb8: bool,
    /// Whether packed YUYV is enabled in this IP.
    pub has_yuyv8: bool,
    /// Width of the frames to stream, in pixels.
    pub frame_width: u32,
    /// Height of the frames to stream, in lines.
    pub frame_height: u32,
    /// Pixels handled per clock cycle.
    pub pix_per_clk: u32,
    /// Bytes per pixel of the current format; zero until a format is set.
    pub bytes_per_pix: u32,
    /// Whether the stage reads another stage's buffer in place.
    pub tie_en: bool,
    /// The tied buffer's physical address.
    pub tie_addr: usize,
}

impl VideoFrameBufRead {
    /// The register window the stage programs.
    pub open spec fn win(&self) -> RegisterWindow {
        self.window
    }

    /// The stage's own DMA buffer.
    pub open spec fn buf(&self) -> DmaBuffer {
        self.buffer
    }

    /// The driver's invariant: a large enough window and a consistent
    /// format state.
    pub open spec fn wf(&self) -> bool {
        &&& self.win().image().len() >= FRMBUF_WINDOW_WORDS
        &&& 1 <= self.pix_per_clk <= 16
        &&& 0 < self.max_width <= 8192
        &&& 0 < self.max_height <= 8192
        &&& (self.fmt_id == FMT_NONE || self.fmt_id == FMT_YUYV8 || self.fmt_id == FMT_RGB8)
        &&& (self.fmt_id == FMT_NONE ==> self.bytes_per_pix == 0)
        &&& (self.fmt_id == FMT_YUYV8 ==> self.bytes_per_pix == 2)
        &&& (self.fmt_id == FMT_RGB8 ==> self.bytes_per_pix == 3)
    }

    /// The synthesis capabilities, unchanged by every operation.
    pub open spec fn same_caps(a: Self, b: Self) -> bool {
        &&& a.max_width == b.max_width
        &&& a.max_height == b.max_height
        &&& a.has_rgb8 == b.has_rgb8
        &&& a.has_yuyv8 == b.has_yuyv8
        &&& a.pix_per_clk == b.pix_per_clk
    }

    /// The whole software-side configuration.
    pub open spec fn same_cfg(a: Self, b: Self) -> bool {
        &&& Self::same_caps(a, b)
        &&& a.fmt_id == b.fmt_id
        &&& a.bytes_per_pix == b.bytes_per_pix
        &&& a.frame_width == b.frame_width
        &&& a.frame_height == b.frame_height
        &&& a.tie_en == b.tie_en
        &&& a.tie_addr == b.tie_addr
    }

    /// Bind the driver to a hardware block: the identity tag must name a
    /// `v_frmbuf_rd` IP, the parameters must be coherent, and the window
    /// must span the stage's registers.  The frame size starts at the
    /// advertised maximum and no format is set.
    pub fn new(id: &HwIdentity, params: &FrameBufParams, window: RegisterWindow, buffer: DmaBuffer) -> (r: Result<
        Self,
        Error,
    >)
        ensures
            match r {
                Ok(d) => {
                    &&& id.vendor@ == "xilinx.com"@ && id.library@ == "ip"@ && id.name@
                        == "v_frmbuf_rd"@
                    &&& params.valid()
                    &&& window.image().len() >= FRMBUF_WINDOW_WORDS
                    &&& d.wf()
                    &&& d.win() == window
                    &&& d.buf() == buffer
                    &&& d.fmt_id == FMT_NONE
                    &&& d.bytes_per_pix == 0
                    &&& d.max_width == params.max_width
                    &&& d.max_height == params.max_height
                    &&& d.has_rgb8 == params.has_rgb8
                    &&& d.has_yuyv8 == params.has_yuyv8
                    &&& d.pix_per_clk == params.pix_per_clk
                    &&& d.frame_width == params.max_width
                    &&& d.frame_height == params.max_height
                    &&& !d.tie_en
                },
                Err(Error::UnsupportedIp) => !(id.vendor@ == "xilinx.com"@ && id.library@
                    == "ip"@ && id.name@ == "v_frmbuf_rd"@),
                Err(Error::Configuration) => {
                    &&& id.vendor@ == "xilinx.com"@ && id.library@ == "ip"@ && id.name@
                        == "v_frmbuf_rd"@
                    &&& !params.valid()
                },
                Err(Error::Resource) => {
                    &&& id.vendor@ == "xilinx.com"@ && id.library@ == "ip"@ && id.name@
                        == "v_frmbuf_rd"@
                    &&& params.valid()
                    &&& window.image().len() < FRMBUF_WINDOW_WORDS
                },
                Err(_) => false,
            },
    {
        if !id.matches("xilinx.com", "ip", "v_frmbuf_rd") {
            return Err(Error::UnsupportedIp);
        }
        if !params.check() {
            return Err(Error::Configuration);
        }
        if window.word_len() < FRMBUF_WINDOW_WORDS {
            return Err(Error::Resource);
        }
        Ok(
            VideoFrameBufRead {
                window,
                buffer,
                fmt_id: FMT_NONE,
                max_width: params.max_width,
                max_height: params.max_height,
                has_rgb8: params.has_rgb8,
                has_yuyv8: params.has_yuyv8,
                frame_width: params.max_width,
                frame_height: params.max_height,
                pix_per_clk: params.pix_per_clk,
                bytes_per_pix: 0,
                tie_en: false,
                tie_addr: 0,
            },
        )
    }

    /// Whether the block reports that it is processing a frame.
    pub fn is_running(&self) -> (r: bool)
        requires
            self.wf(),
        ensures
            r == (self.win().image()[REG_CTRL as int / 4] & 1 == 1),
    {
        self.window.read32(REG_CTRL) & 1 == 1
    }

    /// Whether the block reports the done bit.
    pub fn is_done(&self) -> (r: bool)
        requires
            self.wf(),
        ensures
            r == (self.win().image()[REG_CTRL as int / 4] & 2 == 2),
    {
        self.window.read32(REG_CTRL) & 2 == 2
    }

    /// Whether the block reports the idle bit.
    pub fn is_idle(&self) -> (r: bool)
        requires
            self.wf(),
        ensures
            r == (self.win().image()[REG_CTRL as int / 4] & 4 == 4),
    {
        self.window.read32(REG_CTRL) & 4 == 4
    }

    /// Whether the block is ready for a new start: the start bit is clear.
    pub fn is_ready(&self) -> (r: bool)
        requires
            self.wf(),
        ensures
            r == (self.win().image()[REG_CTRL as int / 4] & 1 == 0),
    {
        self.window.read32(REG_CTRL) & 1 == 0
    }

    /// Whether the persistent auto-restart bit is set.
    pub fn get_auto_restart_enable(&self) -> (r: bool)
        requires
            self.wf(),
        ensures
            r == (self.win().image()[REG_CTRL as int / 4] & 0x80 == 0x80),
    {
        self.window.read32(REG_CTRL) & 0x80 == 0x80
    }

    /// Program the persistent auto-restart bit.
    pub fn set_auto_restart_enable(&mut self, en: bool)
        requires
            old(self).wf(),
        ensures
            final(self).wf(),
            Self::same_cfg(*old(self), *final(self)),
            final(self).buf() == old(self).buf(),
            final(self).win().writes() == old(self).win().writes().push(
                RegWrite { offset: REG_CTRL, value: if en { 0x80 } else { 0 } },
            ),
            final(self).win().image() == old(self).win().image().update(
                REG_CTRL as int / 4,
                if en {
                    0x80u32
                } else {
                    0u32
                },
            ),
    {
        let reg: u32 = if en {
            0x80
        } else {
            0
        };
        self.window.write32(REG_CTRL, reg);
    }

    /// Program width, height, stride and format code, in that order.  The
    /// frame size must not exceed the advertised maximum and a format must
    /// have been set; nothing is written otherwise.
    pub fn write_format(&mut self) -> (r: Result<(), Error>)
        requires
            old(self).wf(),
        ensures
            final(self).wf(),
            Self::same_cfg(*old(self), *final(self)),
            final(self).buf() == old(self).buf(),
            match r {
                Ok(()) => {
                    &&& old(self).frame_width <= old(self).max_width
                    &&& old(self).frame_height <= old(self).max_height
                    &&& old(self).fmt_id != FMT_NONE
                    &&& final(self).win().writes() == old(self).win().writes() + seq![
                        RegWrite { offset: REG_WIDTH, value: old(self).frame_width },
                        RegWrite { offset: REG_HEIGHT, value: old(self).frame_height },
                        RegWrite {
                            offset: REG_STRIDE,
                            value: spec_stride(
                                old(self).frame_width * old(self).bytes_per_pix,
                                old(self).pix_per_clk * 8,
                            ) as u32,
                        },
                        RegWrite { offset: REG_FORMAT, value: old(self).fmt_id },
                    ]
                    &&& final(self).win().image() == old(self).win().image().update(
                        REG_WIDTH as int / 4,
                        old(self).frame_width,
                    ).update(REG_HEIGHT as int / 4, old(self).frame_height).update(
                        REG_STRIDE as int / 4,
                        spec_stride(
                            old(self).frame_width * old(self).bytes_per_pix,
                            old(self).pix_per_clk * 8,
                        ) as u32,
                    ).update(REG_FORMAT as int / 4, old(self).fmt_id)
                },
                Err(e) => {
                    &&& e == Error::Protocol
                    &&& (old(self).frame_width > old(self).max_width || old(self).frame_height
                        > old(self).max_height || old(self).fmt_id == FMT_NONE)
                    &&& *final(self) == *old(self)
                },
            },
    {
        if self.frame_width > self.max_width || self.frame_height > self.max_height
            || self.fmt_id == FMT_NONE {
            return Err(Error::Protocol);
        }
        let mmap_width = self.pix_per_clk * 8;
        let stride = stride_bytes(self.frame_width * self.bytes_per_pix, mmap_width);
        self.window.write32(REG_WIDTH, self.frame_width);
        self.window.write32(REG_HEIGHT, self.frame_height);
        self.window.write32(REG_STRIDE, stride);
        self.window.write32(REG_FORMAT, self.fmt_id);
        proof {
            assert(final(self).win().writes() =~= old(self).win().writes() + seq![
                RegWrite { offset: REG_WIDTH, value: old(self).frame_width },
                RegWrite { offset: REG_HEIGHT, value: old(self).frame_height },
                RegWrite {
                    offset: REG_STRIDE,
                    value: spec_stride(
                        old(self).frame_width * old(self).bytes_per_pix,
                        old(self).pix_per_clk * 8,
                    ) as u32,
                },
                RegWrite { offset: REG_FORMAT, value: old(self).fmt_id },
            ]);
        }
        Ok(())
    }

    /// Program the frame-buffer address register: the tied stage's buffer
    /// when tied, the stage's own buffer otherwise.
    pub fn write_framebuf_addr(&mut self)
        requires
            old(self).wf(),
        ensures
            final(self).wf(),
            Self::same_cfg(*old(self), *final(self)),
            final(self).buf() == old(self).buf(),
            final(self).win().writes() == old(self).win().writes().push(
                RegWrite { offset: REG_ADDR, value: old(self).spec_source_addr() },
            ),
            final(self).win().image() == old(self).win().image().update(
                REG_ADDR as int / 4,
                old(self).spec_source_addr(),
            ),
    {
        if self.tie_en {
            let a = (self.tie_addr as u64 % 0x1_0000_0000) as u32;
            self.window.write32(REG_ADDR, a);
        } else {
            let a = (self.buffer.phys_addr() as u64 % 0x1_0000_0000) as u32;
            self.window.write32(REG_ADDR, a);
        }
    }

    /// The low word of the address the stage streams from.
    pub open spec fn spec_source_addr(&self) -> u32 {
        if self.tie_en {
            (self.tie_addr as int % 0x1_0000_0000) as u32
        } else {
            (self.buf().spec_phys_addr() as int % 0x1_0000_0000) as u32
        }
    }

    /// Program format and buffer address: everything but the start bit.
    pub fn configure(&mut self) -> (r: Result<(), Error>)
        requires
            old(self).wf(),
        ensures
            final(self).wf(),
            Self::same_cfg(*old(self), *final(self)),
            final(self).buf() == old(self).buf(),
            match r {
                Ok(()) => {
                    &&& old(self).frame_width <= old(self).max_width
                    &&& old(self).frame_height <= old(self).max_height
                    &&& old(self).fmt_id != FMT_NONE
                    &&& final(self).win().writes() == old(self).win().writes()
                        + old(self).spec_config_writes()
                },
                Err(e) => {
                    &&& e == Error::Protocol
                    &&& (old(self).frame_width > old(self).max_width || old(self).frame_height
                        > old(self).max_height || old(self).fmt_id == FMT_NONE)
                    &&& *final(self) == *old(self)
                },
            },
    {
        self.write_format()?;
        self.write_framebuf_addr();
        proof {
            assert(final(self).win().writes() =~= old(self).win().writes() + old(self).spec_config_writes());
        }
        Ok(())
    }

    /// The write sequence that configures the stage: width, height,
    /// stride, format code, then the source address.
    pub open spec fn spec_config_writes(&self) -> Seq<RegWrite> {
        seq![
            RegWrite { offset: REG_WIDTH, value: self.frame_width },
            RegWrite { offset: REG_HEIGHT, value: self.frame_height },
            RegWrite {
                offset: REG_STRIDE,
                value: spec_stride(
                    self.frame_width * self.bytes_per_pix,
                    self.pix_per_clk * 8,
                ) as u32,
            },
            RegWrite { offset: REG_FORMAT, value: self.fmt_id },
            RegWrite { offset: REG_ADDR, value: self.spec_source_addr() },
        ]
    }

    /// Configure the stage, then set the start bit together with
    /// auto-restart, so the block streams frames continuously.
    pub fn start(&mut self) -> (r: Result<(), Error>)
        requires
            old(self).wf(),
        ensures
            final(self).wf(),
            Self::same_cfg(*old(self), *final(self)),
            final(self).buf() == old(self).buf(),
            match r {
                Ok(()) => {
                    &&& old(self).frame_width <= old(self).max_width
                    &&& old(self).frame_height <= old(self).max_height
                    &&& old(self).fmt_id != FMT_NONE
                    &&& final(self).win().writes() == old(self).win().writes() + old(self).spec_config_writes().push(RegWrite { offset: REG_CTRL, value: 0x81 })
                },
                Err(e) => {
                    &&& e == Error::Protocol
                    &&& (old(self).frame_width > old(self).max_width || old(self).frame_height
                        > old(self).max_height || old(self).fmt_id == FMT_NONE)
                    &&& *final(self) == *old(self)
                },
            },
    {
        self.configure()?;
        self.window.write32(REG_CTRL, 0x81);
        proof {
            assert(final(self).win().writes() =~= old(self).win().writes() + old(self).spec_config_writes().push(RegWrite { offset: REG_CTRL, value: 0x81 }));
        }
        Ok(())
    }

    /// Configure the stage, then set the start bit alone, so the block
    /// processes a single frame.
    pub fn start_once(&mut self) -> (r: Result<(), Error>)
        requires
            old(self).wf(),
        ensures
            final(self).wf(),
            Self::same_cfg(*old(self), *final(self)),
            final(self).buf() == old(self).buf(),
            match r {
                Ok(()) => {
                    &&& old(self).frame_width <= old(self).max_width
                    &&& old(self).frame_height <= old(self).max_height
                    &&& old(self).fmt_id != FMT_NONE
                    &&& final(self).win().writes() == old(self).win().writes() + old(self).spec_config_writes().push(RegWrite { offset: REG_CTRL, value: 0x01 })
                },
                Err(e) => {
                    &&& e == Error::Protocol
                    &&& (old(self).frame_width > old(self).max_width || old(self).frame_height
                        > old(self).max_height || old(self).fmt_id == FMT_NONE)
                    &&& *final(self) == *old(self)
                },
            },
    {
        self.configure()?;
        self.window.write32(REG_CTRL, 0x01);
        proof {
            assert(final(self).win().writes() =~= old(self).win().writes() + old(self).spec_config_writes().push(RegWrite { offset: REG_CTRL, value: 0x01 }));
        }
        Ok(())
    }

    /// Clear auto-restart so the block stops after the current frame; the
    /// runner then polls [`Self::is_ready`] until the hardware drains.
    pub fn stop(&mut self)
        requires
            old(self).wf(),
        ensures
            final(self).wf(),
            Self::same_cfg(*old(self), *final(self)),
            final(self).buf() == old(self).buf(),
            final(self).win().writes() == old(self).win().writes().push(
                RegWrite { offset: REG_CTRL, value: 0 },
            ),
            final(self).win().image() == old(self).win().image().update(
                REG_CTRL as int / 4,
                0u32,
            ),
    {
        self.set_auto_restart_enable(false);
    }

    /// Enable the done interrupt: global enable, then the done source.
    pub fn arm_done_interrupt(&mut self)
        requires
            old(self).wf(),
        ensures
            final(self).wf(),
            Self::same_cfg(*old(self), *final(self)),
            final(self).buf() == old(self).buf(),
            final(self).win().writes() == old(self).win().writes() + seq![
                RegWrite { offset: REG_GIE, value: 1 },
                RegWrite { offset: REG_IER, value: 1 },
            ],
            final(self).win().image() == old(self).win().image().update(
                REG_GIE as int / 4,
                1u32,
            ).update(REG_IER as int / 4, 1u32),
    {
        self.window.write32(REG_GIE, 1);
        self.window.write32(REG_IER, 1);
        proof {
            assert(final(self).win().writes() =~= old(self).win().writes() + seq![
                RegWrite { offset: REG_GIE, value: 1 },
                RegWrite { offset: REG_IER, value: 1 },
            ]);
        }
    }

    /// Acknowledge the done interrupt and disable the global enable.
    pub fn ack_done_interrupt(&mut self)
        requires
            old(self).wf(),
        ensures
            final(self).wf(),
            Self::same_cfg(*old(self), *final(self)),
            final(self).buf() == old(self).buf(),
            final(self).win().writes() == old(self).win().writes() + seq![
                RegWrite { offset: REG_ISR, value: 1 },
                RegWrite { offset: REG_GIE, value: 0 },
            ],
            final(self).win().image() == old(self).win().image().update(
                REG_ISR as int / 4,
                1u32,
            ).update(REG_GIE as int / 4, 0u32),
    {
        self.window.write32(REG_ISR, 1);
        self.window.write32(REG_GIE, 0);
        proof {
            assert(final(self).win().writes() =~= old(self).win().writes() + seq![
                RegWrite { offset: REG_ISR, value: 1 },
                RegWrite { offset: REG_GIE, value: 0 },
            ]);
        }
    }

    /// Arm the done interrupt and, if the block already reports idle,
    /// acknowledge it at once; otherwise the caller must block on the
    /// interrupt, refresh the register image, and finish with
    /// [`Self::ack_done_interrupt`].
    pub fn wait_done_interrupt(&mut self) -> (r: Result<(), Error>)
        requires
            old(self).wf(),
        ensures
            final(self).wf(),
            Self::same_cfg(*old(self), *final(self)),
            final(self).buf() == old(self).buf(),
            match r {
                Ok(()) => {
                    &&& old(self).win().image()[REG_CTRL as int / 4] & 4 == 4
                    &&& final(self).win().writes() == old(self).win().writes() + seq![
                        RegWrite { offset: REG_GIE, value: 1 },
                        RegWrite { offset: REG_IER, value: 1 },
                        RegWrite { offset: REG_ISR, value: 1 },
                        RegWrite { offset: REG_GIE, value: 0 },
                    ]
                },
                Err(e) => {
                    &&& e == Error::Timeout
                    &&& old(self).win().image()[REG_CTRL as int / 4] & 4 != 4
                    &&& final(self).win().writes() == old(self).win().writes() + seq![
                        RegWrite { offset: REG_GIE, value: 1 },
                        RegWrite { offset: REG_IER, value: 1 },
                    ]
                },
            },
    {
        self.arm_done_interrupt();
        if self.is_idle() {
            self.ack_done_interrupt();
            proof {
                assert(final(self).win().writes() =~= old(self).win().writes() + seq![
                    RegWrite { offset: REG_GIE, value: 1 },
                    RegWrite { offset: REG_IER, value: 1 },
                    RegWrite { offset: REG_ISR, value: 1 },
                    RegWrite { offset: REG_GIE, value: 0 },
                ]);
            }
            Ok(())
        } else {
            Err(Error::Timeout)
        }
    }

    /// Choose the pixel format by name: `"YUYV"` or `"RGB8"`, each only
    /// when the IP was synthesized with it.
    pub fn set_format(&mut self, fmt: &str) -> (r: Result<(), Error>)
        requires
            old(self).wf(),
        ensures
            final(self).wf(),
            final(self).buf() == old(self).buf(),
            final(self).win() == old(self).win(),
            Self::same_caps(*old(self), *final(self)),
            final(self).frame_width == old(self).frame_width,
            final(self).frame_height == old(self).frame_height,
            final(self).tie_en == old(self).tie_en,
            final(self).tie_addr == old(self).tie_addr,
            match r {
                Ok(()) => {
                    &&& (fmt@ == "YUYV"@ && old(self).has_yuyv8) || (fmt@ == "RGB8"@ && old(self).has_rgb8)
                    &&& (fmt@ == "YUYV"@ ==> final(self).fmt_id == FMT_YUYV8 && final(self).bytes_per_pix == 2)
                    &&& (fmt@ == "RGB8"@ ==> final(self).fmt_id == FMT_RGB8 && final(self).bytes_per_pix == 3)
                },
                Err(e) => {
                    &&& e == Error::UnsupportedFormat
                    &&& !(fmt@ == "YUYV"@ && old(self).has_yuyv8)
                    &&& !(fmt@ == "RGB8"@ && old(self).has_rgb8)
                    &&& *final(self) == *old(self)
                },
            },
    {
        proof {
            broadcast use vstd::string::group_string_axioms;

            reveal_strlit("YUYV");
            reveal_strlit("RGB8");
            assert("YUYV"@[0] == 'Y');
            assert("RGB8"@[0] == 'R');
            assert("YUYV"@ != "RGB8"@);
        }
        if str_eq(fmt, "YUYV") {
            if !self.has_yuyv8 {
                return Err(Error::UnsupportedFormat);
            }
            self.fmt_id = FMT_YUYV8;
            self.bytes_per_pix = 2;
            Ok(())
        } else if str_eq(fmt, "RGB8") {
            if !self.has_rgb8 {
                return Err(Error::UnsupportedFormat);
            }
            self.fmt_id = FMT_RGB8;
            self.bytes_per_pix = 3;
            Ok(())
        } else {
            Err(Error::UnsupportedFormat)
        }
    }

    /// The name of the current format: `"Not Set"` before any was chosen.
    pub fn get_format(&self) -> (r: Result<&'static str, Error>)
        requires
            self.wf(),
        ensures
            match r {
                Ok(s) => {
                    &&& (self.fmt_id == FMT_NONE ==> s@ == "Not Set"@)
                    &&& (self.fmt_id == FMT_YUYV8 ==> s@ == "YUYV"@)
                    &&& (self.fmt_id == FMT_RGB8 ==> s@ == "RGB8"@)
                },
                Err(_) => false,
            },
    {
        if self.fmt_id == FMT_YUYV8 {
            Ok("YUYV")
        } else if self.fmt_id == FMT_RGB8 {
            Ok("RGB8")
        } else {
            Ok("Not Set")
        }
    }

    /// Copy one frame into the stage's buffer and start streaming it.
    /// The frame size and format must be configured, `frame` must hold the
    /// whole frame, and the frame must fit the DMA buffer.
    pub fn write_frame(&mut self, frame: &[u8]) -> (r: Result<(), Error>)
        requires
            old(self).wf(),
        ensures
            final(self).wf(),
            Self::same_cfg(*old(self), *final(self)),
            match r {
                Ok(()) => {
                    &&& old(self).frame_width <= old(self).max_width
                    &&& old(self).frame_height <= old(self).max_height
                    &&& old(self).fmt_id != FMT_NONE
                    &&& frame@.len() >= old(self).spec_frame_bytes()
                    &&& old(self).spec_frame_bytes() <= old(self).buf().contents().len()
                    &&& final(self).buf().contents().len() == old(self).buf().contents().len()
                    &&& forall|i: int|
                        0 <= i < old(self).spec_frame_bytes() ==> final(self).buf().contents()[i] == frame@[i]
                    &&& forall|i: int|
                        old(self).spec_frame_bytes() <= i < old(self).buf().contents().len()
                            ==> final(self).buf().contents()[i] == old(self).buf().contents()[i]
                    &&& final(self).win().writes() == old(self).win().writes() + old(self).spec_config_writes().push(RegWrite { offset: REG_CTRL, value: 0x81 })
                },
                Err(e) => {
                    &&& *final(self) == *old(self)
                    &&& (e == Error::Protocol ==> (old(self).frame_width > old(self).max_width
                        || old(self).frame_height > old(self).max_height || old(self).fmt_id
                        == FMT_NONE))
                    &&& (e == Error::Resource ==> (frame@.len() < old(self).spec_frame_bytes()
                        || old(self).spec_frame_bytes() > old(self).buf().contents().len()))
                    &&& (e == Error::Protocol || e == Error::Resource)
                },
            },
    {
        if self.frame_width > self.max_width || self.frame_height > self.max_height
            || self.fmt_id == FMT_NONE {
            return Err(Error::Protocol);
        }
        proof {
            assert(self.frame_width * self.frame_height <= 8192 * 8192 && self.frame_width
                * self.frame_height * self.bytes_per_pix <= 8192 * 8192 * 3)
                by (nonlinear_arith)
                requires
                    0 <= self.frame_width <= 8192,
                    0 <= self.frame_height <= 8192,
                    0 <= self.bytes_per_pix <= 3,
            ;
        }
        let count64 = self.frame_width as u64 * self.frame_height as u64 * self.bytes_per_pix
            as u64;
        let count = count64 as usize;
        if frame.len() < count {
            return Err(Error::Resource);
        }
        let part = vstd::slice::slice_subrange(frame, 0, count);
        match self.buffer.copy_from(0, part) {
            Ok(()) => {},
            Err(e) => {
                return Err(e);
            },
        }
        proof {
            assert(forall|i: int| 0 <= i < count ==> part@[i] == frame@[i]);
        }
        let started = self.start();
        proof {
            assert(started is Ok);
        }
        Ok(())
    }

    /// How many bytes one configured frame occupies.
    pub open spec fn spec_frame_bytes(&self) -> int {
        self.frame_width * self.frame_height * self.bytes_per_pix
    }

    /// Tie the stage to a write stage: frames are read in place from that
    /// stage's buffer.
    pub fn tie(&mut self, vfbw: &VideoFrameBufWrite)
        ensures
            final(self).tie_en,
            final(self).tie_addr == vfbw.buf().spec_phys_addr(),
            final(self).win() == old(self).win(),
            final(self).buf() == old(self).buf(),
            Self::same_caps(*old(self), *final(self)),
            final(self).fmt_id == old(self).fmt_id,
            final(self).bytes_per_pix == old(self).bytes_per_pix,
            final(self).frame_width == old(self).frame_width,
            final(self).frame_height == old(self).frame_height,
    {
        self.tie_en = true;
        self.tie_addr = vfbw.get_addr();
    }

    /// Untie the stage: frames are read from its own buffer again.
    pub fn untie(&mut self)
        ensures
            !final(self).tie_en,
            final(self).tie_addr == old(self).tie_addr,
            final(self).win() == old(self).win(),
            final(self).buf() == old(self).buf(),
            Self::same_caps(*old(self), *final(self)),
            final(self).fmt_id == old(self).fmt_id,
            final(self).bytes_per_pix == old(self).bytes_per_pix,
            final(self).frame_width == old(self).frame_width,
            final(self).frame_height == old(self).frame_height,
    {
        self.tie_en = false;
    }

    /// The stride the current frame width gives under an arbitrary memory
    /// format.
    pub fn calc_stride(&self, fmt: ColorFormat) -> (r: u32)
        requires
            self.wf(),
            self.frame_width <= 0x00FF_FFFF,
        ensures
            r == spec_stride(
                self.frame_width * spec_bpp_ratio(fmt).0 / spec_bpp_ratio(fmt).1,
                self.pix_per_clk * 8,
            ),
    {
        let mm_width_bytes = self.pix_per_clk * 8;
        let (num, den): (u32, u32) = match fmt {
            ColorFormat::YUv10 | ColorFormat::YUv10420 | ColorFormat::Y10 => (4, 3),
            ColorFormat::YUv8 | ColorFormat::YUv8420 | ColorFormat::Y8 | ColorFormat::YUV10 => (
                1,
                1,
            ),
            ColorFormat::Rgb8 | ColorFormat::Yuv8 | ColorFormat::Bgr8 => (3, 1),
            ColorFormat::Rgbx12 | ColorFormat::Yuvx12 => (5, 1),
            ColorFormat::YUv12 | ColorFormat::YUv12420 | ColorFormat::Y12 => (3, 2),
            ColorFormat::Rgb16 | ColorFormat::Yuv16 => (6, 1),
            ColorFormat::Yuyv8 | ColorFormat::Uyvy8 | ColorFormat::YUv16
                | ColorFormat::Yuv16420 | ColorFormat::Y16 => (2, 1),
            _ => (4, 1),
        };
        stride_bytes(self.frame_width * num / den, mm_width_bytes)
    }
}

/// The frame-buffer write stage: captures frames from the fabric into a
/// DMA buffer.
#[derive(Debug)]
pub struct VideoFrameBufWrite {
    /// The register window the stage programs; the runner deposits device
    /// registers here and drains the programmed writes.
    pub window: RegisterWindow,
    /// The stage's capture buffer; the runner mirrors captured pixel data
    /// into it.
    pub buffer: DmaBuffer,
    /// Current numeric format code; zero until a format is set.
    pub fmt_id: u32,
    /// Largest frame width the IP allows.
    pub max_width: u32,
    /// Largest frame height the IP allows.
    pub max_height: u32,
    /// Whether packed RGB is enabled in this IP.
    pub has_rgb8: bool,
    /// Whether packed YUYV is enabled in this IP.
    pub has_yuyv8: bool,
    /// Width of the frames to capture, in pixels.
    pub frame_width: u32,
    /// Height of the frames to capture, in lines.
    pub frame_height: u32,
    /// Pixels handled per clock cycle.
    pub pix_per_clk: u32,
    /// Bytes per pixel of the current format; zero until a format is set.
    pub bytes_per_pix: u32,
}

impl VideoFrameBufWrite {
    /// The register window the stage programs.
    pub open spec fn win(&self) -> RegisterWindow {
        self.window
    }

    /// The stage's own DMA buffer.
    pub open spec fn buf(&self) -> DmaBuffer {
        self.buffer
    }

    /// The driver's invariant: a large enough window and a consistent
    /// format state.
    pub open spec fn wf(&self) -> bool {
        &&& self.win().image().len() >= FRMBUF_WINDOW_WORDS
        &&& 1 <= self.pix_per_clk <= 16
        &&& 0 < self.max_width <= 8192
        &&& 0 < self.max_height <= 8192
        &&& (self.fmt_id == FMT_NONE || self.fmt_id == FMT_YUYV8 || self.fmt_id == FMT_RGB8)
        &&& (self.fmt_id == FMT_NONE ==> self.bytes_per_pix == 0)
        &&& (self.fmt_id == FMT_YUYV8 ==> self.bytes_per_pix == 2)
        &&& (self.fmt_id == FMT_RGB8 ==> self.bytes_per_pix == 3)
    }

    /// The synthesis capabilities, unchanged by every operation.
    pub open spec fn same_caps(a: Self, b: Self) -> bool {
        &&& a.max_width == b.max_width
        &&& a.max_height == b.max_height
        &&& a.has_rgb8 == b.has_rgb8
        &&& a.has_yuyv8 == b.has_yuyv8
        &&& a.pix_per_clk == b.pix_per_clk
    }

    /// The whole software-side configuration.
    pub open spec fn same_cfg(a: Self, b: Self) -> bool {
        &&& Self::same_caps(a, b)
        &&& a.fmt_id == b.fmt_id
        &&& a.bytes_per_pix == b.bytes_per_pix
        &&& a.frame_width == b.frame_width
        &&& a.frame_height == b.frame_height
    }

    /// Bind the driver to a hardware block: the identity tag must name a
    /// `v_frmbuf_wr` IP, the parameters must be coherent, and the window
    /// must span the stage's registers.
    pub fn new(id: &HwIdentity, params: &FrameBufParams, window: RegisterWindow, buffer: DmaBuffer) -> (r: Result<
        Self,
        Error,
    >)
        ensures
            match r {
                Ok(d) => {
                    &&& id.vendor@ == "xilinx.com"@ && id.library@ == "ip"@ && id.name@
                        == "v_frmbuf_wr"@
                    &&& params.valid()
                    &&& window.image().len() >= FRMBUF_WINDOW_WORDS
                    &&& d.wf()
                    &&& d.win() == window
                    &&& d.buf() == buffer
                    &&& d.fmt_id == FMT_NONE
                    &&& d.bytes_per_pix == 0
                    &&& d.max_width == params.max_width
                    &&& d.max_height == params.max_height
                    &&& d.has_rgb8 == params.has_rgb8
                    &&& d.has_yuyv8 == params.has_yuyv8
                    &&& d.pix_per_clk == params.pix_per_clk
                    &&& d.frame_width == params.max_width
                    &&& d.frame_height == params.max_height
                },
                Err(Error::UnsupportedIp) => !(id.vendor@ == "xilinx.com"@ && id.library@
                    == "ip"@ && id.name@ == "v_frmbuf_wr"@),
                Err(Error::Configuration) => {
                    &&& id.vendor@ == "xilinx.com"@ && id.library@ == "ip"@ && id.name@
                        == "v_frmbuf_wr"@
                    &&& !params.valid()
                },
                Err(Error::Resource) => {
                    &&& id.vendor@ == "xilinx.com"@ && id.library@ == "ip"@ && id.name@
                        == "v_frmbuf_wr"@
                    &&& params.valid()
                    &&& window.image().len() < FRMBUF_WINDOW_WORDS
                },
                Err(_) => false,
            },
    {
        if !id.matches("xilinx.com", "ip", "v_frmbuf_wr") {
            return Err(Error::UnsupportedIp);
        }
        if !params.check() {
            return Err(Error::Configuration);
        }
        if window.word_len() < FRMBUF_WINDOW_WORDS {
            return Err(Error::Resource);
        }
        Ok(
            VideoFrameBufWrite {
                window,
                buffer,
                fmt_id: FMT_NONE,
                max_width: params.max_width,
                max_height: params.max_height,
                has_rgb8: params.has_rgb8,
                has_yuyv8: params.has_yuyv8,
                frame_width: params.max_width,
                frame_height: params.max_height,
                pix_per_clk: params.pix_per_clk,
                bytes_per_pix: 0,
            },
        )
    }

    /// Whether the block reports that it is capturing a frame.
    pub fn is_running(&self) -> (r: bool)
        requires
            self.wf(),
        ensures
            r == (self.win().image()[REG_CTRL as int / 4] & 1 == 1),
    {
        self.window.read32(REG_CTRL) & 1 == 1
    }

    /// Whether the block reports the done bit.
    pub fn is_done(&self) -> (r: bool)
        requires
            self.wf(),
        ensures
            r == (self.win().image()[REG_CTRL as int / 4] & 2 == 2),
    {
        self.window.read32(REG_CTRL) & 2 == 2
    }

    /// Whether the block reports the idle bit.
    pub fn is_idle(&self) -> (r: bool)
        requires
            self.wf(),
        ensures
            r == (self.win().image()[REG_CTRL as int / 4] & 4 == 4),
    {
        self.window.read32(REG_CTRL) & 4 == 4
    }

    /// Whether the block is ready for a new start: the start bit is clear.
    pub fn is_ready(&self) -> (r: bool)
        requires
            self.wf(),
        ensures
            r == (self.win().image()[REG_CTRL as int / 4] & 1 == 0),
    {
        self.window.read32(REG_CTRL) & 1 == 0
    }

    /// Whether the persistent auto-restart bit is set.
    pub fn get_auto_restart_enable(&self) -> (r: bool)
        requires
            self.wf(),
        ensures
            r == (self.win().image()[REG_CTRL as int / 4] & 0x80 == 0x80),
    {
        self.window.read32(REG_CTRL) & 0x80 == 0x80
    }

    /// Program the persistent auto-restart bit.
    pub fn set_auto_restart_enable(&mut self, en: bool)
        requires
            old(self).wf(),
        ensures
            final(self).wf(),
            Self::same_cfg(*old(self), *final(self)),
            final(self).buf() == old(self).buf(),
            final(self).win().writes() == old(self).win().writes().push(
                RegWrite { offset: REG_CTRL, value: if en { 0x80 } else { 0 } },
            ),
            final(self).win().image() == old(self).win().image().update(
                REG_CTRL as int / 4,
                if en {
                    0x80u32
                } else {
                    0u32
                },
            ),
    {
        let reg: u32 = if en {
            0x80
        } else {
            0
        };
        self.window.write32(REG_CTRL, reg);
    }

    /// Program width, height, stride and format code, in that order, under
    /// the same conditions as the read stage.
    pub fn write_format(&mut self) -> (r: Result<(), Error>)
        requires
            old(self).wf(),
        ensures
            final(self).wf(),
            Self::same_cfg(*old(self), *final(self)),
            final(self).buf() == old(self).buf(),
            match r {
                Ok(()) => {
                    &&& old(self).frame_width <= old(self).max_width
                    &&& old(self).frame_height <= old(self).max_height
                    &&& old(self).fmt_id != FMT_NONE
                    &&& final(self).win().writes() == old(self).win().writes() + old(self).spec_format_writes()
                },
                Err(e) => {
                    &&& e == Error::Protocol
                    &&& (old(self).frame_width > old(self).max_width || old(self).frame_height
                        > old(self).max_height || old(self).fmt_id == FMT_NONE)
                    &&& *final(self) == *old(self)
                },
            },
    {
        if self.frame_width > self.max_width || self.frame_height > self.max_height
            || self.fmt_id == FMT_NONE {
            return Err(Error::Protocol);
        }
        let mmap_width = self.pix_per_clk * 8;
        let stride = stride_bytes(self.frame_width * self.bytes_per_pix, mmap_width);
        self.window.write32(REG_WIDTH, self.frame_width);
        self.window.write32(REG_HEIGHT, self.frame_height);
        self.window.write32(REG_STRIDE, stride);
        self.window.write32(REG_FORMAT, self.fmt_id);
        proof {
            assert(final(self).win().writes() =~= old(self).win().writes() + old(self).spec_format_writes());
        }
        Ok(())
    }

    /// The write sequence that programs the frame format: width, height,
    /// stride, then the format code.
    pub open spec fn spec_format_writes(&self) -> Seq<RegWrite> {
        seq![
            RegWrite { offset: REG_WIDTH, value: self.frame_width },
            RegWrite { offset: REG_HEIGHT, value: self.frame_height },
            RegWrite {
                offset: REG_STRIDE,
                value: spec_stride(
                    self.frame_width * self.bytes_per_pix,
                    self.pix_per_clk * 8,
                ) as u32,
            },
            RegWrite { offset: REG_FORMAT, value: self.fmt_id },
        ]
    }

    /// Program the capture address: the stage's own buffer.
    pub fn set_framebuf_addr(&mut self)
        requires
            old(self).wf(),
        ensures
            final(self).wf(),
            Self::same_cfg(*old(self), *final(self)),
            final(self).buf() == old(self).buf(),
            final(self).win().writes() == old(self).win().writes().push(
                RegWrite {
                    offset: REG_ADDR,
                    value: (old(self).buf().spec_phys_addr() as int % 0x1_0000_0000) as u32,
                },
            ),
            final(self).win().image() == old(self).win().image().update(
                REG_ADDR as int / 4,
                (old(self).buf().spec_phys_addr() as int % 0x1_0000_0000) as u32,
            ),
    {
        let a = (self.buffer.phys_addr() as u64 % 0x1_0000_0000) as u32;
        self.window.write32(REG_ADDR, a);
    }

    /// Configure format and capture address, then set the start bit
    /// together with auto-restart.
    pub fn start(&mut self) -> (r: Result<(), Error>)
        requires
            old(self).wf(),
        ensures
            final(self).wf(),
            Self::same_cfg(*old(self), *final(self)),
            final(self).buf() == old(self).buf(),
            match r {
                Ok(()) => {
                    &&& old(self).frame_width <= old(self).max_width
                    &&& old(self).frame_height <= old(self).max_height
                    &&& old(self).fmt_id != FMT_NONE
                    &&& final(self).win().writes() == old(self).win().writes() + old(self).spec_format_writes().push(
                        RegWrite {
                            offset: REG_ADDR,
                            value: (old(self).buf().spec_phys_addr() as int % 0x1_0000_0000) as u32,
                        },
                    ).push(RegWrite { offset: REG_CTRL, value: 0x81 })
                },
                Err(e) => {
                    &&& e == Error::Protocol
                    &&& (old(self).frame_width > old(self).max_width || old(self).frame_height
                        > old(self).max_height || old(self).fmt_id == FMT_NONE)
                    &&& *final(self) == *old(self)
                },
            },
    {
        self.write_format()?;
        self.set_framebuf_addr();
        self.window.write32(REG_CTRL, 0x81);
        proof {
            assert(final(self).win().writes() =~= old(self).win().writes() + old(self).spec_format_writes().push(
                RegWrite {
                    offset: REG_ADDR,
                    value: (old(self).buf().spec_phys_addr() as int % 0x1_0000_0000) as u32,
                },
            ).push(RegWrite { offset: REG_CTRL, value: 0x81 }));
        }
        Ok(())
    }

    /// Configure the format, then set the start bit alone for a single
    /// capture.
    pub fn start_once(&mut self) -> (r: Result<(), Error>)
        requires
            old(self).wf(),
        ensures
            final(self).wf(),
            Self::same_cfg(*old(self), *final(self)),
            final(self).buf() == old(self).buf(),
            match r {
                Ok(()) => {
                    &&& old(self).frame_width <= old(self).max_width
                    &&& old(self).frame_height <= old(self).max_height
                    &&& old(self).fmt_id != FMT_NONE
                    &&& final(self).win().writes() == old(self).win().writes() + old(self).spec_format_writes().push(RegWrite { offset: REG_CTRL, value: 0x01 })
                },
                Err(e) => {
                    &&& e == Error::Protocol
                    &&& (old(self).frame_width > old(self).max_width || old(self).frame_height
                        > old(self).max_height || old(self).fmt_id == FMT_NONE)
                    &&& *final(self) == *old(self)
                },
            },
    {
        self.write_format()?;
        self.window.write32(REG_CTRL, 0x01);
        proof {
            assert(final(self).win().writes() =~= old(self).win().writes() + old(self).spec_format_writes().push(RegWrite { offset: REG_CTRL, value: 0x01 }));
        }
        Ok(())
    }

    /// Clear auto-restart so the block stops after the current frame.
    pub fn stop(&mut self)
        requires
            old(self).wf(),
        ensures
            final(self).wf(),
            Self::same_cfg(*old(self), *final(self)),
            final(self).buf() == old(self).buf(),
            final(self).win().writes() == old(self).win().writes().push(
                RegWrite { offset: REG_CTRL, value: 0 },
            ),
            final(self).win().image() == old(self).win().image().update(
                REG_CTRL as int / 4,
                0u32,
            ),
    {
        self.set_auto_restart_enable(false);
    }

    /// Stop the block, copy the captured frame out of the DMA buffer, and
    /// start capturing again.  The frame size and format must be
    /// configured and the frame must fit the buffer.
    pub fn read_frame(&mut self) -> (r: Result<Vec<u8>, Error>)
        requires
            old(self).wf(),
        ensures
            final(self).wf(),
            Self::same_cfg(*old(self), *final(self)),
            final(self).buf() == old(self).buf(),
            match r {
                Ok(v) => {
                    &&& old(self).frame_width <= old(self).max_width
                    &&& old(self).frame_height <= old(self).max_height
                    &&& old(self).fmt_id != FMT_NONE
                    &&& old(self).spec_frame_bytes() <= old(self).buf().contents().len()
                    &&& v@ == old(self).buf().contents().subrange(
                        0,
                        old(self).spec_frame_bytes(),
                    )
                    &&& final(self).win().writes() == old(self).win().writes().push(
                        RegWrite { offset: REG_CTRL, value: 0 },
                    ) + old(self).spec_format_writes().push(
                        RegWrite {
                            offset: REG_ADDR,
                            value: (old(self).buf().spec_phys_addr() as int % 0x1_0000_0000) as u32,
                        },
                    ).push(RegWrite { offset: REG_CTRL, value: 0x81 })
                },
                Err(e) => {
                    &&& (e == Error::Protocol ==> (old(self).frame_width > old(self).max_width
                        || old(self).frame_height > old(self).max_height || old(self).fmt_id
                        == FMT_NONE))
                    &&& (e == Error::Resource ==> old(self).spec_frame_bytes() > old(self).buf().contents().len())
                    &&& (e == Error::Protocol || e == Error::Resource)
                    &&& *final(self) == *old(self)
                },
            },
    {
        if self.frame_width > self.max_width || self.frame_height > self.max_height
            || self.fmt_id == FMT_NONE {
            return Err(Error::Protocol);
        }
        proof {
            assert(self.frame_width * self.frame_height <= 8192 * 8192 && self.frame_width
                * self.frame_height * self.bytes_per_pix <= 8192 * 8192 * 3)
                by (nonlinear_arith)
                requires
                    0 <= self.frame_width <= 8192,
                    0 <= self.frame_height <= 8192,
                    0 <= self.bytes_per_pix <= 3,
            ;
        }
        let count64 = self.frame_width as u64 * self.frame_height as u64 * self.bytes_per_pix
            as u64;
        let count = count64 as usize;
        let out = match self.buffer.copy_to(0, count) {
            Ok(v) => v,
            Err(e) => {
                return Err(e);
            },
        };
        self.stop();
        let started = self.start();
        proof {
            assert(started is Ok);
        }
        Ok(out)
    }

    /// How many bytes one configured frame occupies.
    pub open spec fn spec_frame_bytes(&self) -> int {
        self.frame_width * self.frame_height * self.bytes_per_pix
    }

    /// Choose the pixel format by name: `"YUYV"` or `"RGB8"`, each only
    /// when the IP was synthesized with it.
    pub fn set_format(&mut self, fmt: &str) -> (r: Result<(), Error>)
        requires
            old(self).wf(),
        ensures
            final(self).wf(),
            final(self).buf() == old(self).buf(),
            final(self).win() == old(self).win(),
            Self::same_caps(*old(self), *final(self)),
            final(self).frame_width == old(self).frame_width,
            final(self).frame_height == old(self).frame_height,
            match r {
                Ok(()) => {
                    &&& (fmt@ == "YUYV"@ && old(self).has_yuyv8) || (fmt@ == "RGB8"@ && old(self).has_rgb8)
                    &&& (fmt@ == "YUYV"@ ==> final(self).fmt_id == FMT_YUYV8 && final(self).bytes_per_pix == 2)
                    &&& (fmt@ == "RGB8"@ ==> final(self).fmt_id == FMT_RGB8 && final(self).bytes_per_pix == 3)
                },
                Err(e) => {
                    &&& e == Error::UnsupportedFormat
                    &&& !(fmt@ == "YUYV"@ && old(self).has_yuyv8)
                    &&& !(fmt@ == "RGB8"@ && old(self).has_rgb8)
                    &&& *final(self) == *old(self)
                },
            },
    {
        proof {
            broadcast use vstd::string::group_string_axioms;

            reveal_strlit("YUYV");
            reveal_strlit("RGB8");
            assert("YUYV"@[0] == 'Y');
            assert("RGB8"@[0] == 'R');
            assert("YUYV"@ != "RGB8"@);
        }
        if str_eq(fmt, "YUYV") {
            if !self.has_yuyv8 {
                return Err(Error::UnsupportedFormat);
            }
            self.fmt_id = FMT_YUYV8;
            self.bytes_per_pix = 2;
            Ok(())
        } else if str_eq(fmt, "RGB8") {
            if !self.has_rgb8 {
                return Err(Error::UnsupportedFormat);
            }
            self.fmt_id = FMT_RGB8;
            self.bytes_per_pix = 3;
            Ok(())
        } else {
            Err(Error::UnsupportedFormat)
        }
    }

    /// The name of the current format: `"Not Set"` before any was chosen.
    pub fn get_format(&self) -> (r: Result<&'static str, Error>)
        requires
            self.wf(),
        ensures
            match r {
                Ok(s) => {
                    &&& (self.fmt_id == FMT_NONE ==> s@ == "Not Set"@)
                    &&& (self.fmt_id == FMT_YUYV8 ==> s@ == "YUYV"@)
                    &&& (self.fmt_id == FMT_RGB8 ==> s@ == "RGB8"@)
                },
                Err(_) => false,
            },
    {
        if self.fmt_id == FMT_YUYV8 {
            Ok("YUYV")
        } else if self.fmt_id == FMT_RGB8 {
            Ok("RGB8")
        } else {
            Ok("Not Set")
        }
    }

    /// The physical address of the stage's capture buffer.
    pub fn get_addr(&self) -> (r: usize)
        ensures
            r == self.buf().spec_phys_addr(),
    {
        self.buffer.phys_addr()
    }
}

} // verus!
