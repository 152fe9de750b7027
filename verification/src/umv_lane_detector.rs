//! The lane-detection accelerator: binarization and edge thresholds,
//! per-axis line-width detection windows expressed as hardware intervals,
//! and the decoder for the packed 32-bit point words the detector leaves
//! in its result buffer.

use vstd::prelude::*;

use crate::errors::Error;
use crate::fixed::{floor_log2, spec_floor_log2};
use crate::hwinfo::HwIdentity;
use crate::regio::{spec_addr_lo, DmaBuffer, RegWrite, RegisterWindow};

verus! {

/// Detector state register.
pub const LD_REG_STATUS: usize = 0x00;

/// Start strobe register.
pub const LD_REG_START: usize = 0x04;

/// Preprocessing filter selector.
pub const LD_REG_FILTER_TYPE: usize = 0x08;

/// Binarization threshold.
pub const LD_REG_BIN_THRESH: usize = 0x0C;

/// Edge filter threshold.
pub const LD_REG_EDGE_FILTER_THRESH: usize = 0x10;

/// Edge select threshold.
pub const LD_REG_EDGE_SELECT_THRESH: usize = 0x14;

/// Vertical line-width growth interval.
pub const LD_REG_VLINE_WIDTH_INTERVAL: usize = 0x18;

/// Vertical line-width minimum.
pub const LD_REG_VLINE_WIDTH_MIN: usize = 0x1C;

/// Vertical line threshold.
pub const LD_REG_VLINE_THRESH: usize = 0x20;

/// Detect interval, capped by the synthesized line capacity.
pub const LD_REG_DETECT_INTERVAL: usize = 0x24;

/// Physical base address of the result buffer.
pub const LD_REG_MEM_BASE: usize = 0x28;

/// Size of the result buffer in words.
pub const LD_REG_MEM_SIZE: usize = 0x2C;

/// How many points the detector found.
pub const LD_REG_DETECT_COUNT: usize = 0x30;

/// Video mode selector.
pub const LD_REG_VID_MODE: usize = 0x34;

/// Horizontal input mask.
pub const LD_REG_HLINE_DIN_MASK: usize = 0x38;

/// Vertical input mask.
pub const LD_REG_VLINE_DIN_MASK: usize = 0x3C;

/// Horizontal line-width growth interval.
pub const LD_REG_HLINE_WIDTH_INTERVAL: usize = 0x40;

/// Horizontal line-width minimum.
pub const LD_REG_HLINE_WIDTH_MIN: usize = 0x44;

/// Horizontal line threshold.
pub const LD_REG_HLINE_THRESH: usize = 0x48;

/// Vertical detection-width minimum.
pub const LD_REG_VLINE_WIDTH_DETECT_MIN: usize = 0x4C;

/// Horizontal detection-width minimum.
pub const LD_REG_HLINE_WIDTH_DETECT_MIN: usize = 0x50;

/// Horizon row above which lines are ignored.
pub const LD_REG_HORIZON: usize = 0x54;

/// Sequence range.
pub const LD_REG_SEQUENCE_RANGE: usize = 0x58;

/// How many 32-bit words of register window the detector needs.
pub const LD_WINDOW_WORDS: usize = 23;

/// One detected point, unpacked from the 32-bit result word.
#[derive(Clone, Copy, Debug, PartialEq, Eq, Structural)]
pub struct LanePoint {
    /// The edge direction nibble.
    pub direction: u32,
    /// The column, fourteen bits.
    pub x: u32,
    /// The row, fourteen bits.
    pub y: u32,
}

/// Unpack a result word: direction in bits 31 to 28, column in bits 27 to
/// 14, row in bits 13 to 0.
pub fn decode_lane_point(data: u32) -> (r: LanePoint)
    ensures
        r.direction == (data >> 28) & 0xF,
        r.x == (data >> 14) & 0x3FFF,
        r.y == data & 0x3FFF,
{
    LanePoint { direction: (data >> 28) & 0xF, x: (data >> 14) & 0x3FFF, y: data & 0x3FFF }
}

/// The point a result word stands for.
pub open spec fn spec_lane_point(data: u32) -> LanePoint {
    LanePoint { direction: (data >> 28) & 0xF, x: (data >> 14) & 0x3FFF, y: data & 0x3FFF }
}

/// The hardware interval that spreads a line-width window over the rows
/// below the horizon.
pub open spec fn spec_width_interval(
    image_height: u32,
    horizon: u32,
    width_min: u32,
    width_max: u32,
) -> int {
    (image_height - horizon) / (width_max - width_min + 1)
}

/// The synthesis parameters of the detector.
#[derive(Debug)]
pub struct LaneDetectorParams {
    /// Width of the analysed image in pixels.
    pub image_width: u32,
    /// Height of the analysed image in lines.
    pub image_height: u32,
    /// How many lines the detector was synthesized to track.
    pub max_detect_lines: u32,
    /// The preprocessing filter selected by default.
    pub filter_type_default: u32,
}

/// The lane-detection accelerator.
#[derive(Debug)]
pub struct UmvLaneDetector {
    /// The register window the detector programs; the runner deposits
    /// device registers here and drains the programmed writes.
    pub window: RegisterWindow,
    /// The result buffer the detector fills with packed point words.
    pub buffer: DmaBuffer,
    /// Width of the analysed image in pixels.
    pub image_width: u32,
    /// Height of the analysed image in lines.
    pub image_height: u32,
    /// The cap on the detect interval: the base-two logarithm of the
    /// synthesized line capacity.
    pub max_detect_interval: u32,
    /// Preprocessing filter selector.
    pub filter_type: u32,
    /// Binarization threshold.
    pub bin_filter_thresh: u32,
    /// Edge filter threshold.
    pub edge_filter_thresh: u32,
    /// Edge select threshold.
    pub edge_select_thresh: u32,
    /// Vertical line-width maximum.
    pub fl_vline_width_max: u32,
    /// Vertical line-width minimum.
    pub fl_vline_width_min: u32,
    /// Vertical line threshold.
    pub fl_vline_thresh: u32,
    /// Horizontal line-width maximum.
    pub fl_hline_width_max: u32,
    /// Horizontal line-width minimum.
    pub fl_hline_width_min: u32,
    /// Horizontal line threshold.
    pub fl_hline_thresh: u32,
    /// Requested detect interval, capped when programmed.
    pub fl_detect_interval: u32,
    /// Video mode selector.
    pub video_mode: u32,
    /// Horizontal input mask.
    pub fl_hline_din_mask: u32,
    /// Vertical input mask.
    pub fl_vline_din_mask: u32,
    /// Vertical detection-width minimum.
    pub fl_vline_width_detect_min: u32,
    /// Horizontal detection-width minimum.
    pub fl_hline_width_detect_min: u32,
    /// Horizon row above which lines are ignored.
    pub findlines_horizon: u32,
    /// Sequence range.
    pub fl_sequence_range: u32,
}

impl UmvLaneDetector {
    /// The driver's invariant: a large enough window and a result buffer
    /// whose word count fits a register.
    pub open spec fn wf(&self) -> bool {
        &&& self.window.image().len() >= LD_WINDOW_WORDS
        &&& self.buffer.contents().len() <= 0xFFFF_FFFF
    }

    /// Bind the driver to a `umv_lane_detector` block, with the
    /// conventional default thresholds and windows.
    pub fn new(
        id: &HwIdentity,
        params: &LaneDetectorParams,
        window: RegisterWindow,
        buffer: DmaBuffer,
    ) -> (r: Result<Self, Error>)
        ensures
            match r {
                Ok(d) => {
                    &&& id.vendor@ == "slab"@ && id.library@ == "umv_project"@ && id.name@
                        == "umv_lane_detector"@
                    &&& window.image().len() >= LD_WINDOW_WORDS
                    &&& buffer.contents().len() <= 0xFFFF_FFFF
                    &&& d.wf()
                    &&& d.window == window
                    &&& d.buffer == buffer
                    &&& d.image_width == params.image_width
                    &&& d.image_height == params.image_height
                    &&& d.max_detect_interval == spec_floor_log2(
                        params.max_detect_lines as nat,
                    )
                    &&& d.filter_type == params.filter_type_default
                    &&& d.bin_filter_thresh == 120
                    &&& d.edge_filter_thresh == 85
                    &&& d.edge_select_thresh == 3
                    &&& d.fl_vline_width_max == 70
                    &&& d.fl_vline_width_min == 70
                    &&& d.fl_vline_thresh == 30
                    &&& d.fl_hline_width_max == 65
                    &&& d.fl_hline_width_min == 65
                    &&& d.fl_hline_thresh == 15
                    &&& d.fl_detect_interval == 6
                    &&& d.video_mode == 0
                    &&& d.fl_hline_din_mask == 0b0001
                    &&& d.fl_vline_din_mask == 0b1110
                    &&& d.fl_vline_width_detect_min == 10
                    &&& d.fl_hline_width_detect_min == 10
                    &&& d.findlines_horizon == 0
                    &&& d.fl_sequence_range == 5
                },
                Err(Error::UnsupportedIp) => !(id.vendor@ == "slab"@ && id.library@
                    == "umv_project"@ && id.name@ == "umv_lane_detector"@),
                Err(Error::Resource) => {
                    &&& id.vendor@ == "slab"@ && id.library@ == "umv_project"@ && id.name@
                        == "umv_lane_detector"@
                    &&& (window.image().len() < LD_WINDOW_WORDS || buffer.contents().len()
                        > 0xFFFF_FFFF)
                },
                Err(_) => false,
            },
    {
        if !id.matches("slab", "umv_project", "umv_lane_detector") {
            return Err(Error::UnsupportedIp);
        }
        if window.word_len() < LD_WINDOW_WORDS || buffer.size() > 0xFFFF_FFFF {
            return Err(Error::Resource);
        }
        let max_detect_interval = floor_log2(params.max_detect_lines);
        Ok(
            UmvLaneDetector {
                window,
                buffer,
                image_width: params.image_width,
                image_height: params.image_height,
                max_detect_interval,
                filter_type: params.filter_type_default,
                bin_filter_thresh: 120,
                edge_filter_thresh: 85,
                edge_select_thresh: 3,
                fl_vline_width_max: 70,
                fl_vline_width_min: 70,
                fl_vline_thresh: 30,
                fl_hline_width_max: 65,
                fl_hline_width_min: 65,
                fl_hline_thresh: 15,
                fl_detect_interval: 6,
                video_mode: 0,
                fl_hline_din_mask: 0b0001,
                fl_vline_din_mask: 0b1110,
                fl_vline_width_detect_min: 10,
                fl_hline_width_detect_min: 10,
                findlines_horizon: 0,
                fl_sequence_range: 5,
            },
        )
    }

    /// Everything of the driver but the register window.
    pub open spec fn same_cfg(a: Self, b: Self) -> bool {
        &&& a.buffer == b.buffer
        &&& a.image_width == b.image_width
        &&& a.image_height == b.image_height
        &&& a.max_detect_interval == b.max_detect_interval
        &&& a.filter_type == b.filter_type
        &&& a.bin_filter_thresh == b.bin_filter_thresh
        &&& a.edge_filter_thresh == b.edge_filter_thresh
        &&& a.edge_select_thresh == b.edge_select_thresh
        &&& a.fl_vline_width_max == b.fl_vline_width_max
        &&& a.fl_vline_width_min == b.fl_vline_width_min
        &&& a.fl_vline_thresh == b.fl_vline_thresh
        &&& a.fl_hline_width_max == b.fl_hline_width_max
        &&& a.fl_hline_width_min == b.fl_hline_width_min
        &&& a.fl_hline_thresh == b.fl_hline_thresh
        &&& a.fl_detect_interval == b.fl_detect_interval
        &&& a.video_mode == b.video_mode
        &&& a.fl_hline_din_mask == b.fl_hline_din_mask
        &&& a.fl_vline_din_mask == b.fl_vline_din_mask
        &&& a.fl_vline_width_detect_min == b.fl_vline_width_detect_min
        &&& a.fl_hline_width_detect_min == b.fl_hline_width_detect_min
        &&& a.findlines_horizon == b.findlines_horizon
        &&& a.fl_sequence_range == b.fl_sequence_range
    }

    /// The detector's state word: idle, waiting, running or done.
    pub fn get_status(&self) -> (r: u32)
        requires
            self.wf(),
        ensures
            r == self.window.image()[LD_REG_STATUS as int / 4],
    {
        self.window.read32(LD_REG_STATUS)
    }

    /// Whether the state word reports idle.
    pub fn is_idle(&self) -> (r: bool)
        requires
            self.wf(),
        ensures
            r == (self.window.image()[LD_REG_STATUS as int / 4] == 0),
    {
        self.get_status() == 0
    }

    /// Whether the state word reports waiting.
    pub fn is_waiting(&self) -> (r: bool)
        requires
            self.wf(),
        ensures
            r == (self.window.image()[LD_REG_STATUS as int / 4] == 1),
    {
        self.get_status() == 1
    }

    /// Whether the state word reports running.
    pub fn is_running(&self) -> (r: bool)
        requires
            self.wf(),
        ensures
            r == (self.window.image()[LD_REG_STATUS as int / 4] == 2),
    {
        self.get_status() == 2
    }

    /// Whether the state word reports done.
    pub fn is_done(&self) -> (r: bool)
        requires
            self.wf(),
        ensures
            r == (self.window.image()[LD_REG_STATUS as int / 4] == 3),
    {
        self.get_status() == 3
    }

    /// The detection windows the intervals are derived from must be
    /// coherent: the horizon inside the image and each width window
    /// nonempty.
    pub open spec fn windows_ok(&self) -> bool {
        &&& self.findlines_horizon <= self.image_height
        &&& self.fl_vline_width_min <= self.fl_vline_width_max
        &&& self.fl_hline_width_min <= self.fl_hline_width_max
    }

    /// The write sequence of a full configuration pass, in the order the
    /// registers are programmed.
    pub open spec fn spec_configure_writes(&self) -> Seq<RegWrite> {
        seq![
            RegWrite { offset: LD_REG_FILTER_TYPE, value: self.filter_type },
            RegWrite { offset: LD_REG_BIN_THRESH, value: self.bin_filter_thresh },
            RegWrite { offset: LD_REG_EDGE_FILTER_THRESH, value: self.edge_filter_thresh },
            RegWrite { offset: LD_REG_EDGE_SELECT_THRESH, value: self.edge_select_thresh },
            RegWrite {
                offset: LD_REG_VLINE_WIDTH_INTERVAL,
                value: spec_width_interval(
                    self.image_height,
                    self.findlines_horizon,
                    self.fl_vline_width_min,
                    self.fl_vline_width_max,
                ) as u32,
            },
            RegWrite { offset: LD_REG_VLINE_WIDTH_MIN, value: self.fl_vline_width_min },
            RegWrite { offset: LD_REG_VLINE_THRESH, value: self.fl_vline_thresh },
            RegWrite {
                offset: LD_REG_HLINE_WIDTH_INTERVAL,
                value: spec_width_interval(
                    self.image_height,
                    self.findlines_horizon,
                    self.fl_hline_width_min,
                    self.fl_hline_width_max,
                ) as u32,
            },
            RegWrite { offset: LD_REG_HLINE_WIDTH_MIN, value: self.fl_hline_width_min },
            RegWrite { offset: LD_REG_HLINE_THRESH, value: self.fl_hline_thresh },
            RegWrite {
                offset: LD_REG_DETECT_INTERVAL,
                value: if self.fl_detect_interval < self.max_detect_interval {
                    self.fl_detect_interval
                } else {
                    self.max_detect_interval
                },
            },
            RegWrite { offset: LD_REG_VID_MODE, value: self.video_mode },
            RegWrite { offset: LD_REG_HLINE_DIN_MASK, value: self.fl_hline_din_mask },
            RegWrite { offset: LD_REG_VLINE_DIN_MASK, value: self.fl_vline_din_mask },
            RegWrite {
                offset: LD_REG_MEM_BASE,
                value: spec_addr_lo(self.buffer.spec_phys_addr()),
            },
            RegWrite {
                offset: LD_REG_MEM_SIZE,
                value: (self.buffer.contents().len() / 4) as u32,
            },
            RegWrite {
                offset: LD_REG_VLINE_WIDTH_DETECT_MIN,
                value: self.fl_vline_width_detect_min,
            },
            RegWrite {
                offset: LD_REG_HLINE_WIDTH_DETECT_MIN,
                value: self.fl_hline_width_detect_min,
            },
            RegWrite { offset: LD_REG_HORIZON, value: self.findlines_horizon },
            RegWrite { offset: LD_REG_SEQUENCE_RANGE, value: self.fl_sequence_range },
        ]
    }

    /// Program every configuration register, deriving both line-width
    /// intervals, capping the detect interval, and binding the result
    /// buffer.  Incoherent windows are refused before anything is
    /// written.
    pub fn configure_all(&mut self) -> (r: Result<(), Error>)
        requires
            old(self).wf(),
        ensures
            final(self).wf(),
            Self::same_cfg(*old(self), *final(self)),
            match r {
                Ok(()) => {
                    &&& old(self).windows_ok()
                    &&& final(self).window.writes() == old(self).window.writes() + old(
                        self,
                    ).spec_configure_writes()
                },
                Err(e) => {
                    &&& e == Error::Protocol
                    &&& !old(self).windows_ok()
                    &&& *final(self) == *old(self)
                },
            },
    {
        if self.findlines_horizon > self.image_height || self.fl_vline_width_min
            > self.fl_vline_width_max || self.fl_hline_width_min > self.fl_hline_width_max {
            return Err(Error::Protocol);
        }
        let span = self.image_height - self.findlines_horizon;
        let vdiv = (self.fl_vline_width_max - self.fl_vline_width_min) as u64 + 1;
        let v_interval = (span as u64 / vdiv) as u32;
        let hdiv = (self.fl_hline_width_max - self.fl_hline_width_min) as u64 + 1;
        let h_interval = (span as u64 / hdiv) as u32;
        let detect = if self.fl_detect_interval < self.max_detect_interval {
            self.fl_detect_interval
        } else {
            self.max_detect_interval
        };
        let mem_base = (self.buffer.phys_addr() as u64 % 0x1_0000_0000) as u32;
        let mem_size = (self.buffer.size() / 4) as u32;
        self.window.write32(LD_REG_FILTER_TYPE, self.filter_type);
        self.window.write32(LD_REG_BIN_THRESH, self.bin_filter_thresh);
        self.window.write32(LD_REG_EDGE_FILTER_THRESH, self.edge_filter_thresh);
        self.window.write32(LD_REG_EDGE_SELECT_THRESH, self.edge_select_thresh);
        self.window.write32(LD_REG_VLINE_WIDTH_INTERVAL, v_interval);
        self.window.write32(LD_REG_VLINE_WIDTH_MIN, self.fl_vline_width_min);
        self.window.write32(LD_REG_VLINE_THRESH, self.fl_vline_thresh);
        self.window.write32(LD_REG_HLINE_WIDTH_INTERVAL, h_interval);
        self.window.write32(LD_REG_HLINE_WIDTH_MIN, self.fl_hline_width_min);
        self.window.write32(LD_REG_HLINE_THRESH, self.fl_hline_thresh);
        self.window.write32(LD_REG_DETECT_INTERVAL, detect);
        self.window.write32(LD_REG_VID_MODE, self.video_mode);
        self.window.write32(LD_REG_HLINE_DIN_MASK, self.fl_hline_din_mask);
        self.window.write32(LD_REG_VLINE_DIN_MASK, self.fl_vline_din_mask);
        self.window.write32(LD_REG_MEM_BASE, mem_base);
        self.window.write32(LD_REG_MEM_SIZE, mem_size);
        self.window.write32(LD_REG_VLINE_WIDTH_DETECT_MIN, self.fl_vline_width_detect_min);
        self.window.write32(LD_REG_HLINE_WIDTH_DETECT_MIN, self.fl_hline_width_detect_min);
        self.window.write32(LD_REG_HORIZON, self.findlines_horizon);
        self.window.write32(LD_REG_SEQUENCE_RANGE, self.fl_sequence_range);
        proof {
            assert(final(self).window.writes() =~= old(self).window.writes() + old(
                self,
            ).spec_configure_writes());
        }
        Ok(())
    }

    /// Configure every register, then strobe the start bit.
    pub fn start(&mut self) -> (r: Result<(), Error>)
        requires
            old(self).wf(),
        ensures
            final(self).wf(),
            Self::same_cfg(*old(self), *final(self)),
            match r {
                Ok(()) => {
                    &&& old(self).windows_ok()
                    &&& final(self).window.writes() == old(self).window.writes() + old(
                        self,
                    ).spec_configure_writes().push(RegWrite { offset: LD_REG_START, value: 1 })
                },
                Err(e) => {
                    &&& e == Error::Protocol
                    &&& !old(self).windows_ok()
                    &&& *final(self) == *old(self)
                },
            },
    {
        self.configure_all()?;
        self.window.write32(LD_REG_START, 1);
        proof {
            assert(final(self).window.writes() =~= old(self).window.writes() + old(
                self,
            ).spec_configure_writes().push(RegWrite { offset: LD_REG_START, value: 1 }));
        }
        Ok(())
    }

    /// Clear the start strobe.  The detector must already report idle or
    /// done in the status image; otherwise the caller forwards the write,
    /// refreshes the image and calls again.
    pub fn stop(&mut self) -> (r: Result<(), Error>)
        requires
            old(self).wf(),
        ensures
            final(self).wf(),
            Self::same_cfg(*old(self), *final(self)),
            final(self).window.writes() == old(self).window.writes().push(
                RegWrite { offset: LD_REG_START, value: 0 },
            ),
            final(self).window.image() == old(self).window.image().update(
                LD_REG_START as int / 4,
                0u32,
            ),
            match r {
                Ok(()) => old(self).window.image()[LD_REG_STATUS as int / 4] as int % 3 == 0,
                Err(e) => {
                    &&& e == Error::Timeout
                    &&& old(self).window.image()[LD_REG_STATUS as int / 4] as int % 3 != 0
                },
            },
    {
        self.window.write32(LD_REG_START, 0);
        if self.window.read32(LD_REG_STATUS) % 3 != 0 {
            Err(Error::Timeout)
        } else {
            Ok(())
        }
    }

    /// Bind the result buffer: its physical base address and its size in
    /// words.
    pub fn write_framebuf_addr(&mut self)
        requires
            old(self).wf(),
        ensures
            final(self).wf(),
            Self::same_cfg(*old(self), *final(self)),
            final(self).window.writes() == old(self).window.writes() + seq![
                RegWrite {
                    offset: LD_REG_MEM_BASE,
                    value: spec_addr_lo(old(self).buffer.spec_phys_addr()),
                },
                RegWrite {
                    offset: LD_REG_MEM_SIZE,
                    value: (old(self).buffer.contents().len() / 4) as u32,
                },
            ],
    {
        let mem_base = (self.buffer.phys_addr() as u64 % 0x1_0000_0000) as u32;
        let mem_size = (self.buffer.size() / 4) as u32;
        self.window.write32(LD_REG_MEM_BASE, mem_base);
        self.window.write32(LD_REG_MEM_SIZE, mem_size);
        proof {
            assert(final(self).window.writes() =~= old(self).window.writes() + seq![
                RegWrite {
                    offset: LD_REG_MEM_BASE,
                    value: spec_addr_lo(old(self).buffer.spec_phys_addr()),
                },
                RegWrite {
                    offset: LD_REG_MEM_SIZE,
                    value: (old(self).buffer.contents().len() / 4) as u32,
                },
            ]);
        }
    }

    /// Stop the detector and decode every point it reported: the count
    /// register bounded by the buffer's capacity, each word unpacked by
    /// [`decode_lane_point`].
    pub fn read_data(&mut self) -> (r: Result<Vec<LanePoint>, Error>)
        requires
            old(self).wf(),
        ensures
            final(self).wf(),
            Self::same_cfg(*old(self), *final(self)),
            final(self).window.writes() == old(self).window.writes().push(
                RegWrite { offset: LD_REG_START, value: 0 },
            ),
            match r {
                Ok(v) => {
                    let img = old(self).window.image();
                    let count = img[LD_REG_DETECT_COUNT as int / 4] as int;
                    let cap = old(self).buffer.contents().len() / 4;
                    let n = if count < cap {
                        count
                    } else {
                        cap as int
                    };
                    &&& img[LD_REG_STATUS as int / 4] as int % 3 == 0
                    &&& v@.len() == n
                    &&& forall|i: int|
                        0 <= i < n ==> v@[i] == spec_lane_point(
                            crate::regio::DmaBuffer::word_at(
                                old(self).buffer.contents(),
                                i,
                            ),
                        )
                },
                Err(e) => {
                    &&& e == Error::Timeout
                    &&& old(self).window.image()[LD_REG_STATUS as int / 4] as int % 3 != 0
                },
            },
    {
        self.stop()?;
        let count = self.window.read32(LD_REG_DETECT_COUNT) as usize;
        let cap = self.buffer.size() / 4;
        let n = if count < cap {
            count
        } else {
            cap
        };
        let mut out: Vec<LanePoint> = Vec::new();
        let mut i: usize = 0;
        while i < n
            invariant
                old(self).wf(),
                self.wf(),
                Self::same_cfg(*old(self), *self),
                self.buffer == old(self).buffer,
                i <= n,
                n <= self.buffer.contents().len() / 4,
                out@.len() == i,
                forall|j: int|
                    0 <= j < i ==> out@[j] == spec_lane_point(
                        crate::regio::DmaBuffer::word_at(self.buffer.contents(), j),
                    ),
            decreases n - i,
        {
            let w = match self.buffer.read_word(i) {
                Ok(w) => w,
                Err(_) => {
                    proof {
                        assert(false);
                    }
                    return Err(Error::Timeout);
                },
            };
            out.push(decode_lane_point(w));
            i = i + 1;
        }
        Ok(out)
    }

    /// Program the preprocessing filter selector.
    pub fn write_filter_type(&mut self)
        requires
            old(self).wf(),
        ensures
            final(self).wf(),
            Self::same_cfg(*old(self), *final(self)),
            final(self).window.writes() == old(self).window.writes().push(
                RegWrite { offset: LD_REG_FILTER_TYPE, value: old(self).filter_type },
            ),
    {
        self.window.write32(LD_REG_FILTER_TYPE, self.filter_type);
    }

    /// Program the binarization threshold.
    pub fn write_bin_filter_thresh(&mut self)
        requires
            old(self).wf(),
        ensures
            final(self).wf(),
            Self::same_cfg(*old(self), *final(self)),
            final(self).window.writes() == old(self).window.writes().push(
                RegWrite { offset: LD_REG_BIN_THRESH, value: old(self).bin_filter_thresh },
            ),
    {
        self.window.write32(LD_REG_BIN_THRESH, self.bin_filter_thresh);
    }

    /// Program the edge filter threshold.
    pub fn write_edge_filter_thresh(&mut self)
        requires
            old(self).wf(),
        ensures
            final(self).wf(),
            Self::same_cfg(*old(self), *final(self)),
            final(self).window.writes() == old(self).window.writes().push(
                RegWrite {
                    offset: LD_REG_EDGE_FILTER_THRESH,
                    value: old(self).edge_filter_thresh,
                },
            ),
    {
        self.window.write32(LD_REG_EDGE_FILTER_THRESH, self.edge_filter_thresh);
    }

    /// Program the edge select threshold.
    pub fn write_edge_select_thresh(&mut self)
        requires
            old(self).wf(),
        ensures
            final(self).wf(),
            Self::same_cfg(*old(self), *final(self)),
            final(self).window.writes() == old(self).window.writes().push(
                RegWrite {
                    offset: LD_REG_EDGE_SELECT_THRESH,
                    value: old(self).edge_select_thresh,
                },
            ),
    {
        self.window.write32(LD_REG_EDGE_SELECT_THRESH, self.edge_select_thresh);
    }

    /// Program the vertical line-width growth interval directly.
    pub fn write_fl_vline_width_inc_interval(&mut self, val: u32)
        requires
            old(self).wf(),
        ensures
            final(self).wf(),
            Self::same_cfg(*old(self), *final(self)),
            final(self).window.writes() == old(self).window.writes().push(
                RegWrite { offset: LD_REG_VLINE_WIDTH_INTERVAL, value: val },
            ),
    {
        self.window.write32(LD_REG_VLINE_WIDTH_INTERVAL, val);
    }

    /// Program the vertical line-width minimum.
    pub fn write_fl_vline_width_min(&mut self)
        requires
            old(self).wf(),
        ensures
            final(self).wf(),
            Self::same_cfg(*old(self), *final(self)),
            final(self).window.writes() == old(self).window.writes().push(
                RegWrite { offset: LD_REG_VLINE_WIDTH_MIN, value: old(self).fl_vline_width_min },
            ),
    {
        self.window.write32(LD_REG_VLINE_WIDTH_MIN, self.fl_vline_width_min);
    }

    /// Derive and program the vertical line-width window: the growth
    /// interval spreads the window over the rows below the horizon.
    pub fn write_fl_vline_width(&mut self) -> (r: Result<(), Error>)
        requires
            old(self).wf(),
        ensures
            final(self).wf(),
            Self::same_cfg(*old(self), *final(self)),
            match r {
                Ok(()) => {
                    &&& old(self).findlines_horizon <= old(self).image_height
                    &&& old(self).fl_vline_width_min <= old(self).fl_vline_width_max
                    &&& final(self).window.writes() == old(self).window.writes() + seq![
                        RegWrite {
                            offset: LD_REG_VLINE_WIDTH_INTERVAL,
                            value: spec_width_interval(
                                old(self).image_height,
                                old(self).findlines_horizon,
                                old(self).fl_vline_width_min,
                                old(self).fl_vline_width_max,
                            ) as u32,
                        },
                        RegWrite {
                            offset: LD_REG_VLINE_WIDTH_MIN,
                            value: old(self).fl_vline_width_min,
                        },
                    ]
                },
                Err(e) => {
                    &&& e == Error::Protocol
                    &&& (old(self).findlines_horizon > old(self).image_height || old(
                        self,
                    ).fl_vline_width_min > old(self).fl_vline_width_max)
                    &&& *final(self) == *old(self)
                },
            },
    {
        if self.findlines_horizon > self.image_height || self.fl_vline_width_min
            > self.fl_vline_width_max {
            return Err(Error::Protocol);
        }
        let span = self.image_height - self.findlines_horizon;
        let vdiv = (self.fl_vline_width_max - self.fl_vline_width_min) as u64 + 1;
        let interval = (span as u64 / vdiv) as u32;
        self.write_fl_vline_width_inc_interval(interval);
        self.write_fl_vline_width_min();
        proof {
            assert(final(self).window.writes() =~= old(self).window.writes() + seq![
                RegWrite {
                    offset: LD_REG_VLINE_WIDTH_INTERVAL,
                    value: spec_width_interval(
                        old(self).image_height,
                        old(self).findlines_horizon,
                        old(self).fl_vline_width_min,
                        old(self).fl_vline_width_max,
                    ) as u32,
                },
                RegWrite {
                    offset: LD_REG_VLINE_WIDTH_MIN,
                    value: old(self).fl_vline_width_min,
                },
            ]);
        }
        Ok(())
    }

    /// Program the vertical line threshold.
    pub fn write_fl_vline_thresh(&mut self)
        requires
            old(self).wf(),
        ensures
            final(self).wf(),
            Self::same_cfg(*old(self), *final(self)),
            final(self).window.writes() == old(self).window.writes().push(
                RegWrite { offset: LD_REG_VLINE_THRESH, value: old(self).fl_vline_thresh },
            ),
    {
        self.window.write32(LD_REG_VLINE_THRESH, self.fl_vline_thresh);
    }

    /// Program the horizontal line-width growth interval directly.
    pub fn write_fl_hline_width_inc_interval(&mut self, val: u32)
        requires
            old(self).wf(),
        ensures
            final(self).wf(),
            Self::same_cfg(*old(self), *final(self)),
            final(self).window.writes() == old(self).window.writes().push(
                RegWrite { offset: LD_REG_HLINE_WIDTH_INTERVAL, value: val },
            ),
    {
        self.window.write32(LD_REG_HLINE_WIDTH_INTERVAL, val);
    }

    /// Program the horizontal line-width minimum.
    pub fn write_fl_hline_width_min(&mut self)
        requires
            old(self).wf(),
        ensures
            final(self).wf(),
            Self::same_cfg(*old(self), *final(self)),
            final(self).window.writes() == old(self).window.writes().push(
                RegWrite { offset: LD_REG_HLINE_WIDTH_MIN, value: old(self).fl_hline_width_min },
            ),
    {
        self.window.write32(LD_REG_HLINE_WIDTH_MIN, self.fl_hline_width_min);
    }

    /// Derive and program the horizontal line-width window.
    pub fn write_fl_hline_width(&mut self) -> (r: Result<(), Error>)
        requires
            old(self).wf(),
        ensures
            final(self).wf(),
            Self::same_cfg(*old(self), *final(self)),
            match r {
                Ok(()) => {
                    &&& old(self).findlines_horizon <= old(self).image_height
                    &&& old(self).fl_hline_width_min <= old(self).fl_hline_width_max
                    &&& final(self).window.writes() == old(self).window.writes() + seq![
                        RegWrite {
                            offset: LD_REG_HLINE_WIDTH_INTERVAL,
                            value: spec_width_interval(
                                old(self).image_height,
                                old(self).findlines_horizon,
                                old(self).fl_hline_width_min,
                                old(self).fl_hline_width_max,
                            ) as u32,
                        },
                        RegWrite {
                            offset: LD_REG_HLINE_WIDTH_MIN,
                            value: old(self).fl_hline_width_min,
                        },
                    ]
                },
                Err(e) => {
                    &&& e == Error::Protocol
                    &&& (old(self).findlines_horizon > old(self).image_height || old(
                        self,
                    ).fl_hline_width_min > old(self).fl_hline_width_max)
                    &&& *final(self) == *old(self)
                },
            },
    {
        if self.findlines_horizon > self.image_height || self.fl_hline_width_min
            > self.fl_hline_width_max {
            return Err(Error::Protocol);
        }
        let span = self.image_height - self.findlines_horizon;
        let hdiv = (self.fl_hline_width_max - self.fl_hline_width_min) as u64 + 1;
        let interval = (span as u64 / hdiv) as u32;
        self.write_fl_hline_width_inc_interval(interval);
        self.write_fl_hline_width_min();
        proof {
            assert(final(self).window.writes() =~= old(self).window.writes() + seq![
                RegWrite {
                    offset: LD_REG_HLINE_WIDTH_INTERVAL,
                    value: spec_width_interval(
                        old(self).image_height,
                        old(self).findlines_horizon,
                        old(self).fl_hline_width_min,
                        old(self).fl_hline_width_max,
                    ) as u32,
                },
                RegWrite {
                    offset: LD_REG_HLINE_WIDTH_MIN,
                    value: old(self).fl_hline_width_min,
                },
            ]);
        }
        Ok(())
    }

    /// Program the horizontal line threshold.
    pub fn write_fl_hline_thresh(&mut self)
        requires
            old(self).wf(),
        ensures
            final(self).wf(),
            Self::same_cfg(*old(self), *final(self)),
            final(self).window.writes() == old(self).window.writes().push(
                RegWrite { offset: LD_REG_HLINE_THRESH, value: old(self).fl_hline_thresh },
            ),
    {
        self.window.write32(LD_REG_HLINE_THRESH, self.fl_hline_thresh);
    }

    /// Program the detect interval, capped at the base-two logarithm of
    /// the synthesized line capacity.
    pub fn write_fl_detect_interval(&mut self)
        requires
            old(self).wf(),
        ensures
            final(self).wf(),
            Self::same_cfg(*old(self), *final(self)),
            final(self).window.writes() == old(self).window.writes().push(
                RegWrite {
                    offset: LD_REG_DETECT_INTERVAL,
                    value: if old(self).fl_detect_interval < old(self).max_detect_interval {
                        old(self).fl_detect_interval
                    } else {
                        old(self).max_detect_interval
                    },
                },
            ),
    {
        let v = if self.fl_detect_interval < self.max_detect_interval {
            self.fl_detect_interval
        } else {
            self.max_detect_interval
        };
        self.window.write32(LD_REG_DETECT_INTERVAL, v);
    }

    /// Program the video mode selector.
    pub fn write_vid_mode(&mut self)
        requires
            old(self).wf(),
        ensures
            final(self).wf(),
            Self::same_cfg(*old(self), *final(self)),
            final(self).window.writes() == old(self).window.writes().push(
                RegWrite { offset: LD_REG_VID_MODE, value: old(self).video_mode },
            ),
    {
        self.window.write32(LD_REG_VID_MODE, self.video_mode);
    }

    /// Program the horizontal input mask.
    pub fn write_fl_hline_din_mask(&mut self)
        requires
            old(self).wf(),
        ensures
            final(self).wf(),
            Self::same_cfg(*old(self), *final(self)),
            final(self).window.writes() == old(self).window.writes().push(
                RegWrite { offset: LD_REG_HLINE_DIN_MASK, value: old(self).fl_hline_din_mask },
            ),
    {
        self.window.write32(LD_REG_HLINE_DIN_MASK, self.fl_hline_din_mask);
    }

    /// Program the vertical input mask.
    pub fn write_fl_vline_din_mask(&mut self)
        requires
            old(self).wf(),
        ensures
            final(self).wf(),
            Self::same_cfg(*old(self), *final(self)),
            final(self).window.writes() == old(self).window.writes().push(
                RegWrite { offset: LD_REG_VLINE_DIN_MASK, value: old(self).fl_vline_din_mask },
            ),
    {
        self.window.write32(LD_REG_VLINE_DIN_MASK, self.fl_vline_din_mask);
    }

    /// Program the vertical detection-width minimum.
    pub fn write_fl_vline_width_detect_min(&mut self)
        requires
            old(self).wf(),
        ensures
            final(self).wf(),
            Self::same_cfg(*old(self), *final(self)),
            final(self).window.writes() == old(self).window.writes().push(
                RegWrite {
                    offset: LD_REG_VLINE_WIDTH_DETECT_MIN,
                    value: old(self).fl_vline_width_detect_min,
                },
            ),
    {
        self.window.write32(LD_REG_VLINE_WIDTH_DETECT_MIN, self.fl_vline_width_detect_min);
    }

    /// Program the horizontal detection-width minimum.
    pub fn write_fl_hline_width_detect_min(&mut self)
        requires
            old(self).wf(),
        ensures
            final(self).wf(),
            Self::same_cfg(*old(self), *final(self)),
            final(self).window.writes() == old(self).window.writes().push(
                RegWrite {
                    offset: LD_REG_HLINE_WIDTH_DETECT_MIN,
                    value: old(self).fl_hline_width_detect_min,
                },
            ),
    {
        self.window.write32(LD_REG_HLINE_WIDTH_DETECT_MIN, self.fl_hline_width_detect_min);
    }

    /// Program the horizon row; a horizon below the image is refused.
    pub fn write_findlines_horizon(&mut self) -> (r: Result<(), Error>)
        requires
            old(self).wf(),
        ensures
            final(self).wf(),
            Self::same_cfg(*old(self), *final(self)),
            match r {
                Ok(()) => {
                    &&& old(self).findlines_horizon <= old(self).image_height
                    &&& final(self).window.writes() == old(self).window.writes().push(
                        RegWrite { offset: LD_REG_HORIZON, value: old(self).findlines_horizon },
                    )
                },
                Err(e) => {
                    &&& e == Error::Protocol
                    &&& old(self).findlines_horizon > old(self).image_height
                    &&& *final(self) == *old(self)
                },
            },
    {
        if self.findlines_horizon > self.image_height {
            return Err(Error::Protocol);
        }
        self.window.write32(LD_REG_HORIZON, self.findlines_horizon);
        Ok(())
    }

    /// Program the sequence range.
    pub fn write_fl_sequence_range(&mut self)
        requires
            old(self).wf(),
        ensures
            final(self).wf(),
            Self::same_cfg(*old(self), *final(self)),
            final(self).window.writes() == old(self).window.writes().push(
                RegWrite { offset: LD_REG_SEQUENCE_RANGE, value: old(self).fl_sequence_range },
            ),
    {
        self.window.write32(LD_REG_SEQUENCE_RANGE, self.fl_sequence_range);
    }

    /// Read the configuration back out of the register image,
    /// reconstructing both width maxima from the programmed intervals.  A
    /// zero interval, a horizon beyond the image, or a reconstructed
    /// value outside the register range stops the read with
    /// [`Error::Protocol`] before anything changes.
    pub fn read_params(&mut self) -> (r: Result<(), Error>)
        requires
            old(self).wf(),
        ensures
            final(self).wf(),
            final(self).window == old(self).window,
            final(self).buffer == old(self).buffer,
            final(self).image_width == old(self).image_width,
            final(self).image_height == old(self).image_height,
            final(self).max_detect_interval == old(self).max_detect_interval,
            match r {
                Ok(()) => {
                    let img = old(self).window.image();
                    &&& final(self).filter_type == img[LD_REG_FILTER_TYPE as int / 4]
                    &&& final(self).bin_filter_thresh == img[LD_REG_BIN_THRESH as int / 4]
                    &&& final(self).edge_filter_thresh == img[LD_REG_EDGE_FILTER_THRESH
                        as int / 4]
                    &&& final(self).edge_select_thresh == img[LD_REG_EDGE_SELECT_THRESH
                        as int / 4]
                    &&& final(self).findlines_horizon == img[LD_REG_HORIZON as int / 4]
                    &&& final(self).fl_vline_width_min == img[LD_REG_VLINE_WIDTH_MIN as int
                        / 4]
                    &&& final(self).fl_vline_width_max == (old(self).image_height
                        - img[LD_REG_HORIZON as int / 4]) / (img[LD_REG_VLINE_WIDTH_INTERVAL
                        as int / 4] as int) + img[LD_REG_VLINE_WIDTH_MIN as int / 4] - 1
                    &&& final(self).fl_vline_thresh == img[LD_REG_VLINE_THRESH as int / 4]
                    &&& final(self).fl_hline_width_min == img[LD_REG_HLINE_WIDTH_MIN as int
                        / 4]
                    &&& final(self).fl_hline_width_max == (old(self).image_height
                        - img[LD_REG_HORIZON as int / 4]) / (img[LD_REG_HLINE_WIDTH_INTERVAL
                        as int / 4] as int) + img[LD_REG_HLINE_WIDTH_MIN as int / 4] - 1
                    &&& final(self).fl_hline_thresh == img[LD_REG_HLINE_THRESH as int / 4]
                    &&& final(self).fl_detect_interval == img[LD_REG_DETECT_INTERVAL as int
                        / 4]
                    &&& final(self).video_mode == img[LD_REG_VID_MODE as int / 4]
                    &&& final(self).fl_hline_din_mask == img[LD_REG_HLINE_DIN_MASK as int / 4]
                    &&& final(self).fl_vline_din_mask == img[LD_REG_VLINE_DIN_MASK as int / 4]
                    &&& final(self).fl_sequence_range == img[LD_REG_SEQUENCE_RANGE as int / 4]
                },
                Err(e) => {
                    let img = old(self).window.image();
                    let horizon = img[LD_REG_HORIZON as int / 4];
                    let vint = img[LD_REG_VLINE_WIDTH_INTERVAL as int / 4];
                    let hint = img[LD_REG_HLINE_WIDTH_INTERVAL as int / 4];
                    let vmax = (old(self).image_height - horizon) / (vint as int)
                        + img[LD_REG_VLINE_WIDTH_MIN as int / 4];
                    let hmax = (old(self).image_height - horizon) / (hint as int)
                        + img[LD_REG_HLINE_WIDTH_MIN as int / 4];
                    &&& e == Error::Protocol
                    &&& *final(self) == *old(self)
                    &&& (horizon > old(self).image_height || vint == 0 || hint == 0 || vmax
                        < 1 || vmax - 1 > u32::MAX || hmax < 1 || hmax - 1 > u32::MAX)
                },
            },
    {
        let img_height = self.image_height;
        let horizon = self.window.read32(LD_REG_HORIZON);
        if horizon > img_height {
            return Err(Error::Protocol);
        }
        let span = img_height - horizon;
        let v_interval = self.window.read32(LD_REG_VLINE_WIDTH_INTERVAL);
        let h_interval = self.window.read32(LD_REG_HLINE_WIDTH_INTERVAL);
        if v_interval == 0 || h_interval == 0 {
            return Err(Error::Protocol);
        }
        let v_min = self.window.read32(LD_REG_VLINE_WIDTH_MIN);
        let h_min = self.window.read32(LD_REG_HLINE_WIDTH_MIN);
        let v_max64 = (span / v_interval) as u64 + v_min as u64;
        let h_max64 = (span / h_interval) as u64 + h_min as u64;
        if v_max64 < 1 || v_max64 - 1 > u32::MAX as u64 || h_max64 < 1 || h_max64 - 1
            > u32::MAX as u64 {
            return Err(Error::Protocol);
        }
        self.filter_type = self.window.read32(LD_REG_FILTER_TYPE);
        self.bin_filter_thresh = self.window.read32(LD_REG_BIN_THRESH);
        self.edge_filter_thresh = self.window.read32(LD_REG_EDGE_FILTER_THRESH);
        self.edge_select_thresh = self.window.read32(LD_REG_EDGE_SELECT_THRESH);
        self.fl_vline_width_min = v_min;
        self.findlines_horizon = horizon;
        self.fl_vline_width_max = (v_max64 - 1) as u32;
        self.fl_vline_thresh = self.window.read32(LD_REG_VLINE_THRESH);
        self.fl_hline_width_min = h_min;
        self.fl_hline_width_max = (h_max64 - 1) as u32;
        self.fl_hline_thresh = self.window.read32(LD_REG_HLINE_THRESH);
        self.fl_detect_interval = self.window.read32(LD_REG_DETECT_INTERVAL);
        self.video_mode = self.window.read32(LD_REG_VID_MODE);
        self.fl_hline_din_mask = self.window.read32(LD_REG_HLINE_DIN_MASK);
        self.fl_vline_din_mask = self.window.read32(LD_REG_VLINE_DIN_MASK);
        self.fl_sequence_range = self.window.read32(LD_REG_SEQUENCE_RANGE);
        Ok(())
    }

    /// The width of the analysed image in pixels.
    pub fn get_image_width(&self) -> (r: u32)
        ensures
            r == self.image_width,
    {
        self.image_width
    }

    /// The height of the analysed image in lines.
    pub fn get_image_height(&self) -> (r: u32)
        ensures
            r == self.image_height,
    {
        self.image_height
    }
}

} // verus!
