//! The color-space-conversion stage of the video processing subsystem: a
//! 3×3 fixed-point matrix in Q3.12, three channel offsets, and clamp
//! bounds, selected from a small table of known conversions and programmed
//! over fixed register offsets.

use vstd::prelude::*;

use crate::errors::Error;
use crate::fixed::{q312_decode, q312_encode, spec_q312_decode, spec_q312_encode, Q312_LIMIT};
use crate::hwh_parser::Ip;
use crate::regio::{RegWrite, RegisterWindow};
use crate::text::str_eq;

verus! {

/// Control register of the subsystem.
pub const CSC_REG_CTRL: usize = 0x00;

/// Input-format register; the low byte holds the format code.
pub const CSC_REG_FMT_IN: usize = 0x10;

/// Output-format register; the low byte holds the format code.
pub const CSC_REG_FMT_OUT: usize = 0x18;

/// Frame width register.
pub const CSC_REG_WIDTH: usize = 0x20;

/// Frame height register.
pub const CSC_REG_HEIGHT: usize = 0x28;

/// First matrix coefficient register; the rest follow at a spacing of
/// eight bytes.
pub const CSC_REG_MAT: usize = 0x50;

/// Red channel offset.
pub const CSC_REG_R_OFF: usize = 0x98;

/// Green channel offset.
pub const CSC_REG_G_OFF: usize = 0xA0;

/// Blue channel offset.
pub const CSC_REG_B_OFF: usize = 0xA8;

/// Lower clamp bound.
pub const CSC_REG_CLAMP_MIN: usize = 0xB0;

/// Upper clip bound.
pub const CSC_REG_CLIP_MAX: usize = 0xB8;

/// How many 32-bit words of register window the stage needs.
pub const CSC_WINDOW_WORDS: usize = 47;

/// The conversions the stage knows, plus the identity fallback for any
/// other pair of format names.
#[derive(Clone, Copy, Debug, PartialEq, Eq, Structural)]
pub enum CscPreset {
    Bt709ToRgb,
    Bt601ToRgb,
    RgbToBt709,
    RgbToBt601,
    Identity,
}

/// Which conversion a pair of format names selects: `"4:2:2"` stands for
/// BT.709 on the 4:2:2 side.
pub open spec fn spec_preset_of(src: Seq<char>, dst: Seq<char>) -> CscPreset {
    if (src == "4:2:2"@ || src == "BT.709"@) && dst == "RGB"@ {
        CscPreset::Bt709ToRgb
    } else if src == "BT.601"@ && dst == "RGB"@ {
        CscPreset::Bt601ToRgb
    } else if src == "RGB"@ && (dst == "4:2:2"@ || dst == "BT.709"@) {
        CscPreset::RgbToBt709
    } else if src == "RGB"@ && dst == "BT.601"@ {
        CscPreset::RgbToBt601
    } else {
        CscPreset::Identity
    }
}

/// The coefficient table of a preset, row-major, in ten-thousandths of a
/// unit.
pub open spec fn spec_preset_mat(p: CscPreset) -> Seq<i32> {
    match p {
        CscPreset::Bt709ToRgb => seq![
            11644i32,
            0i32,
            17927i32,
            11644i32,
            -2132i32,
            -5329i32,
            11644i32,
            21124i32,
            0i32,
        ],
        CscPreset::Bt601ToRgb => seq![
            11644i32,
            0i32,
            15906i32,
            11644i32,
            -3918i32,
            -8130i32,
            11644i32,
            20172i32,
            0i32,
        ],
        CscPreset::RgbToBt709 => seq![
            11826i32,
            6142i32,
            620i32,
            -1006i32,
            -3386i32,
            4392i32,
            4392i32,
            -3989i32,
            -403i32,
        ],
        CscPreset::RgbToBt601 => seq![
            2568i32,
            5041i32,
            979i32,
            -1482i32,
            -2910i32,
            4393i32,
            4393i32,
            -3678i32,
            -714i32,
        ],
        CscPreset::Identity => seq![
            10000i32,
            0i32,
            0i32,
            0i32,
            10000i32,
            0i32,
            0i32,
            0i32,
            10000i32,
        ],
    }
}

/// The channel offsets of a preset: red, green, blue.
pub open spec fn spec_preset_offsets(p: CscPreset) -> (int, int, int) {
    match p {
        CscPreset::Bt709ToRgb => (-248int, 77int, -289int),
        CscPreset::Bt601ToRgb => (-223int, 136int, -277int),
        CscPreset::RgbToBt709 => (16int, 128int, 128int),
        CscPreset::RgbToBt601 => (16int, 128int, 128int),
        CscPreset::Identity => (0int, 0int, 0int),
    }
}

/// The stream formats of a preset: input code, output code.
pub open spec fn spec_preset_fmts(p: CscPreset) -> (u32, u32) {
    match p {
        CscPreset::Bt709ToRgb => (2u32, 0u32),
        CscPreset::Bt601ToRgb => (2u32, 0u32),
        CscPreset::RgbToBt709 => (0u32, 2u32),
        CscPreset::RgbToBt601 => (0u32, 2u32),
        CscPreset::Identity => (0u32, 0u32),
    }
}

/// The color-space-conversion stage of a `v_proc_ss` block.
#[derive(Debug)]
pub struct VideoProcSubsystemCsc {
    /// The descriptor the stage was resolved from.
    pub hwh: Ip,
    /// The register window the stage programs; the runner deposits device
    /// registers here and drains the programmed writes.
    pub window: RegisterWindow,
    /// Frame width in pixels.
    pub frame_width: u32,
    /// Frame height in lines.
    pub frame_height: u32,
    /// Input stream format code.
    pub fmt_in: u32,
    /// Output stream format code.
    pub fmt_out: u32,
    /// Color depth in bits per channel.
    pub color_depth: u32,
    /// The contrast level the offsets currently reflect.
    pub contrast: i32,
    /// Red channel offset.
    pub red_offset: i32,
    /// Green channel offset.
    pub green_offset: i32,
    /// Blue channel offset.
    pub blue_offset: i32,
    /// Lower clamp bound.
    pub clamp_min: u32,
    /// Upper clip bound.
    pub clip_max: u32,
    /// The 3×3 coefficient matrix, row-major, in ten-thousandths.
    pub csc_mat: Vec<i32>,
}

impl VideoProcSubsystemCsc {
    /// The driver's invariant: a large enough window, nine coefficients
    /// within the Q3.12 range, and a color depth the shift arithmetic can
    /// take.
    pub open spec fn wf(&self) -> bool {
        &&& self.window.image().len() >= CSC_WINDOW_WORDS
        &&& self.csc_mat@.len() == 9
        &&& forall|i: int|
            0 <= i < 9 ==> -Q312_LIMIT <= #[trigger] self.csc_mat@[i] <= Q312_LIMIT
        &&& 8 <= self.color_depth <= 16
    }

    /// Bind the driver to a `v_proc_ss` block in color-space-conversion
    /// mode: the identity tag must carry the supported version, and the
    /// window must span the stage's registers.  The matrix starts as the
    /// identity with the conventional default offsets and bounds.
    pub fn new(hwh: &Ip, window: RegisterWindow) -> (r: Result<Self, Error>)
        ensures
            match r {
                Ok(d) => {
                    &&& hwh.vlnv@ == "xilinx.com:ip:v_proc_ss:2.3"@
                    &&& window.image().len() >= CSC_WINDOW_WORDS
                    &&& d.wf()
                    &&& d.window == window
                    &&& d.hwh@ == hwh@
                    &&& d.frame_width == 1280
                    &&& d.frame_height == 720
                    &&& d.fmt_in == 2
                    &&& d.fmt_out == 0
                    &&& d.color_depth == 8
                    &&& d.contrast == 0
                    &&& d.red_offset == 100
                    &&& d.green_offset == 100
                    &&& d.blue_offset == 100
                    &&& d.clamp_min == 0
                    &&& d.clip_max == 255
                    &&& d.csc_mat@ == spec_preset_mat(CscPreset::Identity)
                },
                Err(Error::UnsupportedIp) => hwh.vlnv@ != "xilinx.com:ip:v_proc_ss:2.3"@,
                Err(Error::Resource) => {
                    &&& hwh.vlnv@ == "xilinx.com:ip:v_proc_ss:2.3"@
                    &&& window.image().len() < CSC_WINDOW_WORDS
                },
                Err(_) => false,
            },
    {
        if !str_eq(hwh.vlnv.as_str(), "xilinx.com:ip:v_proc_ss:2.3") {
            return Err(Error::UnsupportedIp);
        }
        if window.word_len() < CSC_WINDOW_WORDS {
            return Err(Error::Resource);
        }
        let mut csc_mat: Vec<i32> = Vec::new();
        csc_mat.push(10000);
        csc_mat.push(0);
        csc_mat.push(0);
        csc_mat.push(0);
        csc_mat.push(10000);
        csc_mat.push(0);
        csc_mat.push(0);
        csc_mat.push(0);
        csc_mat.push(10000);
        proof {
            assert(csc_mat@ =~= spec_preset_mat(CscPreset::Identity));
        }
        Ok(
            VideoProcSubsystemCsc {
                hwh: Ip {
                    fullname: hwh.fullname.clone(),
                    instname: hwh.instname.clone(),
                    vlnv: hwh.vlnv.clone(),
                    bdtype: hwh.bdtype.clone(),
                    phys_addr: hwh.phys_addr,
                    addr_range: hwh.addr_range,
                },
                window,
                frame_width: 1280,
                frame_height: 720,
                fmt_in: 2,
                fmt_out: 0,
                color_depth: 8,
                contrast: 0,
                red_offset: 100,
                green_offset: 100,
                blue_offset: 100,
                clamp_min: 0,
                clip_max: 255,
                csc_mat,
            },
        )
    }

    /// The software-side configuration other than the matrix state.
    pub open spec fn same_shape(a: Self, b: Self) -> bool {
        &&& a.hwh@ == b.hwh@
        &&& a.frame_width == b.frame_width
        &&& a.frame_height == b.frame_height
        &&& a.color_depth == b.color_depth
    }

    /// The whole matrix state: coefficients, offsets, bounds, formats and
    /// contrast.
    pub open spec fn same_matrix(a: Self, b: Self) -> bool {
        &&& a.csc_mat@ == b.csc_mat@
        &&& a.red_offset == b.red_offset
        &&& a.green_offset == b.green_offset
        &&& a.blue_offset == b.blue_offset
        &&& a.clamp_min == b.clamp_min
        &&& a.clip_max == b.clip_max
        &&& a.fmt_in == b.fmt_in
        &&& a.fmt_out == b.fmt_out
        &&& a.contrast == b.contrast
    }

    /// Whether the block reports that it is processing.
    pub fn is_running(&self) -> (r: bool)
        requires
            self.wf(),
        ensures
            r == (self.window.image()[CSC_REG_CTRL as int / 4] & 1 == 1),
    {
        self.window.read32(CSC_REG_CTRL) & 1 == 1
    }

    /// Whether the block reports the done bit.
    pub fn is_done(&self) -> (r: bool)
        requires
            self.wf(),
        ensures
            r == (self.window.image()[CSC_REG_CTRL as int / 4] & 2 == 2),
    {
        self.window.read32(CSC_REG_CTRL) & 2 == 2
    }

    /// Whether the block reports the idle bit.
    pub fn is_idle(&self) -> (r: bool)
        requires
            self.wf(),
        ensures
            r == (self.window.image()[CSC_REG_CTRL as int / 4] & 4 == 4),
    {
        self.window.read32(CSC_REG_CTRL) & 4 == 4
    }

    /// Whether the block is ready for a new start: the start bit is clear.
    pub fn is_ready(&self) -> (r: bool)
        requires
            self.wf(),
        ensures
            r == (self.window.image()[CSC_REG_CTRL as int / 4] & 1 == 0),
    {
        self.window.read32(CSC_REG_CTRL) & 1 == 0
    }

    /// Whether the persistent auto-restart bit is set.
    pub fn get_auto_restart_enable(&self) -> (r: bool)
        requires
            self.wf(),
        ensures
            r == (self.window.image()[CSC_REG_CTRL as int / 4] & 0x80 == 0x80),
    {
        self.window.read32(CSC_REG_CTRL) & 0x80 == 0x80
    }

    /// Program the persistent auto-restart bit.
    pub fn set_auto_restart_enable(&mut self, en: bool)
        requires
            old(self).wf(),
        ensures
            final(self).wf(),
            Self::same_shape(*old(self), *final(self)),
            Self::same_matrix(*old(self), *final(self)),
            final(self).window.writes() == old(self).window.writes().push(
                RegWrite { offset: CSC_REG_CTRL, value: if en { 0x80 } else { 0 } },
            ),
            final(self).window.image() == old(self).window.image().update(
                CSC_REG_CTRL as int / 4,
                if en {
                    0x80u32
                } else {
                    0u32
                },
            ),
    {
        let reg: u32 = if en {
            0x80
        } else {
            0
        };
        self.window.write32(CSC_REG_CTRL, reg);
    }

    /// Clear auto-restart so the block stops after the current frame.
    pub fn stop(&mut self)
        requires
            old(self).wf(),
        ensures
            final(self).wf(),
            Self::same_shape(*old(self), *final(self)),
            Self::same_matrix(*old(self), *final(self)),
            final(self).window.writes() == old(self).window.writes().push(
                RegWrite { offset: CSC_REG_CTRL, value: 0 },
            ),
    {
        self.set_auto_restart_enable(false);
    }

    /// Program the frame size: width and height, then the full-frame
    /// column and row windows.  Both dimensions must be positive.
    pub fn write_frame_size(&mut self) -> (r: Result<(), Error>)
        requires
            old(self).wf(),
        ensures
            final(self).wf(),
            Self::same_shape(*old(self), *final(self)),
            Self::same_matrix(*old(self), *final(self)),
            match r {
                Ok(()) => {
                    &&& old(self).frame_width > 0
                    &&& old(self).frame_height > 0
                    &&& final(self).window.writes() == old(self).window.writes() + old(self).spec_size_writes()
                    &&& final(self).window.image() == old(self).window.image().update(
                        CSC_REG_WIDTH as int / 4,
                        old(self).frame_width,
                    ).update(CSC_REG_HEIGHT as int / 4, old(self).frame_height).update(
                        0x30int / 4,
                        0u32,
                    ).update(0x38int / 4, (old(self).frame_width - 1) as u32).update(
                        0x40int / 4,
                        0u32,
                    ).update(0x48int / 4, (old(self).frame_height - 1) as u32)
                },
                Err(e) => {
                    &&& e == Error::Protocol
                    &&& (old(self).frame_width == 0 || old(self).frame_height == 0)
                    &&& *final(self) == *old(self)
                },
            },
    {
        if self.frame_width == 0 || self.frame_height == 0 {
            return Err(Error::Protocol);
        }
        self.window.write32(CSC_REG_WIDTH, self.frame_width);
        self.window.write32(CSC_REG_HEIGHT, self.frame_height);
        self.window.write32(0x30, 0);
        self.window.write32(0x38, self.frame_width - 1);
        self.window.write32(0x40, 0);
        self.window.write32(0x48, self.frame_height - 1);
        proof {
            assert(final(self).window.writes() =~= old(self).window.writes() + old(self).spec_size_writes());
        }
        Ok(())
    }

    /// The write sequence that programs the frame geometry.
    pub open spec fn spec_size_writes(&self) -> Seq<RegWrite> {
        seq![
            RegWrite { offset: CSC_REG_WIDTH, value: self.frame_width },
            RegWrite { offset: CSC_REG_HEIGHT, value: self.frame_height },
            RegWrite { offset: 0x30, value: 0 },
            RegWrite { offset: 0x38, value: (self.frame_width - 1) as u32 },
            RegWrite { offset: 0x40, value: 0 },
            RegWrite { offset: 0x48, value: (self.frame_height - 1) as u32 },
        ]
    }

    /// Load the coefficient table, offsets, stream formats and clamp
    /// bounds of the conversion the two format names select; an unknown
    /// pair selects the identity.
    pub fn set_format(&mut self, src_fmt: &str, dst_fmt: &str)
        requires
            old(self).wf(),
        ensures
            final(self).wf(),
            final(self).window == old(self).window,
            final(self).hwh@ == old(self).hwh@,
            final(self).frame_width == old(self).frame_width,
            final(self).frame_height == old(self).frame_height,
            final(self).color_depth == old(self).color_depth,
            final(self).contrast == old(self).contrast,
            final(self).csc_mat@ == spec_preset_mat(spec_preset_of(src_fmt@, dst_fmt@)),
            final(self).red_offset == spec_preset_offsets(
                spec_preset_of(src_fmt@, dst_fmt@),
            ).0,
            final(self).green_offset == spec_preset_offsets(
                spec_preset_of(src_fmt@, dst_fmt@),
            ).1,
            final(self).blue_offset == spec_preset_offsets(
                spec_preset_of(src_fmt@, dst_fmt@),
            ).2,
            final(self).fmt_in == spec_preset_fmts(spec_preset_of(src_fmt@, dst_fmt@)).0,
            final(self).fmt_out == spec_preset_fmts(spec_preset_of(src_fmt@, dst_fmt@)).1,
            final(self).clamp_min == 0,
            final(self).clip_max == (1u32 << old(self).color_depth) - 1,
    {
        let src_rgb = str_eq(src_fmt, "RGB");
        let dst_rgb = str_eq(dst_fmt, "RGB");
        let src_422 = str_eq(src_fmt, "4:2:2");
        let dst_422 = str_eq(dst_fmt, "4:2:2");
        let src_709 = str_eq(src_fmt, "BT.709");
        let dst_709 = str_eq(dst_fmt, "BT.709");
        let src_601 = str_eq(src_fmt, "BT.601");
        let dst_601 = str_eq(dst_fmt, "BT.601");
        let preset: CscPreset = if (src_422 || src_709) && dst_rgb {
            CscPreset::Bt709ToRgb
        } else if src_601 && dst_rgb {
            CscPreset::Bt601ToRgb
        } else if src_rgb && (dst_422 || dst_709) {
            CscPreset::RgbToBt709
        } else if src_rgb && dst_601 {
            CscPreset::RgbToBt601
        } else {
            CscPreset::Identity
        };
        proof {
            assert(preset == spec_preset_of(src_fmt@, dst_fmt@));
        }
        let mut mat: Vec<i32> = Vec::new();
        match preset {
            CscPreset::Bt709ToRgb => {
                mat.push(11644);
                mat.push(0);
                mat.push(17927);
                mat.push(11644);
                mat.push(-2132);
                mat.push(-5329);
                mat.push(11644);
                mat.push(21124);
                mat.push(0);
                self.red_offset = -248;
                self.green_offset = 77;
                self.blue_offset = -289;
                self.fmt_in = 2;
                self.fmt_out = 0;
            },
            CscPreset::Bt601ToRgb => {
                mat.push(11644);
                mat.push(0);
                mat.push(15906);
                mat.push(11644);
                mat.push(-3918);
                mat.push(-8130);
                mat.push(11644);
                mat.push(20172);
                mat.push(0);
                self.red_offset = -223;
                self.green_offset = 136;
                self.blue_offset = -277;
                self.fmt_in = 2;
                self.fmt_out = 0;
            },
            CscPreset::RgbToBt709 => {
                mat.push(11826);
                mat.push(6142);
                mat.push(620);
                mat.push(-1006);
                mat.push(-3386);
                mat.push(4392);
                mat.push(4392);
                mat.push(-3989);
                mat.push(-403);
                self.red_offset = 16;
                self.green_offset = 128;
                self.blue_offset = 128;
                self.fmt_in = 0;
                self.fmt_out = 2;
            },
            CscPreset::RgbToBt601 => {
                mat.push(2568);
                mat.push(5041);
                mat.push(979);
                mat.push(-1482);
                mat.push(-2910);
                mat.push(4393);
                mat.push(4393);
                mat.push(-3678);
                mat.push(-714);
                self.red_offset = 16;
                self.green_offset = 128;
                self.blue_offset = 128;
                self.fmt_in = 0;
                self.fmt_out = 2;
            },
            CscPreset::Identity => {
                mat.push(10000);
                mat.push(0);
                mat.push(0);
                mat.push(0);
                mat.push(10000);
                mat.push(0);
                mat.push(0);
                mat.push(0);
                mat.push(10000);
                self.red_offset = 0;
                self.green_offset = 0;
                self.blue_offset = 0;
                self.fmt_in = 0;
                self.fmt_out = 0;
            },
        }
        proof {
            assert(mat@ =~= spec_preset_mat(preset));
        }
        self.csc_mat = mat;
        self.clamp_min = 0;
        let depth = self.color_depth;
        proof {
            assert(8 <= depth <= 16 ==> 1 <= 1u32 << depth <= 0x10000) by (bit_vector);
        }
        self.clip_max = (1u32 << depth) - 1;
    }

    /// Program the stream format codes, keeping the upper bytes of both
    /// registers.  Each code must fit the two-bit field's range.
    pub fn write_fmt(&mut self) -> (r: Result<(), Error>)
        requires
            old(self).wf(),
        ensures
            final(self).wf(),
            Self::same_shape(*old(self), *final(self)),
            Self::same_matrix(*old(self), *final(self)),
            match r {
                Ok(()) => {
                    &&& old(self).fmt_in < 4
                    &&& old(self).fmt_out < 4
                    &&& final(self).window.writes() == old(self).window.writes() + old(self).spec_fmt_writes(old(self).window.image())
                },
                Err(e) => {
                    &&& e == Error::Protocol
                    &&& (old(self).fmt_in >= 4 || old(self).fmt_out >= 4)
                    &&& *final(self) == *old(self)
                },
            },
    {
        if self.fmt_in >= 4 || self.fmt_out >= 4 {
            return Err(Error::Protocol);
        }
        let reg_src = self.window.read32(CSC_REG_FMT_IN) & 0xFFFF_FF00;
        let reg_dst = self.window.read32(CSC_REG_FMT_OUT) & 0xFFFF_FF00;
        self.window.write32(CSC_REG_FMT_IN, reg_src | self.fmt_in);
        self.window.write32(CSC_REG_FMT_OUT, reg_dst | self.fmt_out);
        proof {
            assert(final(self).window.writes() =~= old(self).window.writes() + old(self).spec_fmt_writes(old(self).window.image()));
        }
        Ok(())
    }

    /// The write sequence that programs the stream formats over a given
    /// register image: each code merged into the low byte of its register.
    pub open spec fn spec_fmt_writes(&self, img: Seq<u32>) -> Seq<RegWrite> {
        seq![
            RegWrite {
                offset: CSC_REG_FMT_IN,
                value: (img[CSC_REG_FMT_IN as int / 4] & 0xFFFF_FF00) | self.fmt_in,
            },
            RegWrite {
                offset: CSC_REG_FMT_OUT,
                value: (img[CSC_REG_FMT_OUT as int / 4] & 0xFFFF_FF00) | self.fmt_out,
            },
        ]
    }

    /// The write sequence that programs the matrix: the nine Q3.12
    /// coefficients at their spaced registers, then offsets, clamp and
    /// clip.
    pub open spec fn spec_matrix_writes(&self) -> Seq<RegWrite> {
        Seq::new(
            9,
            |i: int|
                RegWrite {
                    offset: (CSC_REG_MAT + 8 * i) as usize,
                    value: (spec_q312_encode(self.csc_mat@[i] as int) as i32) as u32,
                },
        ) + seq![
            RegWrite { offset: CSC_REG_R_OFF, value: self.red_offset as u32 },
            RegWrite { offset: CSC_REG_G_OFF, value: self.green_offset as u32 },
            RegWrite { offset: CSC_REG_B_OFF, value: self.blue_offset as u32 },
            RegWrite { offset: CSC_REG_CLAMP_MIN, value: self.clamp_min },
            RegWrite { offset: CSC_REG_CLIP_MAX, value: self.clip_max },
        ]
    }

    /// Whether a word of the register image belongs to the matrix block:
    /// one of the nine spaced coefficient registers, a channel offset, or
    /// a clamp bound.
    pub open spec fn spec_matrix_block_word(k: int) -> bool {
        ||| (CSC_REG_MAT as int / 4 <= k <= CSC_REG_MAT as int / 4 + 16 && (k - CSC_REG_MAT
            as int / 4) % 2 == 0)
        ||| k == CSC_REG_R_OFF as int / 4
        ||| k == CSC_REG_G_OFF as int / 4
        ||| k == CSC_REG_B_OFF as int / 4
        ||| k == CSC_REG_CLAMP_MIN as int / 4
        ||| k == CSC_REG_CLIP_MAX as int / 4
    }

    /// Encode every coefficient into Q3.12 and program the whole matrix
    /// block: coefficients, channel offsets, clamp and clip bounds.
    pub fn write_csc_matrix(&mut self)
        requires
            old(self).wf(),
        ensures
            final(self).wf(),
            Self::same_shape(*old(self), *final(self)),
            Self::same_matrix(*old(self), *final(self)),
            final(self).window.writes() == old(self).window.writes() + old(self).spec_matrix_writes(),
            final(self).window.image().len() == old(self).window.image().len(),
            forall|i: int|
                0 <= i < 9 ==> final(self).window.image()[(CSC_REG_MAT + 8 * i) as int / 4]
                    == ((spec_q312_encode(old(self).csc_mat@[i] as int) as i32) as u32),
            final(self).window.image()[CSC_REG_R_OFF as int / 4] == old(self).red_offset
                as u32,
            final(self).window.image()[CSC_REG_G_OFF as int / 4] == old(self).green_offset
                as u32,
            final(self).window.image()[CSC_REG_B_OFF as int / 4] == old(self).blue_offset
                as u32,
            final(self).window.image()[CSC_REG_CLAMP_MIN as int / 4] == old(self).clamp_min,
            final(self).window.image()[CSC_REG_CLIP_MAX as int / 4] == old(self).clip_max,
            forall|k: int|
                0 <= k < old(self).window.image().len() && !Self::spec_matrix_block_word(k)
                    ==> final(self).window.image()[k] == old(self).window.image()[k],
    {
        let ghost coeff_writes = Seq::new(
            9,
            |i: int|
                RegWrite {
                    offset: (CSC_REG_MAT + 8 * i) as usize,
                    value: (spec_q312_encode(old(self).csc_mat@[i] as int) as i32) as u32,
                },
        );
        let mut i: usize = 0;
        proof {
            assert(old(self).window.writes() + coeff_writes.take(0) =~= old(self).window.writes());
        }
        while i < 9
            invariant
                old(self).wf(),
                i <= 9,
                Self::same_shape(*old(self), *self),
                Self::same_matrix(*old(self), *self),
                self.window.image().len() == old(self).window.image().len(),
                coeff_writes == Seq::new(
                    9,
                    |j: int|
                        RegWrite {
                            offset: (CSC_REG_MAT + 8 * j) as usize,
                            value: (spec_q312_encode(old(self).csc_mat@[j] as int) as i32)
                                as u32,
                        },
                ),
                self.window.writes() == old(self).window.writes() + coeff_writes.take(
                    i as int,
                ),
                forall|j: int|
                    0 <= j < i ==> self.window.image()[(CSC_REG_MAT + 8 * j) as int / 4] == ((
                    spec_q312_encode(old(self).csc_mat@[j] as int) as i32) as u32),
                forall|k: int|
                    0 <= k < old(self).window.image().len() && !(CSC_REG_MAT as int / 4 <= k
                        < CSC_REG_MAT as int / 4 + 2 * i && (k - CSC_REG_MAT as int / 4) % 2
                        == 0) ==> self.window.image()[k] == old(self).window.image()[k],
            decreases 9 - i,
        {
            let q = q312_encode(self.csc_mat[i]);
            self.window.write32i(CSC_REG_MAT + 8 * i, q);
            proof {
                assert(self.window.writes() =~= old(self).window.writes() + coeff_writes.take(
                    i + 1,
                ));
            }
            i = i + 1;
        }
        proof {
            assert(coeff_writes.take(9) =~= coeff_writes);
        }
        self.window.write32i(CSC_REG_R_OFF, self.red_offset);
        self.window.write32i(CSC_REG_G_OFF, self.green_offset);
        self.window.write32i(CSC_REG_B_OFF, self.blue_offset);
        self.window.write32(CSC_REG_CLAMP_MIN, self.clamp_min);
        self.window.write32(CSC_REG_CLIP_MAX, self.clip_max);
        proof {
            assert(final(self).window.writes() =~= old(self).window.writes() + old(self).spec_matrix_writes());
        }
    }

    /// Decode the nine coefficients back out of the register image, in
    /// ten-thousandths of a unit.  A register holding a value outside the
    /// Q3.12 range stops the read with [`Error::Protocol`].
    pub fn read_csc_matrix(&self) -> (r: Result<Vec<i32>, Error>)
        requires
            self.wf(),
        ensures
            match r {
                Ok(v) => {
                    &&& v@.len() == 9
                    &&& forall|i: int|
                        0 <= i < 9 ==> v@[i] == spec_q312_decode(
                            self.window.image()[(CSC_REG_MAT + 8 * i) as int / 4] as i32 as int,
                        )
                },
                Err(e) => {
                    &&& e == Error::Protocol
                    &&& exists|i: int|
                        0 <= i < 9 && !(-32768 <= (#[trigger] self.window.image()[(CSC_REG_MAT
                            + 8 * i) as int / 4]) as i32 <= 32768)
                },
            },
    {
        let mut out: Vec<i32> = Vec::new();
        let mut i: usize = 0;
        while i < 9
            invariant
                self.wf(),
                i <= 9,
                out@.len() == i,
                forall|j: int|
                    0 <= j < i ==> out@[j] == spec_q312_decode(
                        self.window.image()[(CSC_REG_MAT + 8 * j) as int / 4] as i32 as int,
                    ),
            decreases 9 - i,
        {
            let q = self.window.read32i(CSC_REG_MAT + 8 * i);
            if q < -32768 || q > 32768 {
                proof {
                    assert(!(-32768 <= self.window.image()[(CSC_REG_MAT + 8 * i as int) as int
                        / 4] as i32 <= 32768));
                }
                return Err(Error::Protocol);
            }
            out.push(q312_decode(q));
            i = i + 1;
        }
        Ok(out)
    }

    /// Program formats, frame size and matrix: everything but the start
    /// bit, in the order the hardware expects.
    pub fn configure(&mut self) -> (r: Result<(), Error>)
        requires
            old(self).wf(),
        ensures
            final(self).wf(),
            Self::same_shape(*old(self), *final(self)),
            Self::same_matrix(*old(self), *final(self)),
            match r {
                Ok(()) => {
                    &&& old(self).frame_width > 0
                    &&& old(self).frame_height > 0
                    &&& old(self).fmt_in < 4
                    &&& old(self).fmt_out < 4
                    &&& final(self).window.writes() == old(self).window.writes() + old(self).spec_size_writes() + old(self).spec_fmt_writes(
                        old(self).window.image(),
                    ) + old(self).spec_matrix_writes()
                },
                Err(e) => {
                    &&& e == Error::Protocol
                    &&& (old(self).frame_width == 0 || old(self).frame_height == 0 || old(self).fmt_in >= 4 || old(self).fmt_out >= 4)
                    &&& (old(self).frame_width == 0 || old(self).frame_height == 0 ==> *final(self) == *old(self))
                    &&& (old(self).frame_width > 0 && old(self).frame_height > 0 ==> final(self).window.writes() == old(self).window.writes() + old(self).spec_size_writes())
                },
            },
    {
        let ghost s0 = *self;
        self.write_frame_size()?;
        proof {
            assert(self.fmt_in == s0.fmt_in);
            assert(self.window.image()[CSC_REG_FMT_IN as int / 4] == s0.window.image()[
                CSC_REG_FMT_IN as int / 4]);
            assert(self.window.image()[CSC_REG_FMT_OUT as int / 4] == s0.window.image()[
                CSC_REG_FMT_OUT as int / 4]);
            assert(self.spec_fmt_writes(self.window.image()) =~= s0.spec_fmt_writes(
                s0.window.image(),
            ));
        }
        self.write_fmt()?;
        proof {
            assert(self.window.writes() =~= s0.window.writes() + s0.spec_size_writes()
                + s0.spec_fmt_writes(s0.window.image()));
            assert(self.spec_matrix_writes() =~= s0.spec_matrix_writes());
        }
        self.write_csc_matrix();
        proof {
            assert(final(self).window.writes() =~= old(self).window.writes() + old(self).spec_size_writes() + old(self).spec_fmt_writes(old(self).window.image()) + old(self).spec_matrix_writes());
        }
        Ok(())
    }

    /// Configure the stage, then set the start bit together with
    /// auto-restart.
    pub fn start(&mut self) -> (r: Result<(), Error>)
        requires
            old(self).wf(),
        ensures
            final(self).wf(),
            Self::same_shape(*old(self), *final(self)),
            Self::same_matrix(*old(self), *final(self)),
            match r {
                Ok(()) => {
                    &&& old(self).frame_width > 0
                    &&& old(self).frame_height > 0
                    &&& old(self).fmt_in < 4
                    &&& old(self).fmt_out < 4
                    &&& final(self).window.writes() == old(self).window.writes() + old(self).spec_size_writes() + old(self).spec_fmt_writes(
                        old(self).window.image(),
                    ) + old(self).spec_matrix_writes() + seq![
                        RegWrite { offset: CSC_REG_CTRL, value: 0x81 },
                    ]
                },
                Err(e) => {
                    &&& e == Error::Protocol
                    &&& (old(self).frame_width == 0 || old(self).frame_height == 0 || old(self).fmt_in >= 4 || old(self).fmt_out >= 4)
                },
            },
    {
        self.configure()?;
        self.window.write32(CSC_REG_CTRL, 0x81);
        proof {
            assert(final(self).window.writes() =~= old(self).window.writes() + old(self).spec_size_writes() + old(self).spec_fmt_writes(old(self).window.image()) + old(self).spec_matrix_writes() + seq![RegWrite { offset: CSC_REG_CTRL, value: 0x81 }]);
        }
        Ok(())
    }

    /// Configure the stage, then set the start bit alone for a single
    /// frame.
    pub fn start_once(&mut self) -> (r: Result<(), Error>)
        requires
            old(self).wf(),
        ensures
            final(self).wf(),
            Self::same_shape(*old(self), *final(self)),
            Self::same_matrix(*old(self), *final(self)),
            match r {
                Ok(()) => {
                    &&& old(self).frame_width > 0
                    &&& old(self).frame_height > 0
                    &&& old(self).fmt_in < 4
                    &&& old(self).fmt_out < 4
                    &&& final(self).window.writes() == old(self).window.writes() + old(self).spec_size_writes() + old(self).spec_fmt_writes(
                        old(self).window.image(),
                    ) + old(self).spec_matrix_writes() + seq![
                        RegWrite { offset: CSC_REG_CTRL, value: 0x01 },
                    ]
                },
                Err(e) => {
                    &&& e == Error::Protocol
                    &&& (old(self).frame_width == 0 || old(self).frame_height == 0 || old(self).fmt_in >= 4 || old(self).fmt_out >= 4)
                },
            },
    {
        self.configure()?;
        self.window.write32(CSC_REG_CTRL, 0x01);
        proof {
            assert(final(self).window.writes() =~= old(self).window.writes() + old(self).spec_size_writes() + old(self).spec_fmt_writes(old(self).window.image()) + old(self).spec_matrix_writes() + seq![RegWrite { offset: CSC_REG_CTRL, value: 0x01 }]);
        }
        Ok(())
    }

    /// Derive the offset delta that moves the channel offsets from the
    /// current contrast level to `value`, scaled by the color depth, and
    /// apply it to all three channels.  An adjustment that would leave the
    /// register range changes nothing.
    pub fn set_contrast(&mut self, value: i32) -> (r: Result<(), Error>)
        requires
            old(self).wf(),
        ensures
            final(self).wf(),
            Self::same_shape(*old(self), *final(self)),
            final(self).window == old(self).window,
            final(self).csc_mat@ == old(self).csc_mat@,
            final(self).clamp_min == old(self).clamp_min,
            final(self).clip_max == old(self).clip_max,
            final(self).fmt_in == old(self).fmt_in,
            final(self).fmt_out == old(self).fmt_out,
            match r {
                Ok(()) => {
                    let c = value * 4 - 200;
                    let d = (c - old(self).contrast) * ((1u32 << ((old(self).color_depth - 8) as u32))
                        as int);
                    &&& final(self).contrast == c
                    &&& final(self).red_offset == old(self).red_offset + d
                    &&& final(self).green_offset == old(self).green_offset + d
                    &&& final(self).blue_offset == old(self).blue_offset + d
                },
                Err(e) => {
                    let c = value * 4 - 200;
                    let d = (c - old(self).contrast) * ((1u32 << ((old(self).color_depth - 8) as u32))
                        as int);
                    &&& e == Error::Protocol
                    &&& *final(self) == *old(self)
                    &&& (c > i32::MAX || c < i32::MIN || old(self).red_offset + d > i32::MAX
                        || old(self).red_offset + d < i32::MIN || old(self).green_offset + d
                        > i32::MAX || old(self).green_offset + d < i32::MIN || old(self).blue_offset + d > i32::MAX || old(self).blue_offset + d < i32::MIN)
                },
            },
    {
        let depth = self.color_depth;
        proof {
            assert(8 <= depth <= 16 ==> 1u32 << ((depth - 8) as u32) <= 0x100)
                by (bit_vector);
        }
        let scale = 1u32 << (depth - 8);
        let c64 = value as i64 * 4 - 200;
        if c64 > i32::MAX as i64 || c64 < i32::MIN as i64 {
            return Err(Error::Protocol);
        }
        let diff = c64 - self.contrast as i64;
        proof {
            let dd = diff as int;
            let sc = scale as int;
            assert(-0x200_0000_0000 <= dd * sc <= 0x200_0000_0000) by (nonlinear_arith)
                requires
                    -0x2_0000_0000 <= dd <= 0x2_0000_0000,
                    0 <= sc <= 0x100,
            ;
        }
        let d64 = diff * scale as i64;
        let r64 = self.red_offset as i64 + d64;
        let g64 = self.green_offset as i64 + d64;
        let b64 = self.blue_offset as i64 + d64;
        if r64 > i32::MAX as i64 || r64 < i32::MIN as i64 || g64 > i32::MAX as i64 || g64
            < i32::MIN as i64 || b64 > i32::MAX as i64 || b64 < i32::MIN as i64 {
            return Err(Error::Protocol);
        }
        self.contrast = c64 as i32;
        self.red_offset = r64 as i32;
        self.green_offset = g64 as i32;
        self.blue_offset = b64 as i32;
        Ok(())
    }
}

} // verus!

