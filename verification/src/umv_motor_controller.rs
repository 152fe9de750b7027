//! The motor PID controller: brake, bounded signed acceleration
//! setpoints, per-side controller gains in Q16.16 fixed point, and raw
//! rotation counters convertible to revolutions per minute and cumulative
//! distance.
//!
//! Rates are held as integers: controller gains arrive in thousandths of a
//! unit, rotation rates leave in whole revolutions per minute, cumulative
//! rotation in thousandths of a revolution, and the feedback edge period
//! is given in microseconds.

use vstd::prelude::*;

use vstd::arithmetic::div_mod::{lemma_div_is_ordered, lemma_div_pos_is_pos};

use crate::errors::Error;
use crate::fixed::floor_div_i64;
use crate::hwinfo::HwIdentity;
use crate::regio::{RegWrite, RegisterWindow};

verus! {

/// Brake switch register.
pub const REG_BRAKE: usize = 0x00;

/// Right acceleration setpoint.
pub const REG_ACCEL_R: usize = 0x04;

/// Left acceleration setpoint.
pub const REG_ACCEL_L: usize = 0x08;

/// Right proportional gain.
pub const REG_KP_R: usize = 0x0C;

/// Right integral gain.
pub const REG_KI_R: usize = 0x10;

/// Right derivative gain.
pub const REG_KD_R: usize = 0x14;

/// Right bias.
pub const REG_BIAS_R: usize = 0x18;

/// Left proportional gain.
pub const REG_KP_L: usize = 0x1C;

/// Left integral gain.
pub const REG_KI_L: usize = 0x20;

/// Left derivative gain.
pub const REG_KD_L: usize = 0x24;

/// Left bias.
pub const REG_BIAS_L: usize = 0x28;

/// Right rotation counter, degrees per feedback period.
pub const REG_ROTATION_R: usize = 0x2C;

/// Left rotation counter, degrees per feedback period.
pub const REG_ROTATION_L: usize = 0x30;

/// Counter reset strobe.
pub const REG_ROTATION_RESET: usize = 0x34;

/// Right cumulative rotation, degrees.
pub const REG_TOTAL_ROTATION_R: usize = 0x38;

/// Left cumulative rotation, degrees.
pub const REG_TOTAL_ROTATION_L: usize = 0x3C;

/// How many 32-bit words of register window the controller needs.
pub const MOTOR_WINDOW_WORDS: usize = 16;

/// Largest gain the Q16.16 format can hold, in thousandths of a unit.
pub const GAIN_LIMIT_MILLI: u64 = 65_536_000;

/// Largest rate setpoint accepted, in thousandths of a revolution per
/// minute, keeping the conversion inside the machine word.
pub const RPM_LIMIT_MILLI: i64 = 1_000_000_000;

/// The Q16.16 raw value of a nonnegative gain given in thousandths of a
/// unit.
pub open spec fn spec_gain_raw(milli: u64) -> int {
    milli * 65536 / 1000
}

/// The acceleration setpoint equivalent to a rate in thousandths of a
/// revolution per minute, under a feedback edge period in microseconds:
/// degrees per period, rounded down.
pub open spec fn spec_accel_of_rpm(milli_rpm: int, period_us: int) -> int {
    milli_rpm * 360 * period_us / 60_000_000_000
}

/// The rotation rate in whole revolutions per minute equivalent to a
/// counter of degrees per feedback period, rounded down.
pub open spec fn spec_rpm_of_rotation(rotation: int, period_us: int) -> int {
    rotation * 60_000_000 / (period_us * 360)
}

/// The synthesis parameters of the controller.
#[derive(Debug)]
pub struct MotorParams {
    /// Largest acceleration setpoint the hardware accepts.
    pub accel_max: i32,
    /// The feedback edge period in microseconds.
    pub fb_edge_period_us: u32,
}

impl MotorParams {
    /// Parameter values the rate arithmetic can take.
    pub open spec fn valid(&self) -> bool {
        0 < self.fb_edge_period_us <= 10_000_000
    }

    fn check(&self) -> (r: bool)
        ensures
            r == self.valid(),
    {
        0 < self.fb_edge_period_us && self.fb_edge_period_us <= 10_000_000
    }
}

/// The motor PID controller.
#[derive(Debug)]
pub struct UmvMotorController {
    /// The register window the controller programs; the runner deposits
    /// device registers here and drains the programmed writes.
    pub window: RegisterWindow,
    /// Largest acceleration setpoint the hardware accepts.
    pub accel_max: i32,
    /// The feedback edge period in microseconds.
    pub fb_edge_period_us: u32,
}

impl UmvMotorController {
    /// The driver's invariant: a large enough window and a period the
    /// rate arithmetic can take.
    pub open spec fn wf(&self) -> bool {
        &&& self.window.image().len() >= MOTOR_WINDOW_WORDS
        &&& 0 < self.fb_edge_period_us <= 10_000_000
    }

    /// The synthesis parameters, unchanged by every operation.
    pub open spec fn same_params(a: Self, b: Self) -> bool {
        &&& a.accel_max == b.accel_max
        &&& a.fb_edge_period_us == b.fb_edge_period_us
    }

    /// Bind the driver to a `umv_motor_controller` block.
    pub fn new(id: &HwIdentity, params: &MotorParams, window: RegisterWindow) -> (r: Result<
        Self,
        Error,
    >)
        ensures
            match r {
                Ok(d) => {
                    &&& id.vendor@ == "slab"@ && id.library@ == "umv_project"@ && id.name@
                        == "umv_motor_controller"@
                    &&& params.valid()
                    &&& window.image().len() >= MOTOR_WINDOW_WORDS
                    &&& d.wf()
                    &&& d.window == window
                    &&& d.accel_max == params.accel_max
                    &&& d.fb_edge_period_us == params.fb_edge_period_us
                },
                Err(Error::UnsupportedIp) => !(id.vendor@ == "slab"@ && id.library@
                    == "umv_project"@ && id.name@ == "umv_motor_controller"@),
                Err(Error::Configuration) => {
                    &&& id.vendor@ == "slab"@ && id.library@ == "umv_project"@ && id.name@
                        == "umv_motor_controller"@
                    &&& !params.valid()
                },
                Err(Error::Resource) => {
                    &&& id.vendor@ == "slab"@ && id.library@ == "umv_project"@ && id.name@
                        == "umv_motor_controller"@
                    &&& params.valid()
                    &&& window.image().len() < MOTOR_WINDOW_WORDS
                },
                Err(_) => false,
            },
    {
        if !id.matches("slab", "umv_project", "umv_motor_controller") {
            return Err(Error::UnsupportedIp);
        }
        if !params.check() {
            return Err(Error::Configuration);
        }
        if window.word_len() < MOTOR_WINDOW_WORDS {
            return Err(Error::Resource);
        }
        Ok(
            UmvMotorController {
                window,
                accel_max: params.accel_max,
                fb_edge_period_us: params.fb_edge_period_us,
            },
        )
    }

    /// Engage or release the brake.
    pub fn write_brake(&mut self, val: bool)
        requires
            old(self).wf(),
        ensures
            final(self).wf(),
            Self::same_params(*old(self), *final(self)),
            final(self).window.writes() == old(self).window.writes().push(
                RegWrite { offset: REG_BRAKE, value: if val { 1 } else { 0 } },
            ),
    {
        let v: u32 = if val {
            1
        } else {
            0
        };
        self.window.write32(REG_BRAKE, v);
    }

    /// Program the right acceleration setpoint; values above the
    /// hardware-reported maximum are refused.
    pub fn write_accel_right(&mut self, val: i32) -> (r: Result<(), Error>)
        requires
            old(self).wf(),
        ensures
            final(self).wf(),
            Self::same_params(*old(self), *final(self)),
            match r {
                Ok(()) => {
                    &&& val <= old(self).accel_max
                    &&& final(self).window.writes() == old(self).window.writes().push(
                        RegWrite { offset: REG_ACCEL_R, value: val as u32 },
                    )
                },
                Err(e) => {
                    &&& e == Error::Protocol
                    &&& val > old(self).accel_max
                    &&& *final(self) == *old(self)
                },
            },
    {
        if val > self.accel_max {
            return Err(Error::Protocol);
        }
        self.window.write32i(REG_ACCEL_R, val);
        Ok(())
    }

    /// Program the left acceleration setpoint; values above the
    /// hardware-reported maximum are refused.
    pub fn write_accel_left(&mut self, val: i32) -> (r: Result<(), Error>)
        requires
            old(self).wf(),
        ensures
            final(self).wf(),
            Self::same_params(*old(self), *final(self)),
            match r {
                Ok(()) => {
                    &&& val <= old(self).accel_max
                    &&& final(self).window.writes() == old(self).window.writes().push(
                        RegWrite { offset: REG_ACCEL_L, value: val as u32 },
                    )
                },
                Err(e) => {
                    &&& e == Error::Protocol
                    &&& val > old(self).accel_max
                    &&& *final(self) == *old(self)
                },
            },
    {
        if val > self.accel_max {
            return Err(Error::Protocol);
        }
        self.window.write32i(REG_ACCEL_L, val);
        Ok(())
    }

    /// Program both acceleration setpoints, left first.
    pub fn write_accel(&mut self, left_val: i32, right_val: i32) -> (r: Result<(), Error>)
        requires
            old(self).wf(),
        ensures
            final(self).wf(),
            Self::same_params(*old(self), *final(self)),
            match r {
                Ok(()) => {
                    &&& left_val <= old(self).accel_max
                    &&& right_val <= old(self).accel_max
                    &&& final(self).window.writes() == old(self).window.writes() + seq![
                        RegWrite { offset: REG_ACCEL_L, value: left_val as u32 },
                        RegWrite { offset: REG_ACCEL_R, value: right_val as u32 },
                    ]
                },
                Err(e) => {
                    &&& e == Error::Protocol
                    &&& (left_val > old(self).accel_max || right_val > old(self).accel_max)
                },
            },
    {
        self.write_accel_left(left_val)?;
        let r = self.write_accel_right(right_val);
        proof {
            if r is Ok {
                assert(final(self).window.writes() =~= old(self).window.writes() + seq![
                    RegWrite { offset: REG_ACCEL_L, value: left_val as u32 },
                    RegWrite { offset: REG_ACCEL_R, value: right_val as u32 },
                ]);
            }
        }
        r
    }

    fn accel_of_rpm(&self, milli_rpm: i64) -> (r: Result<i32, Error>)
        requires
            self.wf(),
        ensures
            match r {
                Ok(a) => {
                    &&& -RPM_LIMIT_MILLI <= milli_rpm <= RPM_LIMIT_MILLI
                    &&& a == spec_accel_of_rpm(milli_rpm as int, self.fb_edge_period_us as int)
                },
                Err(e) => {
                    &&& e == Error::Protocol
                    &&& (milli_rpm > RPM_LIMIT_MILLI || milli_rpm < -RPM_LIMIT_MILLI)
                },
            },
    {
        if milli_rpm > RPM_LIMIT_MILLI || milli_rpm < -RPM_LIMIT_MILLI {
            return Err(Error::Protocol);
        }
        let p = self.fb_edge_period_us as i64;
        proof {
            let m = milli_rpm as int;
            let pp = p as int;
            assert(-360_000_000_000 <= m * 360 <= 360_000_000_000) by (nonlinear_arith)
                requires
                    -1_000_000_000 <= m <= 1_000_000_000,
            ;
            assert(-3_600_000_000_000_000_000 <= m * 360 * pp
                <= 3_600_000_000_000_000_000) by (nonlinear_arith)
                requires
                    -360_000_000_000 <= m * 360 <= 360_000_000_000,
                    0 < pp <= 10_000_000,
            ;
        }
        let num = milli_rpm * 360 * p;
        let a = floor_div_i64(num, 60_000_000_000);
        proof {
            lemma_div_is_ordered(
                num as int,
                3_600_000_000_000_000_000,
                60_000_000_000,
            );
            lemma_div_is_ordered(
                -3_600_000_000_000_000_000,
                num as int,
                60_000_000_000,
            );
            assert(3_600_000_000_000_000_000int / 60_000_000_000 == 60_000_000);
            assert((-3_600_000_000_000_000_000int) / 60_000_000_000 == -60_000_000);
        }
        Ok(a as i32)
    }

    /// Program the left setpoint from a rate in thousandths of a
    /// revolution per minute.
    pub fn set_accel_rpm_left(&mut self, milli_rpm: i64) -> (r: Result<(), Error>)
        requires
            old(self).wf(),
        ensures
            final(self).wf(),
            Self::same_params(*old(self), *final(self)),
            match r {
                Ok(()) => {
                    let a = spec_accel_of_rpm(
                        milli_rpm as int,
                        old(self).fb_edge_period_us as int,
                    );
                    &&& -RPM_LIMIT_MILLI <= milli_rpm <= RPM_LIMIT_MILLI
                    &&& a <= old(self).accel_max
                    &&& final(self).window.writes() == old(self).window.writes().push(
                        RegWrite { offset: REG_ACCEL_L, value: (a as i32) as u32 },
                    )
                },
                Err(e) => {
                    &&& e == Error::Protocol
                    &&& (milli_rpm > RPM_LIMIT_MILLI || milli_rpm < -RPM_LIMIT_MILLI
                        || spec_accel_of_rpm(
                        milli_rpm as int,
                        old(self).fb_edge_period_us as int,
                    ) > old(self).accel_max)
                    &&& *final(self) == *old(self)
                },
            },
    {
        let a = self.accel_of_rpm(milli_rpm)?;
        self.write_accel_left(a)
    }

    /// Program the right setpoint from a rate in thousandths of a
    /// revolution per minute.
    pub fn set_accel_rpm_right(&mut self, milli_rpm: i64) -> (r: Result<(), Error>)
        requires
            old(self).wf(),
        ensures
            final(self).wf(),
            Self::same_params(*old(self), *final(self)),
            match r {
                Ok(()) => {
                    let a = spec_accel_of_rpm(
                        milli_rpm as int,
                        old(self).fb_edge_period_us as int,
                    );
                    &&& -RPM_LIMIT_MILLI <= milli_rpm <= RPM_LIMIT_MILLI
                    &&& a <= old(self).accel_max
                    &&& final(self).window.writes() == old(self).window.writes().push(
                        RegWrite { offset: REG_ACCEL_R, value: (a as i32) as u32 },
                    )
                },
                Err(e) => {
                    &&& e == Error::Protocol
                    &&& (milli_rpm > RPM_LIMIT_MILLI || milli_rpm < -RPM_LIMIT_MILLI
                        || spec_accel_of_rpm(
                        milli_rpm as int,
                        old(self).fb_edge_period_us as int,
                    ) > old(self).accel_max)
                    &&& *final(self) == *old(self)
                },
            },
    {
        let a = self.accel_of_rpm(milli_rpm)?;
        self.write_accel_right(a)
    }

    /// Program both setpoints from one rate each, left first.
    pub fn set_accel_rpm(&mut self, left_milli_rpm: i64, right_milli_rpm: i64) -> (r: Result<
        (),
        Error,
    >)
        requires
            old(self).wf(),
        ensures
            final(self).wf(),
            Self::same_params(*old(self), *final(self)),
            match r {
                Ok(()) => {
                    let al = spec_accel_of_rpm(
                        left_milli_rpm as int,
                        old(self).fb_edge_period_us as int,
                    );
                    let ar = spec_accel_of_rpm(
                        right_milli_rpm as int,
                        old(self).fb_edge_period_us as int,
                    );
                    &&& -RPM_LIMIT_MILLI <= left_milli_rpm <= RPM_LIMIT_MILLI
                    &&& -RPM_LIMIT_MILLI <= right_milli_rpm <= RPM_LIMIT_MILLI
                    &&& al <= old(self).accel_max
                    &&& ar <= old(self).accel_max
                    &&& final(self).window.writes() == old(self).window.writes() + seq![
                        RegWrite { offset: REG_ACCEL_L, value: (al as i32) as u32 },
                        RegWrite { offset: REG_ACCEL_R, value: (ar as i32) as u32 },
                    ]
                },
                Err(e) => e == Error::Protocol,
            },
    {
        self.set_accel_rpm_left(left_milli_rpm)?;
        let r = self.set_accel_rpm_right(right_milli_rpm);
        proof {
            if r is Ok {
                assert(final(self).window.writes() =~= old(self).window.writes() + seq![
                    RegWrite {
                        offset: REG_ACCEL_L,
                        value: (spec_accel_of_rpm(
                            left_milli_rpm as int,
                            old(self).fb_edge_period_us as int,
                        ) as i32) as u32,
                    },
                    RegWrite {
                        offset: REG_ACCEL_R,
                        value: (spec_accel_of_rpm(
                            right_milli_rpm as int,
                            old(self).fb_edge_period_us as int,
                        ) as i32) as u32,
                    },
                ]);
            }
        }
        r
    }

    /// Program one nonnegative Q16.16 gain register from a value in
    /// thousandths of a unit; values of 65536 units or more are refused.
    fn write_gain(&mut self, offset: usize, milli: u64) -> (r: Result<(), Error>)
        requires
            old(self).wf(),
            offset % 4 == 0,
            offset / 4 < MOTOR_WINDOW_WORDS,
        ensures
            final(self).wf(),
            Self::same_params(*old(self), *final(self)),
            match r {
                Ok(()) => {
                    &&& milli < GAIN_LIMIT_MILLI
                    &&& final(self).window.writes() == old(self).window.writes().push(
                        RegWrite { offset, value: spec_gain_raw(milli) as u32 },
                    )
                },
                Err(e) => {
                    &&& e == Error::Protocol
                    &&& milli >= GAIN_LIMIT_MILLI
                    &&& *final(self) == *old(self)
                },
            },
    {
        if milli >= GAIN_LIMIT_MILLI {
            return Err(Error::Protocol);
        }
        proof {
            let m = milli as int;
            assert(m * 65536 <= 65_535_999 * 65536) by (nonlinear_arith)
                requires
                    0 <= m <= 65_535_999,
            ;
            lemma_div_is_ordered(m * 65536, 65_535_999int * 65536, 1000);
            lemma_div_pos_is_pos(m * 65536, 1000);
            assert(65_535_999int * 65536 / 1000 < 0x1_0000_0000);
        }
        let raw = (milli * 65536 / 1000) as u32;
        self.window.write32(offset, raw);
        Ok(())
    }

    /// Program the right proportional gain, in thousandths of a unit.
    pub fn write_kp_right(&mut self, milli: u64) -> (r: Result<(), Error>)
        requires
            old(self).wf(),
        ensures
            final(self).wf(),
            Self::same_params(*old(self), *final(self)),
            match r {
                Ok(()) => milli < GAIN_LIMIT_MILLI && final(self).window.writes() == old(
                    self,
                ).window.writes().push(
                    RegWrite { offset: REG_KP_R, value: spec_gain_raw(milli) as u32 },
                ),
                Err(e) => e == Error::Protocol && milli >= GAIN_LIMIT_MILLI && *final(self)
                    == *old(self),
            },
    {
        self.write_gain(REG_KP_R, milli)
    }

    /// Program the right integral gain, in thousandths of a unit.
    pub fn write_ki_right(&mut self, milli: u64) -> (r: Result<(), Error>)
        requires
            old(self).wf(),
        ensures
            final(self).wf(),
            Self::same_params(*old(self), *final(self)),
            match r {
                Ok(()) => milli < GAIN_LIMIT_MILLI && final(self).window.writes() == old(
                    self,
                ).window.writes().push(
                    RegWrite { offset: REG_KI_R, value: spec_gain_raw(milli) as u32 },
                ),
                Err(e) => e == Error::Protocol && milli >= GAIN_LIMIT_MILLI && *final(self)
                    == *old(self),
            },
    {
        self.write_gain(REG_KI_R, milli)
    }

    /// Program the right derivative gain, in thousandths of a unit.
    pub fn write_kd_right(&mut self, milli: u64) -> (r: Result<(), Error>)
        requires
            old(self).wf(),
        ensures
            final(self).wf(),
            Self::same_params(*old(self), *final(self)),
            match r {
                Ok(()) => milli < GAIN_LIMIT_MILLI && final(self).window.writes() == old(
                    self,
                ).window.writes().push(
                    RegWrite { offset: REG_KD_R, value: spec_gain_raw(milli) as u32 },
                ),
                Err(e) => e == Error::Protocol && milli >= GAIN_LIMIT_MILLI && *final(self)
                    == *old(self),
            },
    {
        self.write_gain(REG_KD_R, milli)
    }

    /// Program the right bias, in thousandths of a unit.
    pub fn write_bias_right(&mut self, milli: u64) -> (r: Result<(), Error>)
        requires
            old(self).wf(),
        ensures
            final(self).wf(),
            Self::same_params(*old(self), *final(self)),
            match r {
                Ok(()) => milli < GAIN_LIMIT_MILLI && final(self).window.writes() == old(
                    self,
                ).window.writes().push(
                    RegWrite { offset: REG_BIAS_R, value: spec_gain_raw(milli) as u32 },
                ),
                Err(e) => e == Error::Protocol && milli >= GAIN_LIMIT_MILLI && *final(self)
                    == *old(self),
            },
    {
        self.write_gain(REG_BIAS_R, milli)
    }

    /// Program the left proportional gain, in thousandths of a unit.
    pub fn write_kp_left(&mut self, milli: u64) -> (r: Result<(), Error>)
        requires
            old(self).wf(),
        ensures
            final(self).wf(),
            Self::same_params(*old(self), *final(self)),
            match r {
                Ok(()) => milli < GAIN_LIMIT_MILLI && final(self).window.writes() == old(
                    self,
                ).window.writes().push(
                    RegWrite { offset: REG_KP_L, value: spec_gain_raw(milli) as u32 },
                ),
                Err(e) => e == Error::Protocol && milli >= GAIN_LIMIT_MILLI && *final(self)
                    == *old(self),
            },
    {
        self.write_gain(REG_KP_L, milli)
    }

    /// Program the left integral gain, in thousandths of a unit.
    pub fn write_ki_left(&mut self, milli: u64) -> (r: Result<(), Error>)
        requires
            old(self).wf(),
        ensures
            final(self).wf(),
            Self::same_params(*old(self), *final(self)),
            match r {
                Ok(()) => milli < GAIN_LIMIT_MILLI && final(self).window.writes() == old(
                    self,
                ).window.writes().push(
                    RegWrite { offset: REG_KI_L, value: spec_gain_raw(milli) as u32 },
                ),
                Err(e) => e == Error::Protocol && milli >= GAIN_LIMIT_MILLI && *final(self)
                    == *old(self),
            },
    {
        self.write_gain(REG_KI_L, milli)
    }

    /// Program the left derivative gain, in thousandths of a unit.
    pub fn write_kd_left(&mut self, milli: u64) -> (r: Result<(), Error>)
        requires
            old(self).wf(),
        ensures
            final(self).wf(),
            Self::same_params(*old(self), *final(self)),
            match r {
                Ok(()) => milli < GAIN_LIMIT_MILLI && final(self).window.writes() == old(
                    self,
                ).window.writes().push(
                    RegWrite { offset: REG_KD_L, value: spec_gain_raw(milli) as u32 },
                ),
                Err(e) => e == Error::Protocol && milli >= GAIN_LIMIT_MILLI && *final(self)
                    == *old(self),
            },
    {
        self.write_gain(REG_KD_L, milli)
    }

    /// Program the left bias, in thousandths of a unit.
    pub fn write_bias_left(&mut self, milli: u64) -> (r: Result<(), Error>)
        requires
            old(self).wf(),
        ensures
            final(self).wf(),
            Self::same_params(*old(self), *final(self)),
            match r {
                Ok(()) => milli < GAIN_LIMIT_MILLI && final(self).window.writes() == old(
                    self,
                ).window.writes().push(
                    RegWrite { offset: REG_BIAS_L, value: spec_gain_raw(milli) as u32 },
                ),
                Err(e) => e == Error::Protocol && milli >= GAIN_LIMIT_MILLI && *final(self)
                    == *old(self),
            },
    {
        self.write_gain(REG_BIAS_L, milli)
    }

    /// Program the proportional gain on both sides, left first.
    pub fn set_kp(&mut self, milli: u64) -> (r: Result<(), Error>)
        requires
            old(self).wf(),
        ensures
            final(self).wf(),
            Self::same_params(*old(self), *final(self)),
            match r {
                Ok(()) => milli < GAIN_LIMIT_MILLI && final(self).window.writes() == old(
                    self,
                ).window.writes() + seq![
                    RegWrite { offset: REG_KP_L, value: spec_gain_raw(milli) as u32 },
                    RegWrite { offset: REG_KP_R, value: spec_gain_raw(milli) as u32 },
                ],
                Err(e) => e == Error::Protocol && milli >= GAIN_LIMIT_MILLI,
            },
    {
        self.write_kp_left(milli)?;
        let r = self.write_kp_right(milli);
        proof {
            assert(final(self).window.writes() =~= old(self).window.writes() + seq![
                RegWrite { offset: REG_KP_L, value: spec_gain_raw(milli) as u32 },
                RegWrite { offset: REG_KP_R, value: spec_gain_raw(milli) as u32 },
            ]);
        }
        r
    }

    /// Program the integral gain on both sides, left first.
    pub fn set_ki(&mut self, milli: u64) -> (r: Result<(), Error>)
        requires
            old(self).wf(),
        ensures
            final(self).wf(),
            Self::same_params(*old(self), *final(self)),
            match r {
                Ok(()) => milli < GAIN_LIMIT_MILLI && final(self).window.writes() == old(
                    self,
                ).window.writes() + seq![
                    RegWrite { offset: REG_KI_L, value: spec_gain_raw(milli) as u32 },
                    RegWrite { offset: REG_KI_R, value: spec_gain_raw(milli) as u32 },
                ],
                Err(e) => e == Error::Protocol && milli >= GAIN_LIMIT_MILLI,
            },
    {
        self.write_ki_left(milli)?;
        let r = self.write_ki_right(milli);
        proof {
            assert(final(self).window.writes() =~= old(self).window.writes() + seq![
                RegWrite { offset: REG_KI_L, value: spec_gain_raw(milli) as u32 },
                RegWrite { offset: REG_KI_R, value: spec_gain_raw(milli) as u32 },
            ]);
        }
        r
    }

    /// Program the derivative gain on both sides, left first.
    pub fn set_kd(&mut self, milli: u64) -> (r: Result<(), Error>)
        requires
            old(self).wf(),
        ensures
            final(self).wf(),
            Self::same_params(*old(self), *final(self)),
            match r {
                Ok(()) => milli < GAIN_LIMIT_MILLI && final(self).window.writes() == old(
                    self,
                ).window.writes() + seq![
                    RegWrite { offset: REG_KD_L, value: spec_gain_raw(milli) as u32 },
                    RegWrite { offset: REG_KD_R, value: spec_gain_raw(milli) as u32 },
                ],
                Err(e) => e == Error::Protocol && milli >= GAIN_LIMIT_MILLI,
            },
    {
        self.write_kd_left(milli)?;
        let r = self.write_kd_right(milli);
        proof {
            assert(final(self).window.writes() =~= old(self).window.writes() + seq![
                RegWrite { offset: REG_KD_L, value: spec_gain_raw(milli) as u32 },
                RegWrite { offset: REG_KD_R, value: spec_gain_raw(milli) as u32 },
            ]);
        }
        r
    }

    /// Program the bias on both sides, left first.
    pub fn set_bias(&mut self, milli: u64) -> (r: Result<(), Error>)
        requires
            old(self).wf(),
        ensures
            final(self).wf(),
            Self::same_params(*old(self), *final(self)),
            match r {
                Ok(()) => milli < GAIN_LIMIT_MILLI && final(self).window.writes() == old(
                    self,
                ).window.writes() + seq![
                    RegWrite { offset: REG_BIAS_L, value: spec_gain_raw(milli) as u32 },
                    RegWrite { offset: REG_BIAS_R, value: spec_gain_raw(milli) as u32 },
                ],
                Err(e) => e == Error::Protocol && milli >= GAIN_LIMIT_MILLI,
            },
    {
        self.write_bias_left(milli)?;
        let r = self.write_bias_right(milli);
        proof {
            assert(final(self).window.writes() =~= old(self).window.writes() + seq![
                RegWrite { offset: REG_BIAS_L, value: spec_gain_raw(milli) as u32 },
                RegWrite { offset: REG_BIAS_R, value: spec_gain_raw(milli) as u32 },
            ]);
        }
        r
    }

    /// The right rotation counter: degrees per feedback period.
    pub fn read_rotation_right(&self) -> (r: i32)
        requires
            self.wf(),
        ensures
            r == self.window.image()[REG_ROTATION_R as int / 4] as i32,
    {
        self.window.read32i(REG_ROTATION_R)
    }

    /// The left rotation counter: degrees per feedback period.
    pub fn read_rotation_left(&self) -> (r: i32)
        requires
            self.wf(),
        ensures
            r == self.window.image()[REG_ROTATION_L as int / 4] as i32,
    {
        self.window.read32i(REG_ROTATION_L)
    }

    fn rpm_of_rotation(&self, rotation: i32) -> (r: i64)
        requires
            self.wf(),
        ensures
            r == spec_rpm_of_rotation(rotation as int, self.fb_edge_period_us as int),
    {
        let num = rotation as i64 * 60_000_000;
        let den = self.fb_edge_period_us as i64 * 360;
        floor_div_i64(num, den)
    }

    /// The right wheel rate in whole revolutions per minute, rounded
    /// down.
    pub fn get_wheel_rpm_right(&self) -> (r: i64)
        requires
            self.wf(),
        ensures
            r == spec_rpm_of_rotation(
                self.window.image()[REG_ROTATION_R as int / 4] as i32 as int,
                self.fb_edge_period_us as int,
            ),
    {
        let rot = self.read_rotation_right();
        self.rpm_of_rotation(rot)
    }

    /// The left wheel rate in whole revolutions per minute, rounded down.
    pub fn get_wheel_rpm_left(&self) -> (r: i64)
        requires
            self.wf(),
        ensures
            r == spec_rpm_of_rotation(
                self.window.image()[REG_ROTATION_L as int / 4] as i32 as int,
                self.fb_edge_period_us as int,
            ),
    {
        let rot = self.read_rotation_left();
        self.rpm_of_rotation(rot)
    }

    /// Strobe the cumulative rotation counters back to zero.
    pub fn reset_total_rotation(&mut self)
        requires
            old(self).wf(),
        ensures
            final(self).wf(),
            Self::same_params(*old(self), *final(self)),
            final(self).window.writes() == old(self).window.writes().push(
                RegWrite { offset: REG_ROTATION_RESET, value: 1 },
            ),
    {
        self.window.write32(REG_ROTATION_RESET, 1);
    }

    /// The right cumulative rotation counter, in degrees.
    pub fn read_total_rotation_right(&self) -> (r: i32)
        requires
            self.wf(),
        ensures
            r == self.window.image()[REG_TOTAL_ROTATION_R as int / 4] as i32,
    {
        self.window.read32i(REG_TOTAL_ROTATION_R)
    }

    /// The left cumulative rotation counter, in degrees.
    pub fn read_total_rotation_left(&self) -> (r: i32)
        requires
            self.wf(),
        ensures
            r == self.window.image()[REG_TOTAL_ROTATION_L as int / 4] as i32,
    {
        self.window.read32i(REG_TOTAL_ROTATION_L)
    }

    /// The right cumulative rotation in thousandths of a revolution,
    /// rounded down.
    pub fn get_total_rotation_right(&self) -> (r: i64)
        requires
            self.wf(),
        ensures
            r == self.window.image()[REG_TOTAL_ROTATION_R as int / 4] as i32 * 1000 / 360,
    {
        let t = self.read_total_rotation_right();
        floor_div_i64(t as i64 * 1000, 360)
    }

    /// The left cumulative rotation in thousandths of a revolution,
    /// rounded down.
    pub fn get_total_rotation_left(&self) -> (r: i64)
        requires
            self.wf(),
        ensures
            r == self.window.image()[REG_TOTAL_ROTATION_L as int / 4] as i32 * 1000 / 360,
    {
        let t = self.read_total_rotation_left();
        floor_div_i64(t as i64 * 1000, 360)
    }

    /// The largest acceleration setpoint the hardware accepts.
    pub fn get_max_accel(&self) -> (r: i32)
        ensures
            r == self.accel_max,
    {
        self.accel_max
    }

    /// The largest rate the hardware accepts, in whole revolutions per
    /// minute, rounded down.
    pub fn get_max_rpm(&self) -> (r: i64)
        requires
            self.wf(),
        ensures
            r == spec_rpm_of_rotation(self.accel_max as int, self.fb_edge_period_us as int),
    {
        self.rpm_of_rotation(self.accel_max)
    }
}

} // verus!
