//! The stream switch: sixteen master ports, each routed from a slave port
//! or disabled, plus the register-update commit bit.

use vstd::prelude::*;

use crate::errors::Error;
use crate::hwinfo::HwIdentity;
use crate::regio::{RegWrite, RegisterWindow};

verus! {

/// First master-port routing register.
pub const SWITCH_MI_BASE: usize = 0x40;

/// How many master ports the switch routes.
pub const SWITCH_MI_PORTS: usize = 16;

/// How many 32-bit words of register window the switch needs.
pub const SWITCH_WINDOW_WORDS: usize = 32;

/// The value that disables a master port.
pub const SWITCH_DISABLE: u32 = 0x8000_0000;

/// The routing register of a master port.
pub open spec fn spec_mi_offset(mi_index: usize) -> int {
    SWITCH_MI_BASE + 4 * mi_index
}

/// The stream switch.
#[derive(Debug)]
pub struct AxisSwitch {
    /// The register window the switch programs; the runner deposits
    /// device registers here and drains the programmed writes.
    pub window: RegisterWindow,
}

impl AxisSwitch {
    /// The driver's invariant: a window spanning every port register.
    pub open spec fn wf(&self) -> bool {
        self.window.image().len() >= SWITCH_WINDOW_WORDS
    }

    /// Bind the driver to an `axis_switch` block.
    pub fn new(id: &HwIdentity, window: RegisterWindow) -> (r: Result<Self, Error>)
        ensures
            match r {
                Ok(d) => {
                    &&& id.vendor@ == "xilinx.com"@ && id.library@ == "ip"@ && id.name@
                        == "axis_switch"@
                    &&& window.image().len() >= SWITCH_WINDOW_WORDS
                    &&& d.wf()
                    &&& d.window == window
                },
                Err(Error::UnsupportedIp) => !(id.vendor@ == "xilinx.com"@ && id.library@
                    == "ip"@ && id.name@ == "axis_switch"@),
                Err(Error::Resource) => {
                    &&& id.vendor@ == "xilinx.com"@ && id.library@ == "ip"@ && id.name@
                        == "axis_switch"@
                    &&& window.image().len() < SWITCH_WINDOW_WORDS
                },
                Err(_) => false,
            },
    {
        if !id.matches("xilinx.com", "ip", "axis_switch") {
            return Err(Error::UnsupportedIp);
        }
        if window.word_len() < SWITCH_WINDOW_WORDS {
            return Err(Error::Resource);
        }
        Ok(AxisSwitch { window })
    }

    /// Route a master port from a slave port; ports beyond the switch are
    /// refused.
    pub fn enable_mi_port(&mut self, mi_index: usize, si_port: u32) -> (r: Result<(), Error>)
        requires
            old(self).wf(),
        ensures
            final(self).wf(),
            match r {
                Ok(()) => {
                    &&& mi_index < SWITCH_MI_PORTS
                    &&& final(self).window.writes() == old(self).window.writes().push(
                        RegWrite { offset: spec_mi_offset(mi_index) as usize, value: si_port },
                    )
                    &&& final(self).window.image() == old(self).window.image().update(
                        spec_mi_offset(mi_index) / 4,
                        si_port,
                    )
                },
                Err(e) => {
                    &&& e == Error::Protocol
                    &&& mi_index >= SWITCH_MI_PORTS
                    &&& *final(self) == *old(self)
                },
            },
    {
        if mi_index >= SWITCH_MI_PORTS {
            return Err(Error::Protocol);
        }
        self.window.write32(SWITCH_MI_BASE + 4 * mi_index, si_port);
        Ok(())
    }

    /// Disable a master port.
    pub fn disable_mi_port(&mut self, mi_index: usize) -> (r: Result<(), Error>)
        requires
            old(self).wf(),
        ensures
            final(self).wf(),
            match r {
                Ok(()) => {
                    &&& mi_index < SWITCH_MI_PORTS
                    &&& final(self).window.writes() == old(self).window.writes().push(
                        RegWrite {
                            offset: spec_mi_offset(mi_index) as usize,
                            value: SWITCH_DISABLE,
                        },
                    )
                    &&& final(self).window.image() == old(self).window.image().update(
                        spec_mi_offset(mi_index) / 4,
                        SWITCH_DISABLE,
                    )
                },
                Err(e) => {
                    &&& e == Error::Protocol
                    &&& mi_index >= SWITCH_MI_PORTS
                    &&& *final(self) == *old(self)
                },
            },
    {
        if mi_index >= SWITCH_MI_PORTS {
            return Err(Error::Protocol);
        }
        self.window.write32(SWITCH_MI_BASE + 4 * mi_index, SWITCH_DISABLE);
        Ok(())
    }

    /// Whether a master port passes traffic for the given slave index:
    /// the disable bit is clear and the routing field names or covers the
    /// slave.
    pub fn is_mi_port_enabled(&self, mi_index: usize, si_index: u32) -> (r: Result<
        bool,
        Error,
    >)
        requires
            self.wf(),
        ensures
            match r {
                Ok(b) => {
                    let reg = self.window.image()[spec_mi_offset(mi_index) / 4];
                    &&& mi_index < SWITCH_MI_PORTS
                    &&& b == (((reg & 0x0F) == si_index && (reg >> 31) == 0) || ((reg & 0x0F)
                        & si_index != 0 && (reg >> 31) == 0))
                },
                Err(e) => {
                    &&& e == Error::Protocol
                    &&& mi_index >= SWITCH_MI_PORTS
                },
            },
    {
        if mi_index >= SWITCH_MI_PORTS {
            return Err(Error::Protocol);
        }
        let reg_value = self.window.read32(SWITCH_MI_BASE + 4 * mi_index);
        let enable = (reg_value >> 31) != 0;
        let field = reg_value & 0x0F;
        Ok((field == si_index && !enable) || (field & si_index != 0 && !enable))
    }

    /// Whether a master port is disabled.
    pub fn is_mi_port_disabled(&self, mi_index: usize) -> (r: Result<bool, Error>)
        requires
            self.wf(),
        ensures
            match r {
                Ok(b) => mi_index < SWITCH_MI_PORTS && b == ((self.window.image()[
                    spec_mi_offset(mi_index) / 4] >> 31) != 0),
                Err(e) => {
                    &&& e == Error::Protocol
                    &&& mi_index >= SWITCH_MI_PORTS
                },
            },
    {
        if mi_index >= SWITCH_MI_PORTS {
            return Err(Error::Protocol);
        }
        let reg_value = self.window.read32(SWITCH_MI_BASE + 4 * mi_index);
        Ok((reg_value >> 31) != 0)
    }

    /// Disable every master port, in port order.
    pub fn disable_all_mi_ports(&mut self)
        requires
            old(self).wf(),
        ensures
            final(self).wf(),
            final(self).window.writes() == old(self).window.writes() + Seq::new(
                SWITCH_MI_PORTS as nat,
                |i: int|
                    RegWrite {
                        offset: (SWITCH_MI_BASE + 4 * i) as usize,
                        value: SWITCH_DISABLE,
                    },
            ),
    {
        let ghost expected = Seq::new(
            SWITCH_MI_PORTS as nat,
            |i: int| RegWrite { offset: (SWITCH_MI_BASE + 4 * i) as usize, value: SWITCH_DISABLE },
        );
        let mut i: usize = 0;
        proof {
            assert(old(self).window.writes() + expected.take(0) =~= old(self).window.writes());
        }
        while i < SWITCH_MI_PORTS
            invariant
                old(self).wf(),
                i <= SWITCH_MI_PORTS,
                self.window.image().len() == old(self).window.image().len(),
                expected == Seq::new(
                    SWITCH_MI_PORTS as nat,
                    |j: int|
                        RegWrite {
                            offset: (SWITCH_MI_BASE + 4 * j) as usize,
                            value: SWITCH_DISABLE,
                        },
                ),
                self.window.writes() == old(self).window.writes() + expected.take(i as int),
            decreases SWITCH_MI_PORTS - i,
        {
            self.window.write32(SWITCH_MI_BASE + 4 * i, SWITCH_DISABLE);
            proof {
                assert(self.window.writes() =~= old(self).window.writes() + expected.take(
                    i + 1,
                ));
            }
            i = i + 1;
        }
        proof {
            assert(expected.take(SWITCH_MI_PORTS as int) =~= expected);
        }
    }

    /// Set the register-update commit bit at a control offset, keeping
    /// the other bits.  The offset must address a word of the window.
    pub fn reg_update_enable(&mut self, base_address: usize) -> (r: Result<(), Error>)
        requires
            old(self).wf(),
        ensures
            final(self).wf(),
            match r {
                Ok(()) => {
                    &&& base_address % 4 == 0
                    &&& base_address / 4 < old(self).window.image().len()
                    &&& final(self).window.writes() == old(self).window.writes().push(
                        RegWrite {
                            offset: base_address,
                            value: old(self).window.image()[base_address as int / 4] | 2,
                        },
                    )
                },
                Err(e) => {
                    &&& e == Error::Protocol
                    &&& (base_address % 4 != 0 || base_address / 4 >= old(
                        self,
                    ).window.image().len())
                    &&& *final(self) == *old(self)
                },
            },
    {
        if base_address % 4 != 0 || base_address / 4 >= self.window.word_len() {
            return Err(Error::Protocol);
        }
        let reg_value = self.window.read32(base_address);
        self.window.write32(base_address, reg_value | 2);
        Ok(())
    }

    /// Clear the register-update commit bit at a control offset, keeping
    /// the other bits.
    pub fn reg_update_disable(&mut self, base_address: usize) -> (r: Result<(), Error>)
        requires
            old(self).wf(),
        ensures
            final(self).wf(),
            match r {
                Ok(()) => {
                    &&& base_address % 4 == 0
                    &&& base_address / 4 < old(self).window.image().len()
                    &&& final(self).window.writes() == old(self).window.writes().push(
                        RegWrite {
                            offset: base_address,
                            value: old(self).window.image()[base_address as int / 4] & !2u32,
                        },
                    )
                },
                Err(e) => {
                    &&& e == Error::Protocol
                    &&& (base_address % 4 != 0 || base_address / 4 >= old(
                        self,
                    ).window.image().len())
                    &&& *final(self) == *old(self)
                },
            },
    {
        if base_address % 4 != 0 || base_address / 4 >= self.window.word_len() {
            return Err(Error::Protocol);
        }
        let reg_value = self.window.read32(base_address);
        self.window.write32(base_address, reg_value & !2u32);
        Ok(())
    }
}

} // verus!
