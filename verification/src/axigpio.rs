//! The general-purpose I/O block: two channels of data and tri-state
//! registers.

use vstd::prelude::*;

use crate::errors::Error;
use crate::hwinfo::HwIdentity;
use crate::regio::{RegWrite, RegisterWindow};

verus! {

/// How many 32-bit words of register window the block needs.
pub const GPIO_WINDOW_WORDS: usize = 4;

/// The data register of a channel: channel one at zero, channel two at
/// eight.
pub open spec fn spec_data_offset(channel: usize) -> int {
    if channel == 1 {
        0
    } else {
        8
    }
}

/// The tri-state register of a channel.
pub open spec fn spec_tri_offset(channel: usize) -> int {
    if channel == 1 {
        4
    } else {
        0xC
    }
}

/// The general-purpose I/O block.
#[derive(Debug)]
pub struct AxiGpio {
    /// The register window the block programs; the runner deposits device
    /// registers here and drains the programmed writes.
    pub window: RegisterWindow,
    /// The bit width of each channel.
    pub bitw: [u64; 2],
}

impl AxiGpio {
    /// The driver's invariant: a window spanning both channels.
    pub open spec fn wf(&self) -> bool {
        self.window.image().len() >= GPIO_WINDOW_WORDS
    }

    /// Bind the driver to an `axi_gpio` block with two 32-bit channels.
    pub fn new(id: &HwIdentity, window: RegisterWindow) -> (r: Result<Self, Error>)
        ensures
            match r {
                Ok(d) => {
                    &&& id.vendor@ == "xilinx.com"@ && id.library@ == "ip"@ && id.name@
                        == "axi_gpio"@
                    &&& window.image().len() >= GPIO_WINDOW_WORDS
                    &&& d.wf()
                    &&& d.window == window
                    &&& d.bitw@ == seq![32u64, 32u64]
                },
                Err(Error::UnsupportedIp) => !(id.vendor@ == "xilinx.com"@ && id.library@
                    == "ip"@ && id.name@ == "axi_gpio"@),
                Err(Error::Resource) => {
                    &&& id.vendor@ == "xilinx.com"@ && id.library@ == "ip"@ && id.name@
                        == "axi_gpio"@
                    &&& window.image().len() < GPIO_WINDOW_WORDS
                },
                Err(_) => false,
            },
    {
        if !id.matches("xilinx.com", "ip", "axi_gpio") {
            return Err(Error::UnsupportedIp);
        }
        if window.word_len() < GPIO_WINDOW_WORDS {
            return Err(Error::Resource);
        }
        let bitw: [u64; 2] = [32, 32];
        proof {
            assert(bitw@ =~= seq![32u64, 32u64]);
        }
        Ok(AxiGpio { window, bitw })
    }

    /// The data register of a channel; only channels one and two exist.
    pub fn read_data(&self, channel: usize) -> (r: Result<u32, Error>)
        requires
            self.wf(),
        ensures
            match r {
                Ok(v) => (channel == 1 || channel == 2) && v == self.window.image()[
                    spec_data_offset(channel) / 4],
                Err(e) => e == Error::Protocol && channel != 1 && channel != 2,
            },
    {
        if channel != 1 && channel != 2 {
            return Err(Error::Protocol);
        }
        let offset: usize = if channel == 1 {
            0x00
        } else {
            0x08
        };
        Ok(self.window.read32(offset))
    }

    /// Program the data register of a channel.
    pub fn write_data(&mut self, channel: usize, data: u32) -> (r: Result<(), Error>)
        requires
            old(self).wf(),
        ensures
            final(self).wf(),
            final(self).bitw == old(self).bitw,
            match r {
                Ok(()) => {
                    &&& (channel == 1 || channel == 2)
                    &&& final(self).window.writes() == old(self).window.writes().push(
                        RegWrite { offset: spec_data_offset(channel) as usize, value: data },
                    )
                    &&& final(self).window.image() == old(self).window.image().update(
                        spec_data_offset(channel) / 4,
                        data,
                    )
                },
                Err(e) => {
                    &&& e == Error::Protocol
                    &&& channel != 1 && channel != 2
                    &&& *final(self) == *old(self)
                },
            },
    {
        if channel != 1 && channel != 2 {
            return Err(Error::Protocol);
        }
        let offset: usize = if channel == 1 {
            0x00
        } else {
            0x08
        };
        self.window.write32(offset, data);
        Ok(())
    }

    /// The tri-state register of a channel.
    pub fn read_tri(&self, channel: usize) -> (r: Result<u32, Error>)
        requires
            self.wf(),
        ensures
            match r {
                Ok(v) => (channel == 1 || channel == 2) && v == self.window.image()[
                    spec_tri_offset(channel) / 4],
                Err(e) => e == Error::Protocol && channel != 1 && channel != 2,
            },
    {
        if channel != 1 && channel != 2 {
            return Err(Error::Protocol);
        }
        let offset: usize = if channel == 1 {
            0x04
        } else {
            0x0C
        };
        Ok(self.window.read32(offset))
    }

    /// Program the tri-state register of a channel.
    pub fn write_tri(&mut self, channel: usize, data: u32) -> (r: Result<(), Error>)
        requires
            old(self).wf(),
        ensures
            final(self).wf(),
            final(self).bitw == old(self).bitw,
            match r {
                Ok(()) => {
                    &&& (channel == 1 || channel == 2)
                    &&& final(self).window.writes() == old(self).window.writes().push(
                        RegWrite { offset: spec_tri_offset(channel) as usize, value: data },
                    )
                    &&& final(self).window.image() == old(self).window.image().update(
                        spec_tri_offset(channel) / 4,
                        data,
                    )
                },
                Err(e) => {
                    &&& e == Error::Protocol
                    &&& channel != 1 && channel != 2
                    &&& *final(self) == *old(self)
                },
            },
    {
        if channel != 1 && channel != 2 {
            return Err(Error::Protocol);
        }
        let offset: usize = if channel == 1 {
            0x04
        } else {
            0x0C
        };
        self.window.write32(offset, data);
        Ok(())
    }
}

} // verus!
