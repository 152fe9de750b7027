//! The single-buffer streaming DMA engine: two independent directional
//! channels (memory-map-to-stream and stream-to-memory-map), each carrying
//! one in-flight transfer at a time.  A transfer is legal only when the
//! channel runs and is idle — or has never transferred since it was
//! started — and the three error causes the hardware can report are
//! decoded bit by bit.

use vstd::prelude::*;

use crate::errors::{DmaFault, Error};
use crate::hwinfo::HwIdentity;
use crate::regio::{spec_addr_lo, DmaBuffer, RegWrite, RegisterWindow};

verus! {

/// Control register, relative to the channel base.
pub const DMACR: usize = 0x00;

/// Status register, relative to the channel base.
pub const DMASR: usize = 0x04;

/// Source or destination address register, relative to the channel base.
pub const SA: usize = 0x18;

/// Transfer length register, relative to the channel base.
pub const LENGTH: usize = 0x28;

/// Register offset of the stream-to-memory-map channel.
pub const S2MM_OFFSET: usize = 0x30;

/// How many 32-bit words of register window the engine needs.
pub const DMA_WINDOW_WORDS: usize = 23;

/// The internal-error bit of the status register.
pub const DMA_ERR_INTERNAL: u32 = 0x10;

/// The slave-error bit of the status register.
pub const DMA_ERR_SLAVE: u32 = 0x20;

/// The decode-error bit of the status register.
pub const DMA_ERR_DECODE: u32 = 0x40;

/// The direction a channel moves data in.
#[derive(Clone, Copy, Debug, PartialEq, Eq, Structural)]
pub enum DmaChannelMode {
    /// Memory-map to stream: software feeds the fabric.
    MM2S,
    /// Stream to memory-map: the fabric fills software memory.
    S2MM,
}

/// The first of the three error bits set in a status word, decoded in the
/// order internal, slave, decode.
pub open spec fn spec_fault_of(status: u32) -> Option<DmaFault> {
    if status & DMA_ERR_INTERNAL != 0 {
        Some(DmaFault::Internal)
    } else if status & DMA_ERR_SLAVE != 0 {
        Some(DmaFault::Slave)
    } else if status & DMA_ERR_DECODE != 0 {
        Some(DmaFault::Decode)
    } else {
        None
    }
}

/// One directional channel of the engine.
#[derive(Debug)]
pub struct AxiDmaChannel {
    /// The register window of the whole engine; the runner deposits
    /// device registers here and drains the programmed writes.
    pub window: RegisterWindow,
    /// The transfer buffer the channel programs into the hardware.
    pub buffer: DmaBuffer,
    /// Whether no transfer has been issued since the channel started.
    pub first_transfer: bool,
    /// The channel's direction.
    pub mode: DmaChannelMode,
    /// The channel's register base: zero for the source direction.
    pub offset: usize,
}

impl AxiDmaChannel {
    /// The driver's invariant: a large enough window and the register
    /// base matching the direction.
    pub open spec fn wf(&self) -> bool {
        &&& self.window.image().len() >= DMA_WINDOW_WORDS
        &&& (self.mode == DmaChannelMode::MM2S ==> self.offset == 0)
        &&& (self.mode == DmaChannelMode::S2MM ==> self.offset == S2MM_OFFSET)
    }

    /// The channel identity, unchanged by every operation.
    pub open spec fn same_identity(a: Self, b: Self) -> bool {
        &&& a.mode == b.mode
        &&& a.offset == b.offset
    }

    /// Bind one directional channel of an `axi_dma` block.
    pub fn new(
        id: &HwIdentity,
        mode: DmaChannelMode,
        window: RegisterWindow,
        buffer: DmaBuffer,
    ) -> (r: Result<Self, Error>)
        ensures
            match r {
                Ok(d) => {
                    &&& id.vendor@ == "xilinx.com"@ && id.library@ == "ip"@ && id.name@
                        == "axi_dma"@
                    &&& window.image().len() >= DMA_WINDOW_WORDS
                    &&& d.wf()
                    &&& d.window == window
                    &&& d.buffer == buffer
                    &&& d.mode == mode
                    &&& d.first_transfer
                },
                Err(Error::UnsupportedIp) => !(id.vendor@ == "xilinx.com"@ && id.library@
                    == "ip"@ && id.name@ == "axi_dma"@),
                Err(Error::Resource) => {
                    &&& id.vendor@ == "xilinx.com"@ && id.library@ == "ip"@ && id.name@
                        == "axi_dma"@
                    &&& window.image().len() < DMA_WINDOW_WORDS
                },
                Err(_) => false,
            },
    {
        if !id.matches("xilinx.com", "ip", "axi_dma") {
            return Err(Error::UnsupportedIp);
        }
        if window.word_len() < DMA_WINDOW_WORDS {
            return Err(Error::Resource);
        }
        let offset: usize = if matches!(mode, DmaChannelMode::MM2S) {
            0
        } else {
            S2MM_OFFSET
        };
        Ok(AxiDmaChannel { window, buffer, first_transfer: true, mode, offset })
    }

    /// The channel's status word.
    pub open spec fn spec_status(&self) -> u32 {
        self.window.image()[(self.offset + DMASR) as int / 4]
    }

    /// Whether the channel runs: the halted bit of its status register is
    /// clear.
    pub fn is_running(&self) -> (r: bool)
        requires
            self.wf(),
        ensures
            r == (self.spec_status() & 1 == 0),
    {
        self.window.read32(self.offset + DMASR) & 1 == 0
    }

    /// Whether the channel reports idle.
    pub fn is_idle(&self) -> (r: bool)
        requires
            self.wf(),
        ensures
            r == (self.spec_status() & 2 == 2),
    {
        self.window.read32(self.offset + DMASR) & 2 == 2
    }

    /// Whether any of the three error bits is set.
    pub fn is_error(&self) -> (r: bool)
        requires
            self.wf(),
        ensures
            r == (self.spec_status() & 0x70 != 0),
    {
        self.window.read32(self.offset + DMASR) & 0x70 != 0
    }

    /// Halt the channel.  The status image must already show it halted;
    /// otherwise the caller forwards the write, lets the device drain,
    /// refreshes the image and calls again.
    pub fn stop(&mut self) -> (r: Result<(), Error>)
        requires
            old(self).wf(),
        ensures
            final(self).wf(),
            Self::same_identity(*old(self), *final(self)),
            final(self).buffer == old(self).buffer,
            final(self).first_transfer == old(self).first_transfer,
            final(self).window.writes() == old(self).window.writes().push(
                RegWrite { offset: old(self).offset, value: 0 },
            ),
            final(self).window.image() == old(self).window.image().update(
                old(self).offset as int / 4,
                0u32,
            ),
            match r {
                Ok(()) => old(self).spec_status() & 1 != 0,
                Err(e) => e == Error::Timeout && old(self).spec_status() & 1 == 0,
            },
    {
        self.window.write32(self.offset + DMACR, 0);
        if self.window.read32(self.offset + DMASR) & 1 == 0 {
            Err(Error::Timeout)
        } else {
            Ok(())
        }
    }

    /// Arm the channel: set the run bit and forget any earlier transfer.
    pub fn start(&mut self)
        requires
            old(self).wf(),
        ensures
            final(self).wf(),
            Self::same_identity(*old(self), *final(self)),
            final(self).buffer == old(self).buffer,
            final(self).first_transfer,
            final(self).window.writes() == old(self).window.writes().push(
                RegWrite { offset: old(self).offset, value: 1 },
            ),
            final(self).window.image() == old(self).window.image().update(
                old(self).offset as int / 4,
                1u32,
            ),
    {
        self.window.write32(self.offset + DMACR, 1);
        self.first_transfer = true;
    }

    /// Program the transfer length in bytes.
    pub fn write_len(&mut self, len: u32)
        requires
            old(self).wf(),
        ensures
            final(self).wf(),
            Self::same_identity(*old(self), *final(self)),
            final(self).buffer == old(self).buffer,
            final(self).first_transfer == old(self).first_transfer,
            final(self).window.writes() == old(self).window.writes().push(
                RegWrite { offset: (old(self).offset + LENGTH) as usize, value: len },
            ),
            final(self).window.image() == old(self).window.image().update(
                (old(self).offset + LENGTH) as int / 4,
                len,
            ),
    {
        self.window.write32(self.offset + LENGTH, len);
    }

    /// The transfer length register as the image holds it.
    pub fn read_len(&self) -> (r: u32)
        requires
            self.wf(),
        ensures
            r == self.window.image()[(self.offset + LENGTH) as int / 4],
    {
        self.window.read32(self.offset + LENGTH)
    }

    fn write_buf_addr(&mut self)
        requires
            old(self).wf(),
        ensures
            final(self).wf(),
            Self::same_identity(*old(self), *final(self)),
            final(self).buffer == old(self).buffer,
            final(self).first_transfer == old(self).first_transfer,
            final(self).window.writes() == old(self).window.writes().push(
                RegWrite {
                    offset: (old(self).offset + SA) as usize,
                    value: spec_addr_lo(old(self).buffer.spec_phys_addr()),
                },
            ),
    {
        let a = (self.buffer.phys_addr() as u64 % 0x1_0000_0000) as u32;
        self.window.write32(self.offset + SA, a);
    }

    /// Whether the channel may issue a transfer: running, and idle or
    /// untouched since start.
    pub open spec fn spec_may_transfer(&self) -> bool {
        &&& self.spec_status() & 1 == 0
        &&& (self.spec_status() & 2 == 2 || self.first_transfer)
    }

    /// Issue a source-side transfer: copy `data` into the DMA buffer,
    /// program the buffer address, then the byte length.  Only the source
    /// direction takes it, only while running and idle (or fresh), and
    /// only with data that fits the buffer and the length register.
    pub fn write(&mut self, data: &[u8]) -> (r: Result<(), Error>)
        requires
            old(self).wf(),
        ensures
            final(self).wf(),
            Self::same_identity(*old(self), *final(self)),
            match r {
                Ok(()) => {
                    &&& old(self).mode == DmaChannelMode::MM2S
                    &&& old(self).spec_may_transfer()
                    &&& data@.len() <= old(self).buffer.contents().len()
                    &&& data@.len() <= u32::MAX
                    &&& !final(self).first_transfer
                    &&& final(self).buffer.contents().len() == old(
                        self,
                    ).buffer.contents().len()
                    &&& forall|i: int|
                        0 <= i < data@.len() ==> final(self).buffer.contents()[i] == data@[i]
                    &&& final(self).window.writes() == old(self).window.writes() + seq![
                        RegWrite {
                            offset: (old(self).offset + SA) as usize,
                            value: spec_addr_lo(old(self).buffer.spec_phys_addr()),
                        },
                        RegWrite {
                            offset: (old(self).offset + LENGTH) as usize,
                            value: data@.len() as u32,
                        },
                    ]
                },
                Err(e) => {
                    &&& final(self).window == old(self).window
                    &&& final(self).buffer == old(self).buffer
                    &&& final(self).first_transfer == old(self).first_transfer
                    &&& (e == Error::Protocol ==> (old(self).mode != DmaChannelMode::MM2S
                        || !old(self).spec_may_transfer()))
                    &&& (e == Error::Resource ==> (data@.len() > old(
                        self,
                    ).buffer.contents().len() || data@.len() > u32::MAX))
                    &&& (e == Error::Protocol || e == Error::Resource)
                },
            },
    {
        if matches!(self.mode, DmaChannelMode::S2MM) {
            return Err(Error::Protocol);
        }
        if !self.is_running() {
            return Err(Error::Protocol);
        }
        if !(self.is_idle() || self.first_transfer) {
            return Err(Error::Protocol);
        }
        if data.len() > u32::MAX as usize {
            return Err(Error::Resource);
        }
        match self.buffer.copy_from(0, data) {
            Ok(()) => {},
            Err(e) => {
                return Err(e);
            },
        }
        self.write_buf_addr();
        let n = data.len() as u32;
        self.write_len(n);
        self.first_transfer = false;
        proof {
            assert(final(self).window.writes() =~= old(self).window.writes() + seq![
                RegWrite {
                    offset: (old(self).offset + SA) as usize,
                    value: spec_addr_lo(old(self).buffer.spec_phys_addr()),
                },
                RegWrite {
                    offset: (old(self).offset + LENGTH) as usize,
                    value: data@.len() as u32,
                },
            ]);
        }
        Ok(())
    }

    /// Issue a source-side transfer of the first `size` bytes of `data`.
    pub fn write_with_size(&mut self, data: &[u8], size: usize) -> (r: Result<(), Error>)
        requires
            old(self).wf(),
        ensures
            final(self).wf(),
            Self::same_identity(*old(self), *final(self)),
            match r {
                Ok(()) => {
                    &&& old(self).mode == DmaChannelMode::MM2S
                    &&& old(self).spec_may_transfer()
                    &&& size <= data@.len()
                    &&& size <= old(self).buffer.contents().len()
                    &&& size <= u32::MAX
                    &&& !final(self).first_transfer
                    &&& final(self).buffer.contents().len() == old(
                        self,
                    ).buffer.contents().len()
                    &&& forall|i: int|
                        0 <= i < size ==> final(self).buffer.contents()[i] == data@[i]
                    &&& final(self).window.writes() == old(self).window.writes() + seq![
                        RegWrite {
                            offset: (old(self).offset + SA) as usize,
                            value: spec_addr_lo(old(self).buffer.spec_phys_addr()),
                        },
                        RegWrite {
                            offset: (old(self).offset + LENGTH) as usize,
                            value: size as u32,
                        },
                    ]
                },
                Err(e) => {
                    &&& final(self).window == old(self).window
                    &&& final(self).buffer == old(self).buffer
                    &&& final(self).first_transfer == old(self).first_transfer
                    &&& (e == Error::Protocol ==> (old(self).mode != DmaChannelMode::MM2S
                        || !old(self).spec_may_transfer() || size > data@.len()))
                    &&& (e == Error::Resource ==> (size > old(self).buffer.contents().len()
                        || size > u32::MAX))
                    &&& (e == Error::Protocol || e == Error::Resource)
                },
            },
    {
        if matches!(self.mode, DmaChannelMode::S2MM) {
            return Err(Error::Protocol);
        }
        if !self.is_running() {
            return Err(Error::Protocol);
        }
        if !(self.is_idle() || self.first_transfer) {
            return Err(Error::Protocol);
        }
        if size > data.len() {
            return Err(Error::Protocol);
        }
        if size > u32::MAX as usize {
            return Err(Error::Resource);
        }
        let part = vstd::slice::slice_subrange(data, 0, size);
        match self.buffer.copy_from(0, part) {
            Ok(()) => {},
            Err(e) => {
                return Err(e);
            },
        }
        self.write_buf_addr();
        let n = size as u32;
        self.write_len(n);
        self.first_transfer = false;
        proof {
            assert(forall|i: int| 0 <= i < size ==> part@[i] == data@[i]);
            assert(final(self).window.writes() =~= old(self).window.writes() + seq![
                RegWrite {
                    offset: (old(self).offset + SA) as usize,
                    value: spec_addr_lo(old(self).buffer.spec_phys_addr()),
                },
                RegWrite {
                    offset: (old(self).offset + LENGTH) as usize,
                    value: size as u32,
                },
            ]);
        }
        Ok(())
    }

    /// Check the status image once, as the bounded form of the original
    /// drain loop: an error bit fails with its decoded cause, a missing
    /// idle bit asks the caller to refresh the image and retry.
    pub fn wait(&self) -> (r: Result<(), Error>)
        requires
            self.wf(),
        ensures
            match r {
                Ok(()) => {
                    &&& self.spec_status() & 1 == 0
                    &&& spec_fault_of(self.spec_status()) is None
                    &&& self.spec_status() & 2 == 2
                },
                Err(e) => {
                    &&& (e == Error::Protocol ==> self.spec_status() & 1 != 0)
                    &&& (forall|k: DmaFault|
                        e == Error::Hardware(k) ==> spec_fault_of(self.spec_status())
                            == Some(k))
                    &&& (e == Error::Timeout ==> self.spec_status() & 1 == 0 && spec_fault_of(
                        self.spec_status(),
                    ) is None && self.spec_status() & 2 != 2)
                    &&& (e == Error::Protocol || e == Error::Timeout || e
                        matches Error::Hardware(_))
                },
            },
    {
        if !self.is_running() {
            return Err(Error::Protocol);
        }
        let status = self.window.read32(self.offset + DMASR);
        if status & DMA_ERR_INTERNAL != 0 {
            return Err(Error::Hardware(DmaFault::Internal));
        }
        if status & DMA_ERR_SLAVE != 0 {
            return Err(Error::Hardware(DmaFault::Slave));
        }
        if status & DMA_ERR_DECODE != 0 {
            return Err(Error::Hardware(DmaFault::Decode));
        }
        if status & 2 != 2 {
            return Err(Error::Timeout);
        }
        Ok(())
    }

    /// Issue a sink-side transfer and copy `len` received bytes out of
    /// the buffer: programs destination address and length, requires the
    /// status image to already show the transfer complete, and decodes
    /// the error bits as [`Self::wait`] does.
    pub fn read(&mut self, len: usize) -> (r: Result<Vec<u8>, Error>)
        requires
            old(self).wf(),
        ensures
            final(self).wf(),
            Self::same_identity(*old(self), *final(self)),
            final(self).buffer == old(self).buffer,
            match r {
                Ok(v) => {
                    &&& old(self).mode == DmaChannelMode::S2MM
                    &&& old(self).spec_may_transfer()
                    &&& len <= old(self).buffer.contents().len()
                    &&& len <= u32::MAX
                    &&& old(self).spec_status() & 2 == 2
                    &&& spec_fault_of(old(self).spec_status()) is None
                    &&& v@ == old(self).buffer.contents().subrange(0, len as int)
                    &&& !final(self).first_transfer
                    &&& final(self).window.writes() == old(self).window.writes() + seq![
                        RegWrite {
                            offset: (old(self).offset + SA) as usize,
                            value: spec_addr_lo(old(self).buffer.spec_phys_addr()),
                        },
                        RegWrite {
                            offset: (old(self).offset + LENGTH) as usize,
                            value: len as u32,
                        },
                    ]
                },
                Err(e) => {
                    &&& final(self).first_transfer == old(self).first_transfer
                    &&& (e == Error::Protocol ==> (old(self).mode != DmaChannelMode::S2MM
                        || !old(self).spec_may_transfer()))
                    &&& (e == Error::Resource ==> (len > old(self).buffer.contents().len()
                        || len > u32::MAX))
                    &&& (forall|k: DmaFault|
                        e == Error::Hardware(k) ==> spec_fault_of(old(self).spec_status())
                            == Some(k))
                    &&& (e == Error::Timeout ==> spec_fault_of(old(self).spec_status())
                        is None && old(self).spec_status() & 2 != 2)
                    &&& (e == Error::Protocol || e == Error::Resource || e == Error::Timeout
                        || e matches Error::Hardware(_))
                },
            },
    {
        if matches!(self.mode, DmaChannelMode::MM2S) {
            return Err(Error::Protocol);
        }
        if !self.is_running() {
            return Err(Error::Protocol);
        }
        if !(self.is_idle() || self.first_transfer) {
            return Err(Error::Protocol);
        }
        if len > u32::MAX as usize {
            return Err(Error::Resource);
        }
        let status = self.window.read32(self.offset + DMASR);
        if status & DMA_ERR_INTERNAL != 0 {
            return Err(Error::Hardware(DmaFault::Internal));
        }
        if status & DMA_ERR_SLAVE != 0 {
            return Err(Error::Hardware(DmaFault::Slave));
        }
        if status & DMA_ERR_DECODE != 0 {
            return Err(Error::Hardware(DmaFault::Decode));
        }
        if status & 2 != 2 {
            return Err(Error::Timeout);
        }
        let out = match self.buffer.copy_to(0, len) {
            Ok(v) => v,
            Err(e) => {
                return Err(e);
            },
        };
        self.write_buf_addr();
        let n = len as u32;
        self.write_len(n);
        self.first_transfer = false;
        proof {
            assert(final(self).window.writes() =~= old(self).window.writes() + seq![
                RegWrite {
                    offset: (old(self).offset + SA) as usize,
                    value: spec_addr_lo(old(self).buffer.spec_phys_addr()),
                },
                RegWrite {
                    offset: (old(self).offset + LENGTH) as usize,
                    value: len as u32,
                },
            ]);
        }
        Ok(out)
    }
}

/// The whole engine: an optional channel per direction, as synthesized.
#[derive(Debug)]
pub struct AxiDma {
    /// The source channel, absent when the IP was built without it.
    pub mm2s: Option<AxiDmaChannel>,
    /// The sink channel, absent when the IP was built without it.
    pub s2mm: Option<AxiDmaChannel>,
}

impl AxiDma {
    /// The driver's invariant: each present channel is coherent and
    /// carries its own direction.
    pub open spec fn wf(&self) -> bool {
        &&& (self.mm2s is Some ==> self.mm2s->0.wf() && self.mm2s->0.mode
            == DmaChannelMode::MM2S)
        &&& (self.s2mm is Some ==> self.s2mm->0.wf() && self.s2mm->0.mode
            == DmaChannelMode::S2MM)
    }

    /// Bind the engine: one window and buffer per synthesized direction.
    pub fn new(
        id: &HwIdentity,
        mm2s_res: Option<(RegisterWindow, DmaBuffer)>,
        s2mm_res: Option<(RegisterWindow, DmaBuffer)>,
    ) -> (r: Result<Self, Error>)
        ensures
            match r {
                Ok(d) => {
                    &&& id.vendor@ == "xilinx.com"@ && id.library@ == "ip"@ && id.name@
                        == "axi_dma"@
                    &&& d.wf()
                    &&& d.mm2s is Some <==> mm2s_res is Some
                    &&& d.s2mm is Some <==> s2mm_res is Some
                    &&& d.mm2s is Some ==> d.mm2s->0.window == (mm2s_res->0).0 && d.mm2s->0.buffer
                        == (mm2s_res->0).1 && d.mm2s->0.first_transfer
                    &&& d.s2mm is Some ==> d.s2mm->0.window == (s2mm_res->0).0 && d.s2mm->0.buffer
                        == (s2mm_res->0).1 && d.s2mm->0.first_transfer
                },
                Err(Error::UnsupportedIp) => !(id.vendor@ == "xilinx.com"@ && id.library@
                    == "ip"@ && id.name@ == "axi_dma"@),
                Err(Error::Resource) => {
                    &&& id.vendor@ == "xilinx.com"@ && id.library@ == "ip"@ && id.name@
                        == "axi_dma"@
                    &&& ((mm2s_res is Some && (mm2s_res->0).0.image().len() < DMA_WINDOW_WORDS)
                        || (s2mm_res is Some && (s2mm_res->0).0.image().len()
                        < DMA_WINDOW_WORDS))
                },
                Err(_) => false,
            },
    {
        if !id.matches("xilinx.com", "ip", "axi_dma") {
            return Err(Error::UnsupportedIp);
        }
        let mm2s = match mm2s_res {
            None => None,
            Some((w, b)) => {
                let ch = AxiDmaChannel::new(id, DmaChannelMode::MM2S, w, b)?;
                Some(ch)
            },
        };
        let s2mm = match s2mm_res {
            None => None,
            Some((w, b)) => {
                let ch = AxiDmaChannel::new(id, DmaChannelMode::S2MM, w, b)?;
                Some(ch)
            },
        };
        Ok(AxiDma { mm2s, s2mm })
    }

    /// Arm every present channel.
    pub fn start(&mut self)
        requires
            old(self).wf(),
        ensures
            final(self).wf(),
            final(self).mm2s is Some <==> old(self).mm2s is Some,
            final(self).s2mm is Some <==> old(self).s2mm is Some,
            final(self).mm2s is Some ==> final(self).mm2s->0.first_transfer,
            final(self).s2mm is Some ==> final(self).s2mm->0.first_transfer,
            final(self).mm2s is Some ==> final(self).mm2s->0.window.writes() == old(
                self,
            ).mm2s->0.window.writes().push(
                RegWrite { offset: old(self).mm2s->0.offset, value: 1 },
            ),
            final(self).s2mm is Some ==> final(self).s2mm->0.window.writes() == old(
                self,
            ).s2mm->0.window.writes().push(
                RegWrite { offset: old(self).s2mm->0.offset, value: 1 },
            ),
    {
        if let Some(ch) = &mut self.mm2s {
            ch.start();
        }
        if let Some(ch) = &mut self.s2mm {
            ch.start();
        }
    }

    /// Ask every present channel to halt; the first channel whose status
    /// image still shows it running stops the sweep.
    pub fn stop(&mut self) -> (r: Result<(), Error>)
        requires
            old(self).wf(),
        ensures
            final(self).wf(),
            match r {
                Ok(()) => {
                    &&& (old(self).mm2s is Some ==> old(self).mm2s->0.spec_status() & 1 != 0)
                    &&& (old(self).s2mm is Some ==> old(self).s2mm->0.spec_status() & 1 != 0)
                },
                Err(e) => {
                    &&& e == Error::Timeout
                    &&& ((old(self).mm2s is Some && old(self).mm2s->0.spec_status() & 1 == 0)
                        || (old(self).s2mm is Some && old(self).s2mm->0.spec_status() & 1
                        == 0))
                },
            },
    {
        if let Some(ch) = &mut self.mm2s {
            ch.stop()?;
        }
        if let Some(ch) = &mut self.s2mm {
            ch.stop()?;
        }
        Ok(())
    }

    /// Issue a source-side transfer on the source channel.
    pub fn write(&mut self, data: &[u8]) -> (r: Result<(), Error>)
        requires
            old(self).wf(),
        ensures
            final(self).wf(),
            final(self).s2mm == old(self).s2mm,
            final(self).mm2s is Some <==> old(self).mm2s is Some,
            old(self).mm2s is None ==> r == Result::<(), Error>::Err(Error::Protocol)
                && *final(self) == *old(self),
            old(self).mm2s is Some && r is Ok ==> old(self).mm2s->0.spec_may_transfer()
                && !final(self).mm2s->0.first_transfer,
            forall|e: Error|
                r == Result::<(), Error>::Err(e) ==> (e == Error::Protocol || e
                    == Error::Resource),
            r == Result::<(), Error>::Err(Error::Protocol) ==> old(self).mm2s is None || !old(
                self,
            ).mm2s->0.spec_may_transfer(),
            r == Result::<(), Error>::Err(Error::Resource) ==> old(self).mm2s is Some && (
            data@.len() > old(self).mm2s->0.buffer.contents().len() || data@.len()
                > u32::MAX),
    {
        match &mut self.mm2s {
            Some(ch) => ch.write(data),
            None => Err(Error::Protocol),
        }
    }

    /// Issue a source-side transfer of a prefix on the source channel.
    pub fn write_with_size(&mut self, data: &[u8], size: usize) -> (r: Result<(), Error>)
        requires
            old(self).wf(),
        ensures
            final(self).wf(),
            final(self).s2mm == old(self).s2mm,
            final(self).mm2s is Some <==> old(self).mm2s is Some,
            old(self).mm2s is None ==> r == Result::<(), Error>::Err(Error::Protocol)
                && *final(self) == *old(self),
            old(self).mm2s is Some && r is Ok ==> old(self).mm2s->0.spec_may_transfer()
                && size <= data@.len(),
            forall|e: Error|
                r == Result::<(), Error>::Err(e) ==> (e == Error::Protocol || e
                    == Error::Resource),
            r == Result::<(), Error>::Err(Error::Protocol) ==> old(self).mm2s is None || !old(
                self,
            ).mm2s->0.spec_may_transfer() || size > data@.len(),
            r == Result::<(), Error>::Err(Error::Resource) ==> old(self).mm2s is Some && (size
                > old(self).mm2s->0.buffer.contents().len() || size > u32::MAX),
    {
        match &mut self.mm2s {
            Some(ch) => ch.write_with_size(data, size),
            None => Err(Error::Protocol),
        }
    }

    /// Issue a sink-side transfer on the sink channel.
    pub fn read(&mut self, len: usize) -> (r: Result<Vec<u8>, Error>)
        requires
            old(self).wf(),
        ensures
            final(self).wf(),
            final(self).mm2s == old(self).mm2s,
            final(self).s2mm is Some <==> old(self).s2mm is Some,
            old(self).s2mm is None ==> r == Result::<Vec<u8>, Error>::Err(Error::Protocol)
                && *final(self) == *old(self),
            match r {
                Ok(v) => {
                    &&& old(self).s2mm is Some
                    &&& old(self).s2mm->0.spec_may_transfer()
                    &&& v@ == old(self).s2mm->0.buffer.contents().subrange(0, len as int)
                },
                Err(e) => {
                    &&& (e == Error::Protocol ==> old(self).s2mm is None || !old(
                        self,
                    ).s2mm->0.spec_may_transfer())
                    &&& (e == Error::Resource ==> old(self).s2mm is Some && (len > old(
                        self,
                    ).s2mm->0.buffer.contents().len() || len > u32::MAX))
                    &&& (forall|k: crate::errors::DmaFault|
                        e == Error::Hardware(k) ==> old(self).s2mm is Some
                            && crate::axidma::spec_fault_of(old(self).s2mm->0.spec_status())
                            == Some(k))
                    &&& (e == Error::Timeout ==> old(self).s2mm is Some && spec_fault_of(
                        old(self).s2mm->0.spec_status(),
                    ) is None && old(self).s2mm->0.spec_status() & 2 != 2)
                    &&& (e == Error::Protocol || e == Error::Resource || e == Error::Timeout
                        || e matches Error::Hardware(_))
                },
            },
    {
        match &mut self.s2mm {
            Some(ch) => ch.read(len),
            None => Err(Error::Protocol),
        }
    }

    /// Whether the source channel runs; absent channels are refused.
    pub fn is_mm2s_running(&self) -> (r: Result<bool, Error>)
        requires
            self.wf(),
        ensures
            match r {
                Ok(b) => self.mm2s is Some && b == (self.mm2s->0.spec_status() & 1 == 0),
                Err(e) => e == Error::Protocol && self.mm2s is None,
            },
    {
        match &self.mm2s {
            Some(ch) => Ok(ch.is_running()),
            None => Err(Error::Protocol),
        }
    }

    /// Whether the source channel reports idle.
    pub fn is_mm2s_idle(&self) -> (r: Result<bool, Error>)
        requires
            self.wf(),
        ensures
            match r {
                Ok(b) => self.mm2s is Some && b == (self.mm2s->0.spec_status() & 2 == 2),
                Err(e) => e == Error::Protocol && self.mm2s is None,
            },
    {
        match &self.mm2s {
            Some(ch) => Ok(ch.is_idle()),
            None => Err(Error::Protocol),
        }
    }

    /// Whether the source channel reports an error bit.
    pub fn is_mm2s_error(&self) -> (r: Result<bool, Error>)
        requires
            self.wf(),
        ensures
            match r {
                Ok(b) => self.mm2s is Some && b == (self.mm2s->0.spec_status() & 0x70 != 0),
                Err(e) => e == Error::Protocol && self.mm2s is None,
            },
    {
        match &self.mm2s {
            Some(ch) => Ok(ch.is_error()),
            None => Err(Error::Protocol),
        }
    }

    /// Whether the sink channel runs.
    pub fn is_s2mm_running(&self) -> (r: Result<bool, Error>)
        requires
            self.wf(),
        ensures
            match r {
                Ok(b) => self.s2mm is Some && b == (self.s2mm->0.spec_status() & 1 == 0),
                Err(e) => e == Error::Protocol && self.s2mm is None,
            },
    {
        match &self.s2mm {
            Some(ch) => Ok(ch.is_running()),
            None => Err(Error::Protocol),
        }
    }

    /// Whether the sink channel reports idle.
    pub fn is_s2mm_idle(&self) -> (r: Result<bool, Error>)
        requires
            self.wf(),
        ensures
            match r {
                Ok(b) => self.s2mm is Some && b == (self.s2mm->0.spec_status() & 2 == 2),
                Err(e) => e == Error::Protocol && self.s2mm is None,
            },
    {
        match &self.s2mm {
            Some(ch) => Ok(ch.is_idle()),
            None => Err(Error::Protocol),
        }
    }

    /// Whether the sink channel reports an error bit.
    pub fn is_s2mm_error(&self) -> (r: Result<bool, Error>)
        requires
            self.wf(),
        ensures
            match r {
                Ok(b) => self.s2mm is Some && b == (self.s2mm->0.spec_status() & 0x70 != 0),
                Err(e) => e == Error::Protocol && self.s2mm is None,
            },
    {
        match &self.s2mm {
            Some(ch) => Ok(ch.is_error()),
            None => Err(Error::Protocol),
        }
    }
}

} // verus!
