use xipdriver_rs::axidma::{
    AxiDma, AxiDmaChannel, DmaChannelMode, DMASR, LENGTH, SA, S2MM_OFFSET,
};
use xipdriver_rs::errors::{DmaFault, Error};
use xipdriver_rs::hwinfo::HwIdentity;
use xipdriver_rs::regio::{DmaBuffer, RegisterWindow};

fn identity() -> HwIdentity {
    HwIdentity {
        vendor: "xilinx.com".to_string(),
        library: "ip".to_string(),
        name: "axi_dma".to_string(),
    }
}

fn channel(mode: DmaChannelMode) -> AxiDmaChannel {
    AxiDmaChannel::new(&identity(), mode, RegisterWindow::new(0x100), DmaBuffer::new(
        32,
        0x6000_0000,
    ))
    .unwrap()
}

#[test]
fn write_needs_direction_run_and_idle() {
    let mut sink = channel(DmaChannelMode::S2MM);
    assert_eq!(sink.write(&[1, 2, 3]).unwrap_err(), Error::Protocol);
    let mut src = channel(DmaChannelMode::MM2S);
    // The status image boots as halted: not started yet.
    src.window.deposit(DMASR, 1);
    assert_eq!(src.write(&[1, 2, 3]).unwrap_err(), Error::Protocol);
    src.start();
    src.window.deposit(DMASR, 0);
    src.write(&[1, 2, 3]).unwrap();
    // Not idle and no longer fresh: the next transfer is refused, and the
    // refusal leaves the DMA buffer as it was.
    assert!(!src.first_transfer);
    assert_eq!(src.write(&[4]).unwrap_err(), Error::Protocol);
    assert_eq!(src.buffer.copy_to(0, 3).unwrap(), vec![1, 2, 3]);
    // Once the image reports idle it goes through again.
    src.window.deposit(DMASR, 2);
    src.write(&[4]).unwrap();
}

#[test]
fn write_programs_address_and_length() {
    let mut src = channel(DmaChannelMode::MM2S);
    src.start();
    let data = [9u8, 8, 7, 6, 5];
    src.write(&data).unwrap();
    assert_eq!(src.buffer.copy_to(0, 5).unwrap(), data);
    let writes = src.window.take_writes();
    assert_eq!(writes.len(), 3);
    assert_eq!(writes[0].offset, 0x00);
    assert_eq!(writes[0].value, 1);
    assert_eq!(writes[1].offset, SA);
    assert_eq!(writes[1].value, 0x6000_0000);
    assert_eq!(writes[2].offset, LENGTH);
    assert_eq!(writes[2].value, 5);
    assert_eq!(src.read_len(), 5);
}

#[test]
fn write_with_size_takes_a_prefix() {
    let mut src = channel(DmaChannelMode::MM2S);
    src.start();
    let data = [1u8, 2, 3, 4, 5, 6];
    src.write_with_size(&data, 4).unwrap();
    assert_eq!(src.buffer.copy_to(0, 4).unwrap(), &data[..4]);
    assert_eq!(src.write_with_size(&data, 7).unwrap_err(), Error::Protocol);
    let oversized = [0u8; 40];
    src.window.deposit(DMASR, 2);
    assert_eq!(src.write_with_size(&oversized, 40).unwrap_err(), Error::Resource);
}

#[test]
fn read_copies_the_received_bytes() {
    let mut sink = channel(DmaChannelMode::S2MM);
    sink.start();
    // The device has filled the buffer and reports idle.
    let received = [3u8, 1, 4, 1, 5, 9];
    sink.buffer.copy_from(0, &received).unwrap();
    sink.window.deposit(S2MM_OFFSET + DMASR, 2);
    let out = sink.read(6).unwrap();
    assert_eq!(out, received);
    let writes = sink.window.take_writes();
    assert_eq!(writes[writes.len() - 2].offset, S2MM_OFFSET + SA);
    assert_eq!(writes[writes.len() - 1].offset, S2MM_OFFSET + LENGTH);
    assert_eq!(writes[writes.len() - 1].value, 6);
}

#[test]
fn read_decodes_each_error_bit() {
    let mut sink = channel(DmaChannelMode::S2MM);
    sink.start();
    sink.window.deposit(S2MM_OFFSET + DMASR, 0x10);
    assert_eq!(sink.read(4).unwrap_err(), Error::Hardware(DmaFault::Internal));
    sink.window.deposit(S2MM_OFFSET + DMASR, 0x20);
    assert_eq!(sink.read(4).unwrap_err(), Error::Hardware(DmaFault::Slave));
    sink.window.deposit(S2MM_OFFSET + DMASR, 0x40);
    assert_eq!(sink.read(4).unwrap_err(), Error::Hardware(DmaFault::Decode));
    // Busy without error: the caller refreshes the image and retries.
    sink.window.deposit(S2MM_OFFSET + DMASR, 0);
    assert_eq!(sink.read(4).unwrap_err(), Error::Timeout);
}

#[test]
fn wait_reports_the_channel_state() {
    let mut src = channel(DmaChannelMode::MM2S);
    src.window.deposit(DMASR, 1);
    assert_eq!(src.wait().unwrap_err(), Error::Protocol);
    src.window.deposit(DMASR, 0);
    assert_eq!(src.wait().unwrap_err(), Error::Timeout);
    src.window.deposit(DMASR, 2);
    src.wait().unwrap();
    src.window.deposit(DMASR, 0x12);
    assert_eq!(src.wait().unwrap_err(), Error::Hardware(DmaFault::Internal));
}

#[test]
fn stop_waits_for_the_halted_bit() {
    let mut src = channel(DmaChannelMode::MM2S);
    src.window.deposit(DMASR, 0);
    assert_eq!(src.stop().unwrap_err(), Error::Timeout);
    src.window.deposit(DMASR, 1);
    src.stop().unwrap();
}

#[test]
fn engine_routes_to_the_present_channels() {
    let mut engine = AxiDma::new(
        &identity(),
        Some((RegisterWindow::new(0x100), DmaBuffer::new(32, 0x10))),
        None,
    )
    .unwrap();
    assert!(engine.mm2s.is_some());
    assert!(engine.s2mm.is_none());
    engine.start();
    engine.write(&[1, 2]).unwrap();
    assert_eq!(engine.read(2).unwrap_err(), Error::Protocol);
    assert_eq!(engine.is_s2mm_idle().unwrap_err(), Error::Protocol);
    assert!(engine.is_mm2s_running().unwrap());
    let both = AxiDma::new(
        &identity(),
        Some((RegisterWindow::new(0x100), DmaBuffer::new(32, 0x10))),
        Some((RegisterWindow::new(0x100), DmaBuffer::new(32, 0x20))),
    )
    .unwrap();
    assert!(both.s2mm.is_some());
    let wrong = HwIdentity {
        vendor: "xilinx.com".to_string(),
        library: "ip".to_string(),
        name: "axi_vdma".to_string(),
    };
    assert_eq!(AxiDma::new(&wrong, None, None).unwrap_err(), Error::UnsupportedIp);
}
