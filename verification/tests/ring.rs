use xipdriver_rs::errors::Error;
use xipdriver_rs::hwinfo::HwIdentity;
use xipdriver_rs::regio::{DmaBuffer, RegisterWindow};
use xipdriver_rs::vdma::{
    AxiVdmaMM2S, FRAME_DONE_BIT, MM2S_DMACR, MM2S_DMASR, MM2S_HSIZE, MM2S_VSIZE,
    PARK_PTR_REG,
};

fn identity() -> HwIdentity {
    HwIdentity {
        vendor: "xilinx.com".to_string(),
        library: "ip".to_string(),
        name: "axi_vdma".to_string(),
    }
}

fn engine() -> AxiVdmaMM2S {
    let buffers = vec![
        DmaBuffer::new(64, 0x1000_0000),
        DmaBuffer::new(64, 0x1100_0000),
        DmaBuffer::new(64, 0x1200_0000),
    ];
    AxiVdmaMM2S::new(&identity(), RegisterWindow::new(0x100), buffers).unwrap()
}

fn small_frame_engine() -> AxiVdmaMM2S {
    let mut e = engine();
    e.frame_width = 4;
    e.frame_height = 2;
    e.bytes_per_pix = 2;
    e
}

#[test]
fn construction_checks_identity_and_ring() {
    let wrong = HwIdentity {
        vendor: "xilinx.com".to_string(),
        library: "ip".to_string(),
        name: "axi_dma".to_string(),
    };
    assert_eq!(
        AxiVdmaMM2S::new(&wrong, RegisterWindow::new(0x100), Vec::new()).unwrap_err(),
        Error::UnsupportedIp
    );
    assert_eq!(
        AxiVdmaMM2S::new(&identity(), RegisterWindow::new(0x100), Vec::new()).unwrap_err(),
        Error::Resource
    );
    let e = engine();
    assert_eq!(e.frame_buffers, 3);
    assert_eq!(e.desired_frame, 1);
}

#[test]
fn start_programs_addresses_then_geometry_then_run() {
    let mut e = small_frame_engine();
    e.start().unwrap();
    let writes = e.window.take_writes();
    assert_eq!(writes.len(), 7);
    // The three slot addresses, in slot order, before anything else.
    assert_eq!(writes[0].offset, 0x5C);
    assert_eq!(writes[0].value, 0x1000_0000);
    assert_eq!(writes[1].offset, 0x60);
    assert_eq!(writes[1].value, 0x1100_0000);
    assert_eq!(writes[2].offset, 0x64);
    assert_eq!(writes[2].value, 0x1200_0000);
    assert_eq!(writes[3].offset, MM2S_HSIZE);
    assert_eq!(writes[3].value, 8);
    // Stride lands in the stride register with the frame-delay field kept.
    assert_eq!(writes[4].offset, 0x58);
    assert_eq!(writes[4].value, 8);
    // The vertical size commits the geometry before the run bit.
    assert_eq!(writes[5].offset, MM2S_VSIZE);
    assert_eq!(writes[5].value, 2);
    assert_eq!(writes[6].offset, MM2S_DMACR);
    assert_eq!(writes[6].value, 0x0001_1089);
}

#[test]
fn write_frame_requires_the_done_bit() {
    let mut e = small_frame_engine();
    let frame = [0u8; 16];
    assert_eq!(e.write_frame(&frame).unwrap_err(), Error::Timeout);
}

#[test]
fn write_frame_fills_the_next_slot() {
    let mut e = small_frame_engine();
    e.window.deposit(MM2S_DMASR, FRAME_DONE_BIT);
    // Hardware streams slot 2, desired field says 0: the next slot is 1.
    e.window.deposit(PARK_PTR_REG, 2 << 16);
    let frame: Vec<u8> = (1u8..=16).collect();
    e.write_frame(&frame).unwrap();
    assert_eq!(e.desired_frame, 1);
    assert_eq!(e.buffers[1].copy_to(0, 16).unwrap(), frame);
    // The untouched slots keep their zeroed contents.
    assert_eq!(e.buffers[0].copy_to(0, 16).unwrap(), vec![0u8; 16]);
    assert_eq!(e.buffers[2].copy_to(0, 16).unwrap(), vec![0u8; 16]);
    let writes = e.window.take_writes();
    assert_eq!(writes.len(), 3);
    assert_eq!(writes[0].offset, MM2S_DMASR);
    assert_eq!(writes[0].value, FRAME_DONE_BIT);
    assert_eq!(writes[1].offset, MM2S_VSIZE);
    assert_eq!(writes[1].value, 2);
    assert_eq!(writes[2].offset, PARK_PTR_REG);
    assert_eq!(writes[2].value, (2 << 16) | 1);
}

#[test]
fn write_frame_never_touches_the_active_slot() {
    // The simulated hardware advances its active frame arbitrarily between
    // calls; every admitted write must land outside it.
    let mut e = small_frame_engine();
    let frame = [7u8; 16];
    let active_walk = [0u32, 2, 1, 1, 0, 2, 2, 1, 0];
    let mut desired: u32 = 1;
    for (step, active) in active_walk.iter().enumerate() {
        e.window.deposit(MM2S_DMASR, FRAME_DONE_BIT);
        e.window.deposit(PARK_PTR_REG, (active << 16) | desired);
        let target = (desired + 1) % 3;
        match e.write_frame(&frame) {
            Ok(()) => {
                assert_ne!(target, *active, "step {}", step);
                assert_eq!(e.desired_frame as u32, target);
                desired = target;
            }
            Err(e) => {
                assert_eq!(e, Error::Protocol);
                assert_eq!(target, *active, "step {}", step);
            }
        }
        e.window.take_writes();
    }
}

#[test]
fn park_pointer_fields_are_split() {
    let mut e = engine();
    e.window.deposit(PARK_PTR_REG, (5 << 16) | 3);
    assert_eq!(e.read_desired_frame(), 3);
    assert_eq!(e.read_active_frame(), 5);
}

#[test]
fn stop_and_reset_follow_the_halt_protocol() {
    let mut e = engine();
    // The status image still shows the channel running (halted bit clear).
    assert_eq!(e.stop().unwrap_err(), Error::Timeout);
    e.window.deposit(MM2S_DMASR, 1);
    e.stop().unwrap();
    e.window.take_writes();
    e.reset().unwrap();
    let writes = e.window.take_writes();
    assert_eq!(writes.len(), 2);
    assert_eq!(writes[0].value, 0x0001_1080);
    assert_eq!(writes[1].value, 0x0001_1084);
    // The image now holds the soft-reset bit until the device clears it.
    assert!(!e.reset_done());
    e.window.deposit(MM2S_DMACR, 0x0001_1080);
    assert!(e.reset_done());
    e.finish_reset();
}
