use xipdriver_rs::axigpio::AxiGpio;
use xipdriver_rs::axis_switch::{AxisSwitch, SWITCH_DISABLE};
use xipdriver_rs::bird_eye_view::{
    BirdEyeViewHW, BEV_REG_CTRL, BEV_REG_IMG_IN, BEV_REG_IMG_MAP, BEV_REG_IMG_OUT,
};
use xipdriver_rs::errors::{DmaFault, Error};
use xipdriver_rs::regio::{DmaBuffer, RegisterWindow};
use xipdriver_rs::yolo::{get_addrs, Yolo};
use xipdriver_rs::hwinfo::HwIdentity;

fn ident(vendor: &str, library: &str, name: &str) -> HwIdentity {
    HwIdentity {
        vendor: vendor.to_string(),
        library: library.to_string(),
        name: name.to_string(),
    }
}

#[test]
fn gpio_channels_use_their_registers() {
    let mut g = AxiGpio::new(&ident("xilinx.com", "ip", "axi_gpio"), RegisterWindow::new(
        0x10,
    ))
    .unwrap();
    g.write_data(1, 0xAB).unwrap();
    g.write_data(2, 0xCD).unwrap();
    g.write_tri(1, 0xF0).unwrap();
    g.write_tri(2, 0x0F).unwrap();
    let writes = g.window.take_writes();
    assert_eq!(writes[0].offset, 0x00);
    assert_eq!(writes[1].offset, 0x08);
    assert_eq!(writes[2].offset, 0x04);
    assert_eq!(writes[3].offset, 0x0C);
    assert_eq!(g.read_data(1).unwrap(), 0xAB);
    assert_eq!(g.read_tri(2).unwrap(), 0x0F);
    assert_eq!(g.read_data(3).unwrap_err(), Error::Protocol);
    assert_eq!(g.write_tri(0, 1).unwrap_err(), Error::Protocol);
}

#[test]
fn switch_routes_and_disables_ports() {
    let mut s = AxisSwitch::new(&ident("xilinx.com", "ip", "axis_switch"), RegisterWindow::new(
        0x80,
    ))
    .unwrap();
    s.enable_mi_port(2, 1).unwrap();
    assert!(s.is_mi_port_enabled(2, 1).unwrap());
    assert!(!s.is_mi_port_disabled(2).unwrap());
    s.disable_mi_port(2).unwrap();
    assert!(s.is_mi_port_disabled(2).unwrap());
    assert!(!s.is_mi_port_enabled(2, 1).unwrap());
    assert_eq!(s.enable_mi_port(16, 0).unwrap_err(), Error::Protocol);
    s.window.take_writes();
    s.disable_all_mi_ports();
    let writes = s.window.take_writes();
    assert_eq!(writes.len(), 16);
    assert!(writes.iter().all(|w| w.value == SWITCH_DISABLE));
    assert_eq!(writes[0].offset, 0x40);
    assert_eq!(writes[15].offset, 0x7C);
    s.window.deposit(0x00, 0x1);
    s.reg_update_enable(0x00).unwrap();
    let writes = s.window.take_writes();
    assert_eq!(writes[0].value, 0x3);
    s.reg_update_disable(0x00).unwrap();
    let writes = s.window.take_writes();
    assert_eq!(writes[0].value, 0x1);
}

#[test]
fn bird_eye_view_moves_images_through_its_regions() {
    let buffers = vec![
        DmaBuffer::new(1280 * 720 * 4, 0x1000_0000),
        DmaBuffer::new(1280 * 720 * 4, 0x2000_0000),
        DmaBuffer::new(1280 * 720 * 4, 0x3000_0000),
    ];
    let mut b = BirdEyeViewHW::new(
        &ident("xilinx.com", "hls", "bird_eye_view"),
        RegisterWindow::new(0x40),
        buffers,
    )
    .unwrap();
    b.set_img_in_addr().unwrap();
    b.set_img_map_addr().unwrap();
    b.set_img_out_addr().unwrap();
    b.start_once().unwrap();
    let writes = b.window.take_writes();
    assert_eq!(writes[0].offset, BEV_REG_IMG_IN);
    assert_eq!(writes[0].value, 0x1000_0000);
    assert_eq!(writes[1].offset, BEV_REG_IMG_MAP);
    assert_eq!(writes[1].value, 0x2000_0000);
    assert_eq!(writes[2].offset, BEV_REG_IMG_OUT);
    assert_eq!(writes[2].value, 0x3000_0000);
    assert_eq!(writes[3].offset, BEV_REG_CTRL);
    assert_eq!(writes[3].value, 1);
    let img: Vec<u32> = (0..8).collect();
    b.write_img_in(&img).unwrap();
    let map: Vec<u32> = (100..108).collect();
    b.write_img_map(&map).unwrap();
    let out = b.read_img_out().unwrap();
    assert_eq!(out.len(), 1280 * 720);
    assert_eq!(&out[..4], &[0, 0, 0, 0]);
    let too_big = vec![0u32; 1280 * 720 + 1];
    assert_eq!(b.write_img_in(&too_big).unwrap_err(), Error::Resource);
}

#[test]
fn yolo_tables_and_named_registers() {
    assert_eq!(get_addrs("yolo_acc_top").unwrap().len(), 5);
    assert_eq!(get_addrs("yolo_conv_top").unwrap().len(), 8);
    assert_eq!(get_addrs("yolo_max_pool_top").unwrap().len(), 6);
    assert_eq!(get_addrs("yolo_upsamp_top").unwrap().len(), 0);
    assert_eq!(get_addrs("yolo_yolo_top").unwrap().len(), 3);
    assert_eq!(get_addrs("yolo_other").unwrap_err(), Error::UnsupportedIp);

    let mut y = Yolo::new(&ident("xilinx.com", "hls", "yolo_conv_top"), RegisterWindow::new(
        0x50,
    ))
    .unwrap();
    y.set("INPUT_H", 416).unwrap();
    y.set("INPUT_W", 416).unwrap();
    assert_eq!(y.set("NO_SUCH_FIELD", 1).unwrap_err(), Error::NotFound);
    assert_eq!(y.get("INPUT_H").unwrap(), 416);
    let writes = y.window.take_writes();
    assert_eq!(writes[0].offset, 0x30);
    assert_eq!(writes[1].offset, 0x38);
    // The start strobe keeps the auto-restart bit already latched.
    y.window.deposit(0x00, 0x80);
    y.start();
    let writes = y.window.take_writes();
    assert_eq!(writes[0].value, 0x81);
    y.window.deposit(0x00, 0x6);
    assert!(y.is_done());
    assert!(y.is_idle());
    assert!(y.is_ready());
    assert_eq!(
        Yolo::new(&ident("xilinx.com", "ip", "yolo_conv_top"), RegisterWindow::new(0x50))
            .unwrap_err(),
        Error::UnsupportedIp
    );
}

#[test]
fn every_error_describes_itself() {
    let all = [
        Error::Configuration,
        Error::UnsupportedIp,
        Error::Resource,
        Error::Protocol,
        Error::Hardware(DmaFault::Internal),
        Error::Hardware(DmaFault::Slave),
        Error::Hardware(DmaFault::Decode),
        Error::UnsupportedFormat,
        Error::Timeout,
        Error::NotFound,
        Error::Parse,
    ];
    for e in all {
        assert!(!e.describe().is_empty());
    }
}

#[test]
fn register_window_logs_writes_and_keeps_deposits_silent() {
    let mut w = RegisterWindow::new(0x20);
    assert_eq!(w.word_len(), 8);
    w.write32(0x04, 77);
    w.deposit(0x08, 99);
    assert_eq!(w.read32(0x04), 77);
    assert_eq!(w.read32(0x08), 99);
    let writes = w.take_writes();
    assert_eq!(writes.len(), 1);
    assert_eq!(writes[0].offset, 0x04);
    assert_eq!(writes[0].value, 77);
    assert_eq!(w.take_writes().len(), 0);
}

#[test]
fn dma_buffer_checks_its_bounds() {
    let mut b = DmaBuffer::new(8, 0x42);
    assert_eq!(b.phys_addr(), 0x42);
    assert_eq!(b.size(), 8);
    b.copy_from(2, &[1, 2, 3]).unwrap();
    assert_eq!(b.copy_to(0, 8).unwrap(), vec![0, 0, 1, 2, 3, 0, 0, 0]);
    assert_eq!(b.copy_from(6, &[1, 2, 3]).unwrap_err(), Error::Resource);
    assert_eq!(b.copy_to(5, 4).unwrap_err(), Error::Resource);
    b.copy_words_from(0, &[0x0403_0201, 0x0807_0605]).unwrap();
    assert_eq!(b.copy_to(0, 8).unwrap(), vec![1, 2, 3, 4, 5, 6, 7, 8]);
    assert_eq!(b.read_word(1).unwrap(), 0x0807_0605);
    assert_eq!(b.read_word(2).unwrap_err(), Error::Resource);
}
