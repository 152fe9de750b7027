use xipdriver_rs::errors::Error;
use xipdriver_rs::hwinfo::HwIdentity;
use xipdriver_rs::regio::{DmaBuffer, RegisterWindow};
use xipdriver_rs::v_frmbuf::{
    ColorFormat, FrameBufParams, VideoFrameBufRead, VideoFrameBufWrite, REG_ADDR, REG_CTRL,
    REG_FORMAT, REG_HEIGHT, REG_STRIDE, REG_WIDTH,
};

fn read_identity() -> HwIdentity {
    HwIdentity {
        vendor: "xilinx.com".to_string(),
        library: "ip".to_string(),
        name: "v_frmbuf_rd".to_string(),
    }
}

fn write_identity() -> HwIdentity {
    HwIdentity {
        vendor: "xilinx.com".to_string(),
        library: "ip".to_string(),
        name: "v_frmbuf_wr".to_string(),
    }
}

fn params() -> FrameBufParams {
    FrameBufParams {
        max_width: 1280,
        max_height: 720,
        has_rgb8: true,
        has_yuyv8: true,
        pix_per_clk: 1,
    }
}

fn read_stage() -> VideoFrameBufRead {
    VideoFrameBufRead::new(&read_identity(), &params(), RegisterWindow::new(0x100), DmaBuffer::new(
        1280 * 720 * 3,
        0x1000_0000,
    ))
    .unwrap()
}

#[test]
fn stride_multiple_of_map_width_stays() {
    let mut d = read_stage();
    d.set_format("RGB8").unwrap();
    d.frame_width = 1280;
    d.frame_height = 720;
    d.write_format().unwrap();
    let writes = d.window.take_writes();
    assert_eq!(writes.len(), 4);
    assert_eq!(writes[0].offset, REG_WIDTH);
    assert_eq!(writes[0].value, 1280);
    assert_eq!(writes[1].offset, REG_HEIGHT);
    assert_eq!(writes[1].value, 720);
    assert_eq!(writes[2].offset, REG_STRIDE);
    assert_eq!(writes[2].value, 3840);
    assert_eq!(writes[3].offset, REG_FORMAT);
    assert_eq!(writes[3].value, 20);
}

#[test]
fn stride_rounds_up_to_map_width() {
    let mut d = VideoFrameBufRead::new(
        &read_identity(),
        &FrameBufParams { max_width: 2048, ..params() },
        RegisterWindow::new(0x100),
        DmaBuffer::new(16, 0),
    )
    .unwrap();
    d.set_format("RGB8").unwrap();
    d.frame_width = 1281;
    d.frame_height = 720;
    d.write_format().unwrap();
    let writes = d.window.take_writes();
    assert_eq!(writes[2].offset, REG_STRIDE);
    assert_eq!(writes[2].value, 3848);
}

#[test]
fn format_must_be_set_before_writing() {
    let mut d = read_stage();
    assert_eq!(d.write_format().unwrap_err(), Error::Protocol);
    assert_eq!(d.window.take_writes().len(), 0);
}

#[test]
fn oversized_frame_is_refused() {
    let mut d = read_stage();
    d.set_format("YUYV").unwrap();
    d.frame_width = 1281;
    d.frame_height = 721;
    assert_eq!(d.write_format().unwrap_err(), Error::Protocol);
    d.frame_width = 1280;
    assert_eq!(d.write_format().unwrap_err(), Error::Protocol);
    d.frame_height = 720;
    d.write_format().unwrap();
}

#[test]
fn unsupported_format_is_refused() {
    let no_yuyv = FrameBufParams { has_yuyv8: false, ..params() };
    let mut d = VideoFrameBufRead::new(
        &read_identity(),
        &no_yuyv,
        RegisterWindow::new(0x100),
        DmaBuffer::new(16, 0),
    )
    .unwrap();
    assert_eq!(d.set_format("YUYV").unwrap_err(), Error::UnsupportedFormat);
    assert_eq!(d.set_format("NV12").unwrap_err(), Error::UnsupportedFormat);
    d.set_format("RGB8").unwrap();
    assert_eq!(d.get_format().unwrap(), "RGB8");
}

#[test]
fn identity_and_resources_are_checked() {
    let wrong = HwIdentity {
        vendor: "xilinx.com".to_string(),
        library: "ip".to_string(),
        name: "axi_dma".to_string(),
    };
    assert_eq!(
        VideoFrameBufRead::new(&wrong, &params(), RegisterWindow::new(0x100), DmaBuffer::new(16, 0))
            .unwrap_err(),
        Error::UnsupportedIp
    );
    assert_eq!(
        VideoFrameBufRead::new(
            &read_identity(),
            &params(),
            RegisterWindow::new(8),
            DmaBuffer::new(16, 0)
        )
        .unwrap_err(),
        Error::Resource
    );
    let bad = FrameBufParams { pix_per_clk: 0, ..params() };
    assert_eq!(
        VideoFrameBufRead::new(
            &read_identity(),
            &bad,
            RegisterWindow::new(0x100),
            DmaBuffer::new(16, 0)
        )
        .unwrap_err(),
        Error::Configuration
    );
}

#[test]
fn write_frame_copies_and_starts() {
    let mut d = VideoFrameBufRead::new(
        &read_identity(),
        &FrameBufParams { max_width: 4, max_height: 2, ..params() },
        RegisterWindow::new(0x100),
        DmaBuffer::new(64, 0x2000_0000),
    )
    .unwrap();
    d.set_format("YUYV").unwrap();
    d.frame_width = 4;
    d.frame_height = 2;
    let frame: Vec<u8> = (0u8..16).collect();
    d.write_frame(&frame).unwrap();
    let copied = d.buffer.copy_to(0, 16).unwrap();
    assert_eq!(copied, frame);
    let writes = d.window.take_writes();
    assert_eq!(writes.len(), 6);
    assert_eq!(writes[4].offset, REG_ADDR);
    assert_eq!(writes[4].value, 0x2000_0000);
    assert_eq!(writes[5].offset, REG_CTRL);
    assert_eq!(writes[5].value, 0x81);
    let short = vec![0u8; 3];
    assert_eq!(d.write_frame(&short).unwrap_err(), Error::Resource);
}

#[test]
fn calc_stride_follows_format_ratio() {
    let mut d = read_stage();
    d.frame_width = 1280;
    assert_eq!(d.calc_stride(ColorFormat::Rgb8), 3840);
    assert_eq!(d.calc_stride(ColorFormat::Yuyv8), 2560);
    assert_eq!(d.calc_stride(ColorFormat::Y8), 1280);
    assert_eq!(d.calc_stride(ColorFormat::Rgbx8), 5120);
    assert_eq!(d.calc_stride(ColorFormat::YUv12), 1920);
    d.frame_width = 1281;
    assert_eq!(d.calc_stride(ColorFormat::Rgb8), 3848);
}

#[test]
fn write_stage_round_trips_a_frame() {
    let mut d = VideoFrameBufWrite::new(
        &write_identity(),
        &FrameBufParams { max_width: 4, max_height: 2, ..params() },
        RegisterWindow::new(0x100),
        DmaBuffer::new(64, 0x3000_0000),
    )
    .unwrap();
    d.set_format("RGB8").unwrap();
    d.frame_width = 4;
    d.frame_height = 2;
    let captured: Vec<u8> = (10u8..34).collect();
    d.buffer.copy_from(0, &captured).unwrap();
    let frame = d.read_frame().unwrap();
    assert_eq!(frame, captured);
    let writes = d.window.take_writes();
    assert_eq!(writes[0].offset, REG_CTRL);
    assert_eq!(writes[0].value, 0);
    assert_eq!(writes[writes.len() - 1].value, 0x81);
    assert_eq!(d.get_addr(), 0x3000_0000);
}

#[test]
fn tie_binds_the_write_stage_buffer() {
    let w = VideoFrameBufWrite::new(
        &write_identity(),
        &params(),
        RegisterWindow::new(0x100),
        DmaBuffer::new(16, 0x4444_0000),
    )
    .unwrap();
    let mut r = read_stage();
    r.tie(&w);
    r.write_framebuf_addr();
    let writes = r.window.take_writes();
    assert_eq!(writes[0].offset, REG_ADDR);
    assert_eq!(writes[0].value, 0x4444_0000);
    r.untie();
    r.write_framebuf_addr();
    let writes = r.window.take_writes();
    assert_eq!(writes[0].value, 0x1000_0000);
}

#[test]
fn status_bits_follow_the_deposited_word() {
    let mut d = read_stage();
    d.window.deposit(REG_CTRL, 0x1);
    assert!(d.is_running());
    assert!(!d.is_ready());
    d.window.deposit(REG_CTRL, 0x6);
    assert!(d.is_done());
    assert!(d.is_idle());
    assert!(d.is_ready());
    d.window.deposit(REG_CTRL, 0x80);
    assert!(d.get_auto_restart_enable());
}
