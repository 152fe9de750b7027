use xipdriver_rs::errors::Error;
use xipdriver_rs::hwinfo::HwIdentity;
use xipdriver_rs::regio::{DmaBuffer, RegisterWindow};
use xipdriver_rs::umv_lane_detector::{
    decode_lane_point, LaneDetectorParams, UmvLaneDetector, LD_REG_DETECT_COUNT,
    LD_REG_DETECT_INTERVAL, LD_REG_HLINE_WIDTH_INTERVAL, LD_REG_HORIZON, LD_REG_MEM_BASE,
    LD_REG_MEM_SIZE, LD_REG_START, LD_REG_STATUS, LD_REG_VLINE_WIDTH_INTERVAL,
    LD_REG_VLINE_WIDTH_MIN,
};

fn identity() -> HwIdentity {
    HwIdentity {
        vendor: "slab".to_string(),
        library: "umv_project".to_string(),
        name: "umv_lane_detector".to_string(),
    }
}

fn params() -> LaneDetectorParams {
    LaneDetectorParams {
        image_width: 640,
        image_height: 480,
        max_detect_lines: 64,
        filter_type_default: 2,
    }
}

fn detector() -> UmvLaneDetector {
    UmvLaneDetector::new(&identity(), &params(), RegisterWindow::new(0x100), DmaBuffer::new(
        64,
        0x5000_0000,
    ))
    .unwrap()
}

#[test]
fn lane_point_unpacks_the_bit_fields() {
    // direction 1 in bits 31-28, column 5 in bits 27-14, row 3 in bits 13-0.
    let word = (1u32 << 28) | (5 << 14) | 3;
    let p = decode_lane_point(word);
    assert_eq!(p.direction, 1);
    assert_eq!(p.x, 5);
    assert_eq!(p.y, 3);
    let p = decode_lane_point(0xFFFF_FFFF);
    assert_eq!(p.direction, 0xF);
    assert_eq!(p.x, 0x3FFF);
    assert_eq!(p.y, 0x3FFF);
    let p = decode_lane_point(0x0005_0003);
    assert_eq!(p.direction, 0);
    assert_eq!(p.x, 20);
    assert_eq!(p.y, 3);
}

#[test]
fn defaults_and_log2_cap() {
    let d = detector();
    assert_eq!(d.max_detect_interval, 6);
    assert_eq!(d.filter_type, 2);
    assert_eq!(d.bin_filter_thresh, 120);
    assert_eq!(d.get_image_width(), 640);
    assert_eq!(d.get_image_height(), 480);
    // A line capacity that is not a power of two still caps at the floor.
    let p = LaneDetectorParams { max_detect_lines: 100, ..params() };
    let d = UmvLaneDetector::new(&identity(), &p, RegisterWindow::new(0x100), DmaBuffer::new(
        64, 0,
    ))
    .unwrap();
    assert_eq!(d.max_detect_interval, 6);
    let p = LaneDetectorParams { max_detect_lines: 0, ..params() };
    let d = UmvLaneDetector::new(&identity(), &p, RegisterWindow::new(0x100), DmaBuffer::new(
        64, 0,
    ))
    .unwrap();
    assert_eq!(d.max_detect_interval, 0);
}

#[test]
fn configure_derives_the_intervals() {
    let mut d = detector();
    d.findlines_horizon = 80;
    d.fl_vline_width_min = 60;
    d.fl_vline_width_max = 99;
    d.fl_hline_width_min = 50;
    d.fl_hline_width_max = 50;
    d.fl_detect_interval = 9;
    d.configure_all().unwrap();
    let writes = d.window.take_writes();
    assert_eq!(writes.len(), 20);
    let find = |off: usize| writes.iter().find(|w| w.offset == off).unwrap().value;
    // (480 - 80) / (99 - 60 + 1) = 10.
    assert_eq!(find(LD_REG_VLINE_WIDTH_INTERVAL), 10);
    assert_eq!(find(LD_REG_VLINE_WIDTH_MIN), 60);
    // (480 - 80) / 1 = 400.
    assert_eq!(find(LD_REG_HLINE_WIDTH_INTERVAL), 400);
    // The requested interval 9 is capped at log2(64) = 6.
    assert_eq!(find(LD_REG_DETECT_INTERVAL), 6);
    assert_eq!(find(LD_REG_MEM_BASE), 0x5000_0000);
    assert_eq!(find(LD_REG_MEM_SIZE), 16);
    assert_eq!(find(LD_REG_HORIZON), 80);
}

#[test]
fn incoherent_windows_are_refused() {
    let mut d = detector();
    d.findlines_horizon = 481;
    assert_eq!(d.configure_all().unwrap_err(), Error::Protocol);
    assert_eq!(d.window.take_writes().len(), 0);
    d.findlines_horizon = 0;
    d.fl_vline_width_min = 10;
    d.fl_vline_width_max = 9;
    assert_eq!(d.start().unwrap_err(), Error::Protocol);
}

#[test]
fn read_data_decodes_the_reported_points() {
    let mut d = detector();
    let words = [
        (1u32 << 28) | (5 << 14) | 3,
        (2u32 << 28) | (600 << 14) | 479,
        (15u32 << 28) | (0x3FFF << 14) | 0x3FFF,
    ];
    d.buffer.copy_words_from(0, &words).unwrap();
    d.window.deposit(LD_REG_STATUS, 3);
    d.window.deposit(LD_REG_DETECT_COUNT, 3);
    let points = d.read_data().unwrap();
    assert_eq!(points.len(), 3);
    assert_eq!((points[0].direction, points[0].x, points[0].y), (1, 5, 3));
    assert_eq!((points[1].direction, points[1].x, points[1].y), (2, 600, 479));
    assert_eq!((points[2].direction, points[2].x, points[2].y), (15, 0x3FFF, 0x3FFF));
    let writes = d.window.take_writes();
    assert_eq!(writes[0].offset, LD_REG_START);
    assert_eq!(writes[0].value, 0);
    // A count beyond the buffer is clipped to the buffer's sixteen words.
    d.window.deposit(LD_REG_DETECT_COUNT, 1000);
    let points = d.read_data().unwrap();
    assert_eq!(points.len(), 16);
}

#[test]
fn read_data_waits_for_idle_or_done() {
    let mut d = detector();
    d.window.deposit(LD_REG_STATUS, 2);
    assert_eq!(d.read_data().unwrap_err(), Error::Timeout);
    d.window.deposit(LD_REG_STATUS, 1);
    assert_eq!(d.stop().unwrap_err(), Error::Timeout);
    d.window.deposit(LD_REG_STATUS, 0);
    d.stop().unwrap();
}

#[test]
fn status_words_name_the_states() {
    let mut d = detector();
    d.window.deposit(LD_REG_STATUS, 0);
    assert!(d.is_idle());
    d.window.deposit(LD_REG_STATUS, 1);
    assert!(d.is_waiting());
    d.window.deposit(LD_REG_STATUS, 2);
    assert!(d.is_running());
    d.window.deposit(LD_REG_STATUS, 3);
    assert!(d.is_done());
    assert_eq!(d.get_status(), 3);
}

#[test]
fn read_params_reconstructs_the_windows() {
    let mut d = detector();
    d.findlines_horizon = 80;
    d.fl_vline_width_min = 60;
    d.fl_vline_width_max = 99;
    d.configure_all().unwrap();
    let mut fresh = detector();
    // Mirror the programmed registers into the fresh driver's image.
    for w in d.window.take_writes() {
        fresh.window.deposit(w.offset, w.value);
    }
    fresh.read_params().unwrap();
    assert_eq!(fresh.findlines_horizon, 80);
    assert_eq!(fresh.fl_vline_width_min, 60);
    assert_eq!(fresh.fl_vline_width_max, 99);
    assert_eq!(fresh.filter_type, 2);
    // A zero interval in the image cannot be inverted.
    fresh.window.deposit(LD_REG_VLINE_WIDTH_INTERVAL, 0);
    assert_eq!(fresh.read_params().unwrap_err(), Error::Protocol);
}
