use xipdriver_rs::errors::Error;
use xipdriver_rs::fixed::{q312_decode, q312_encode};
use xipdriver_rs::hwh_parser::Ip;
use xipdriver_rs::regio::RegisterWindow;
use xipdriver_rs::v_proc_ss::{
    VideoProcSubsystemCsc, CSC_REG_B_OFF, CSC_REG_CLAMP_MIN, CSC_REG_CLIP_MAX, CSC_REG_G_OFF,
    CSC_REG_MAT, CSC_REG_R_OFF,
};

fn descriptor() -> Ip {
    Ip {
        fullname: "/video/proc".to_string(),
        instname: "proc".to_string(),
        vlnv: "xilinx.com:ip:v_proc_ss:2.3".to_string(),
        bdtype: "".to_string(),
        phys_addr: 0x4000_0000,
        addr_range: 0x1_0000,
    }
}

fn stage() -> VideoProcSubsystemCsc {
    VideoProcSubsystemCsc::new(&descriptor(), RegisterWindow::new(0x100)).unwrap()
}

const BT709_TO_RGB: [i32; 9] = [11644, 0, 17927, 11644, -2132, -5329, 11644, 21124, 0];
const BT601_TO_RGB: [i32; 9] = [11644, 0, 15906, 11644, -3918, -8130, 11644, 20172, 0];
const RGB_TO_BT709: [i32; 9] = [11826, 6142, 620, -1006, -3386, 4392, 4392, -3989, -403];
const RGB_TO_BT601: [i32; 9] = [2568, 5041, 979, -1482, -2910, 4393, 4393, -3678, -714];

#[test]
fn q312_round_trip_stays_within_one_step() {
    for table in [BT709_TO_RGB, BT601_TO_RGB, RGB_TO_BT709, RGB_TO_BT601] {
        for c in table {
            let back = q312_decode(q312_encode(c));
            assert!((back - c).abs() <= 1, "{} came back as {}", c, back);
        }
    }
}

#[test]
fn q312_encode_matches_known_values() {
    // 1.1644 * 4096 rounds to 4769.
    assert_eq!(q312_encode(11644), 4769);
    assert_eq!(q312_encode(10000), 4096);
    assert_eq!(q312_encode(0), 0);
    assert_eq!(q312_encode(-2132), -873);
    assert_eq!(q312_decode(4096), 10000);
}

#[test]
fn presets_load_the_documented_tables() {
    let mut d = stage();
    d.set_format("BT.709", "RGB");
    assert_eq!(d.csc_mat, BT709_TO_RGB.to_vec());
    assert_eq!((d.red_offset, d.green_offset, d.blue_offset), (-248, 77, -289));
    assert_eq!((d.fmt_in, d.fmt_out), (2, 0));
    d.set_format("4:2:2", "RGB");
    assert_eq!(d.csc_mat, BT709_TO_RGB.to_vec());
    d.set_format("BT.601", "RGB");
    assert_eq!(d.csc_mat, BT601_TO_RGB.to_vec());
    assert_eq!((d.red_offset, d.green_offset, d.blue_offset), (-223, 136, -277));
    d.set_format("RGB", "BT.709");
    assert_eq!(d.csc_mat, RGB_TO_BT709.to_vec());
    assert_eq!((d.fmt_in, d.fmt_out), (0, 2));
    d.set_format("RGB", "BT.601");
    assert_eq!(d.csc_mat, RGB_TO_BT601.to_vec());
    d.set_format("RGB", "sepia");
    assert_eq!(d.csc_mat, vec![10000, 0, 0, 0, 10000, 0, 0, 0, 10000]);
    assert_eq!((d.red_offset, d.green_offset, d.blue_offset), (0, 0, 0));
    assert_eq!(d.clip_max, 255);
    assert_eq!(d.clamp_min, 0);
}

#[test]
fn matrix_writes_encode_each_coefficient() {
    let mut d = stage();
    d.set_format("BT.709", "RGB");
    d.window.take_writes();
    d.write_csc_matrix();
    let writes = d.window.take_writes();
    assert_eq!(writes.len(), 14);
    for i in 0..9 {
        assert_eq!(writes[i].offset, CSC_REG_MAT + 8 * i);
        assert_eq!(writes[i].value, q312_encode(BT709_TO_RGB[i]) as u32);
    }
    assert_eq!(writes[9].offset, CSC_REG_R_OFF);
    assert_eq!(writes[9].value, -248i32 as u32);
    assert_eq!(writes[10].offset, CSC_REG_G_OFF);
    assert_eq!(writes[10].value, 77);
    assert_eq!(writes[11].offset, CSC_REG_B_OFF);
    assert_eq!(writes[11].value, -289i32 as u32);
    assert_eq!(writes[12].offset, CSC_REG_CLAMP_MIN);
    assert_eq!(writes[12].value, 0);
    assert_eq!(writes[13].offset, CSC_REG_CLIP_MAX);
    assert_eq!(writes[13].value, 255);
}

#[test]
fn matrix_reads_back_within_one_step() {
    let mut d = stage();
    d.set_format("BT.601", "RGB");
    d.write_csc_matrix();
    let decoded = d.read_csc_matrix().unwrap();
    assert_eq!(decoded.len(), 9);
    for i in 0..9 {
        assert!((decoded[i] - BT601_TO_RGB[i]).abs() <= 1);
    }
}

#[test]
fn contrast_shifts_all_three_offsets() {
    let mut d = stage();
    // The defaults: contrast 0, offsets 100 each, depth 8 so the scale is 1.
    d.set_contrast(60).unwrap();
    // 60 * 4 - 200 = 40; the delta from level 0 is 40.
    assert_eq!(d.contrast, 40);
    assert_eq!((d.red_offset, d.green_offset, d.blue_offset), (140, 140, 140));
    // A second identical request changes nothing more.
    d.set_contrast(60).unwrap();
    assert_eq!((d.red_offset, d.green_offset, d.blue_offset), (140, 140, 140));
    d.set_contrast(50).unwrap();
    assert_eq!(d.contrast, 0);
    assert_eq!((d.red_offset, d.green_offset, d.blue_offset), (100, 100, 100));
}

#[test]
fn identity_tag_is_checked() {
    let mut other = descriptor();
    other.vlnv = "xilinx.com:ip:v_proc_ss:2.2".to_string();
    assert_eq!(
        VideoProcSubsystemCsc::new(&other, RegisterWindow::new(0x100)).unwrap_err(),
        Error::UnsupportedIp
    );
    assert_eq!(
        VideoProcSubsystemCsc::new(&descriptor(), RegisterWindow::new(0x10)).unwrap_err(),
        Error::Resource
    );
}

#[test]
fn out_of_range_register_is_refused_on_read_back() {
    let mut d = stage();
    d.window.deposit(CSC_REG_MAT, 0x7FFF_FFFF);
    assert_eq!(d.read_csc_matrix().unwrap_err(), Error::Protocol);
}
