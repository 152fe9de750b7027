use xipdriver_rs::errors::Error;
use xipdriver_rs::hwinfo::HwIdentity;
use xipdriver_rs::regio::RegisterWindow;
use xipdriver_rs::umv_motor_controller::{
    MotorParams, UmvMotorController, REG_ACCEL_L, REG_ACCEL_R, REG_BRAKE, REG_KP_L, REG_KP_R,
    REG_ROTATION_L, REG_ROTATION_R, REG_ROTATION_RESET, REG_TOTAL_ROTATION_R,
};

fn identity() -> HwIdentity {
    HwIdentity {
        vendor: "slab".to_string(),
        library: "umv_project".to_string(),
        name: "umv_motor_controller".to_string(),
    }
}

fn controller() -> UmvMotorController {
    // A feedback edge period of 0.05 seconds, held as microseconds.
    let params = MotorParams { accel_max: 100, fb_edge_period_us: 50_000 };
    UmvMotorController::new(&identity(), &params, RegisterWindow::new(0x40)).unwrap()
}

#[test]
fn wheel_rpm_from_rotation_counter() {
    let mut c = controller();
    // 360 degrees per 0.05-second period: 360 * 60 / 0.05 / 360 = 1200.
    c.window.deposit(REG_ROTATION_R, 360);
    assert_eq!(c.get_wheel_rpm_right(), 1200);
    c.window.deposit(REG_ROTATION_L, 720);
    assert_eq!(c.get_wheel_rpm_left(), 2400);
    c.window.deposit(REG_ROTATION_L, (-360i32) as u32);
    assert_eq!(c.get_wheel_rpm_left(), -1200);
}

#[test]
fn accel_setpoints_are_bounded() {
    let mut c = controller();
    c.write_accel(25, -30).unwrap();
    let writes = c.window.take_writes();
    assert_eq!(writes[0].offset, REG_ACCEL_L);
    assert_eq!(writes[0].value, 25);
    assert_eq!(writes[1].offset, REG_ACCEL_R);
    assert_eq!(writes[1].value, (-30i32) as u32);
    assert_eq!(c.write_accel_right(101).unwrap_err(), Error::Protocol);
    assert_eq!(c.get_max_accel(), 100);
}

#[test]
fn rpm_setpoint_converts_to_degrees_per_period() {
    let mut c = controller();
    // 300 revolutions per minute: 300 * 360 * 0.05 / 60 = 90 degrees.
    c.set_accel_rpm(300_000, 300_000).unwrap();
    let writes = c.window.take_writes();
    assert_eq!(writes[0].value, 90);
    assert_eq!(writes[1].value, 90);
    // The hardware bound still applies after conversion.
    assert_eq!(c.set_accel_rpm_left(400_000).unwrap_err(), Error::Protocol);
    // A negative rate rounds toward minus infinity.
    c.set_accel_rpm_left(-1_000).unwrap();
    let writes = c.window.take_writes();
    assert_eq!(writes[0].value, (-1i32) as u32);
}

#[test]
fn gains_are_written_in_fixed_point() {
    let mut c = controller();
    // 1.5 units in thousandths: 1.5 * 65536 = 98304.
    c.write_kp_right(1_500).unwrap();
    c.set_kp(2_000).unwrap();
    let writes = c.window.take_writes();
    assert_eq!(writes[0].offset, REG_KP_R);
    assert_eq!(writes[0].value, 98_304);
    assert_eq!(writes[1].offset, REG_KP_L);
    assert_eq!(writes[1].value, 131_072);
    assert_eq!(writes[2].offset, REG_KP_R);
    assert_eq!(c.write_ki_left(65_536_000).unwrap_err(), Error::Protocol);
    c.write_bias_left(65_535_999).unwrap();
}

#[test]
fn brake_reset_and_totals() {
    let mut c = controller();
    c.write_brake(true);
    c.reset_total_rotation();
    let writes = c.window.take_writes();
    assert_eq!(writes[0].offset, REG_BRAKE);
    assert_eq!(writes[0].value, 1);
    assert_eq!(writes[1].offset, REG_ROTATION_RESET);
    assert_eq!(writes[1].value, 1);
    // 720 degrees are two revolutions: two thousand thousandths.
    c.window.deposit(REG_TOTAL_ROTATION_R, 720);
    assert_eq!(c.read_total_rotation_right(), 720);
    assert_eq!(c.get_total_rotation_right(), 2_000);
    assert_eq!(c.get_max_rpm(), 333);
}

#[test]
fn construction_checks_identity_and_period() {
    let wrong = HwIdentity {
        vendor: "slab".to_string(),
        library: "umv_project".to_string(),
        name: "umv_lane_detector".to_string(),
    };
    let params = MotorParams { accel_max: 10, fb_edge_period_us: 50_000 };
    assert_eq!(
        UmvMotorController::new(&wrong, &params, RegisterWindow::new(0x40)).unwrap_err(),
        Error::UnsupportedIp
    );
    let zero = MotorParams { accel_max: 10, fb_edge_period_us: 0 };
    assert_eq!(
        UmvMotorController::new(&identity(), &zero, RegisterWindow::new(0x40)).unwrap_err(),
        Error::Configuration
    );
    assert_eq!(
        UmvMotorController::new(&identity(), &params, RegisterWindow::new(0x20)).unwrap_err(),
        Error::Resource
    );
}
