//! Drivers for memory-mapped FPGA peripherals: streaming and circular video
//! DMA engines, video frame-buffer and color-space-conversion stages, a lane
//! detector and a motor PID controller, all resolved from a hardware topology
//! description.
//!
//! Every driver operates on a [`regio::RegisterWindow`], a software image of
//! the peripheral's register block that records each programmed write in
//! order.  An external runner owns the actual memory mapping: it forwards the
//! recorded writes to the device and deposits freshly read device registers
//! back into the window before status is inspected.

pub mod axidma;
pub mod axigpio;
pub mod axis_switch;
pub mod bird_eye_view;
pub mod errors;
pub mod fixed;
pub mod hwh_parser;
pub mod hwinfo;
pub mod regio;
pub mod text;
pub mod umv_lane_detector;
pub mod umv_motor_controller;
pub mod v_frmbuf;
pub mod v_proc_ss;
pub mod vdma;
pub mod yolo;
