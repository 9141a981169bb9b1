use bxcan::{Frame, Id, StandardId};
use prohelion_can::driver_controls::{DriverControls, IgnitionPosition, ID_BASE_DEFAULT};
use prohelion_can::ieee754::FloatBits;

fn standard(frame: &Frame) -> u16 {
    match frame.id() {
        Id::Standard(id) => id.as_raw(),
        Id::Extended(_) => panic!("extended identifier"),
    }
}

fn payload(frame: &Frame) -> Vec<u8> {
    frame.data().unwrap().to_vec()
}

fn bits(value: f32) -> FloatBits {
    FloatBits::new(value.to_bits())
}

#[test]
fn new_keeps_the_base_identifier() {
    assert_eq!(DriverControls::new(0x500).base_id(), 0x500);
    assert_eq!(DriverControls::new(0).base_id(), 0);
    assert_eq!(DriverControls::new(0xFFFF).base_id(), 0xFFFF);
    assert_eq!(DriverControls::default().base_id(), ID_BASE_DEFAULT);
    assert_eq!(ID_BASE_DEFAULT, 0x500);
}

#[test]
fn motor_drive_mixes_byte_orders() {
    let dc = DriverControls::new(0x500);
    let frame = dc.motor_drive(bits(1000.0), bits(0.5));
    assert_eq!(frame.id(), Id::Standard(StandardId::new(0x501).unwrap()));
    let data = payload(&frame);
    assert_eq!(data.len(), 8);
    assert_eq!(&data[0..4], &1000.0f32.to_le_bytes());
    assert_eq!(&data[4..8], &0.5f32.to_be_bytes());
    assert_eq!(&data[4..8], &[0x3F, 0x00, 0x00, 0x00]);
    assert_eq!(data, vec![0x00, 0x00, 0x7A, 0x44, 0x3F, 0x00, 0x00, 0x00]);
}

#[test]
fn motor_drive_other_values() {
    let dc = DriverControls::new(0x500);
    let frame = dc.motor_drive(bits(-20000.0), bits(1.0));
    let data = payload(&frame);
    assert_eq!(&data[0..4], &(-20000.0f32).to_le_bytes());
    assert_eq!(&data[4..8], &1.0f32.to_be_bytes());
    let frame = dc.motor_drive(FloatBits::new(0x01020304), FloatBits::new(0x05060708));
    assert_eq!(payload(&frame), vec![0x04, 0x03, 0x02, 0x01, 0x05, 0x06, 0x07, 0x08]);
}

#[test]
fn motor_power_is_little_endian_in_the_last_four_bytes() {
    let dc = DriverControls::new(0x500);
    let frame = dc.motor_power(bits(0.75));
    assert_eq!(standard(&frame), 0x502);
    let data = payload(&frame);
    assert_eq!(data.len(), 8);
    assert_eq!(&data[0..4], &[0, 0, 0, 0]);
    assert_eq!(&data[4..8], &0.75f32.to_le_bytes());
    assert_eq!(data, vec![0, 0, 0, 0, 0x00, 0x00, 0x40, 0x3F]);
}

#[test]
fn reset_is_eight_zero_bytes() {
    let dc = DriverControls::new(0x500);
    let frame = dc.reset_wavesculptor();
    assert_eq!(standard(&frame), 0x503);
    assert_eq!(payload(&frame), vec![0u8; 8]);
    assert!(frame.is_data_frame());
}

#[test]
fn switch_position_run_and_start() {
    let dc = DriverControls::new(0x500);
    let run = dc.switch_position(IgnitionPosition::Run);
    assert_eq!(standard(&run), 0x505);
    assert_eq!(payload(&run), vec![0x20, 0, 0, 0, 0, 0, 0, 0]);
    let start = dc.switch_position(IgnitionPosition::Start);
    assert_eq!(standard(&start), 0x505);
    assert_eq!(payload(&start), vec![0x40, 0, 0, 0, 0, 0, 0, 0]);
}

#[test]
fn every_command_is_offset_from_the_base_with_eight_bytes() {
    for base in [0x000u16, 0x123, 0x500, 0x7FA] {
        let dc = DriverControls::new(base);
        let frames = [
            (dc.motor_drive(bits(1.0), bits(2.0)), 0x01u16),
            (dc.motor_power(bits(3.0)), 0x02),
            (dc.reset_wavesculptor(), 0x03),
            (dc.switch_position(IgnitionPosition::Run), 0x05),
        ];
        for (frame, offset) in frames.iter() {
            assert!(frame.is_standard());
            assert_eq!(standard(frame) - base, *offset);
            assert_eq!(payload(frame).len(), 8);
            assert_eq!(frame.dlc(), 8);
        }
    }
}

#[test]
fn highest_base_for_each_command() {
    assert_eq!(standard(&DriverControls::new(0x7FE).motor_drive(bits(0.0), bits(0.0))), 0x7FF);
    assert_eq!(standard(&DriverControls::new(0x7FD).motor_power(bits(0.0))), 0x7FF);
    assert_eq!(standard(&DriverControls::new(0x7FC).reset_wavesculptor()), 0x7FF);
    assert_eq!(standard(&DriverControls::new(0x7FA).switch_position(IgnitionPosition::Start)), 0x7FF);
}
