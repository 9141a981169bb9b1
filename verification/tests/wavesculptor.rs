use bxcan::{Data, ExtendedId, Frame, StandardId};
use prohelion_can::flags::{ErrorFlags, LimitFlags};
use prohelion_can::wavesculptor::{is_complete, needed_len, Status, WaveSculptor, ID_BASE};

fn data_frame(id: u16, data: [u8; 8]) -> Frame {
    Frame::new_data(StandardId::new(id).unwrap(), data)
}

fn short_frame(id: u16, data: &[u8]) -> Frame {
    Frame::new_data(StandardId::new(id).unwrap(), Data::new(data).unwrap())
}

fn floats(first: f32, second: f32) -> [u8; 8] {
    let a = first.to_le_bytes();
    let b = second.to_le_bytes();
    [a[0], a[1], a[2], a[3], b[0], b[1], b[2], b[3]]
}

fn empty_status() -> Status {
    WaveSculptor::new(ID_BASE).status()
}

fn number(bits: Option<prohelion_can::ieee754::FloatBits>) -> Option<f32> {
    bits.map(|b| f32::from_bits(b.bits))
}

#[test]
fn new_decoder_has_empty_snapshot() {
    let ws = WaveSculptor::new(0x600);
    let s = ws.status();
    assert_eq!(ws.base_id(), 0x600);
    assert_eq!(s, Status::default());
    assert_eq!(s.identifier, None);
    assert_eq!(s.serial_number, None);
    assert_eq!(s.error_flags, None);
    assert_eq!(s.limit_flags, None);
    assert_eq!(s.bus_voltage, None);
    assert_eq!(s.motor_voltage_vector, None);
    assert_eq!(s.slip_speed, None);
}

#[test]
fn default_decoder_uses_default_base() {
    let ws = WaveSculptor::default();
    assert_eq!(ws.base_id(), 0x600);
    assert_eq!(ws.status(), empty_status());
}

#[test]
fn identification_is_decoded() {
    let mut ws = WaveSculptor::new(0x600);
    let frame = data_frame(0x600, [0x78, 0x56, 0x34, 0x12, 0xEF, 0xCD, 0xAB, 0x89]);
    assert_eq!(ws.receive(frame), Ok(()));
    let s = ws.status();
    assert_eq!(s.identifier, Some(0x12345678));
    assert_eq!(s.serial_number, Some(0x89ABCDEF));
}

#[test]
fn status_with_reserved_error_bit() {
    let mut ws = WaveSculptor::new(0x600);
    let frame = data_frame(0x601, [0x05, 0x07, 0x02, 0x00, 0x00, 0x02, 0x01, 0x00]);
    assert_eq!(ws.receive(frame), Ok(()));
    let s = ws.status();
    assert_eq!(s.can_rx_error_count, Some(5));
    assert_eq!(s.can_tx_error_count, Some(7));
    assert_eq!(s.active_motor, Some(2));
    assert_eq!(s.error_flags, None);
    assert_eq!(s.limit_flags, LimitFlags::from_bits(LimitFlags::OUTPUT_VOLTAGE_PWM));
    assert_eq!(s.limit_flags.map(|f| f.bits()), Some(0x0001));
}

#[test]
fn status_with_known_flags() {
    let mut ws = WaveSculptor::new(0x600);
    let frame = data_frame(0x601, [0x00, 0xFF, 0x09, 0x00, 0x81, 0x01, 0x44, 0x00]);
    assert_eq!(ws.receive(frame), Ok(()));
    let s = ws.status();
    assert_eq!(s.can_rx_error_count, Some(0));
    assert_eq!(s.can_tx_error_count, Some(255));
    assert_eq!(s.active_motor, Some(9));
    let errors = s.error_flags.unwrap();
    assert_eq!(errors.bits(), 0x0181);
    assert!(errors.contains(ErrorFlags::HARDWARE_OVER_CURRENT));
    assert!(errors.contains(ErrorFlags::DESATURATION_FAULT));
    assert!(errors.contains(ErrorFlags::MOTOR_OVER_SPEED));
    assert!(!errors.contains(ErrorFlags::SOFTWARE_OVER_CURRENT));
    let limits = s.limit_flags.unwrap();
    assert_eq!(limits.bits(), 0x0044);
    assert!(limits.contains(LimitFlags::VELOCITY | LimitFlags::TEMPERATURE));
    assert!(!limits.contains(LimitFlags::BUS_CURRENT));
}

#[test]
fn reserved_limit_bit_leaves_limit_flags_absent_only() {
    let mut ws = WaveSculptor::new(0x600);
    ws.receive(data_frame(0x601, [1, 2, 3, 0, 0x01, 0x00, 0x01, 0x00])).unwrap();
    assert!(ws.status().limit_flags.is_some());
    ws.receive(data_frame(0x601, [4, 5, 6, 0, 0x02, 0x00, 0x80, 0x00])).unwrap();
    let s = ws.status();
    assert_eq!(s.can_rx_error_count, Some(4));
    assert_eq!(s.can_tx_error_count, Some(5));
    assert_eq!(s.active_motor, Some(6));
    assert_eq!(s.error_flags.map(|f| f.bits()), Some(0x0002));
    assert_eq!(s.limit_flags, None);
}

#[test]
fn motor_voltage_vector_is_imaginary_first() {
    let mut ws = WaveSculptor::new(0x600);
    let frame = data_frame(0x605, [0x00, 0x00, 0x00, 0x40, 0x00, 0x00, 0x40, 0x40]);
    assert_eq!(ws.receive(frame), Ok(()));
    let v = ws.status().motor_voltage_vector.unwrap();
    assert_eq!(f32::from_bits(v.re.bits), 3.0);
    assert_eq!(f32::from_bits(v.im.bits), 2.0);
    assert_eq!(ws.status().motor_current_vector, None);
    assert_eq!(ws.status().motor_back_emf_vector, None);
}

#[test]
fn current_and_back_emf_vectors() {
    let mut ws = WaveSculptor::new(0x600);
    ws.receive(data_frame(0x606, floats(-1.5, 10.25))).unwrap();
    ws.receive(data_frame(0x607, floats(0.125, -48.0))).unwrap();
    let s = ws.status();
    let i = s.motor_current_vector.unwrap();
    assert_eq!(f32::from_bits(i.im.bits), -1.5);
    assert_eq!(f32::from_bits(i.re.bits), 10.25);
    let e = s.motor_back_emf_vector.unwrap();
    assert_eq!(f32::from_bits(e.im.bits), 0.125);
    assert_eq!(f32::from_bits(e.re.bits), -48.0);
    assert_eq!(s.motor_voltage_vector, None);
}

#[test]
fn measurements_are_decoded_at_their_offsets() {
    let mut ws = WaveSculptor::new(0x600);
    ws.receive(data_frame(0x602, floats(96.5, -12.25))).unwrap();
    ws.receive(data_frame(0x603, floats(1500.0, 13.5))).unwrap();
    ws.receive(data_frame(0x604, floats(7.0, 8.0))).unwrap();
    ws.receive(data_frame(0x609, floats(1.9, 3.3))).unwrap();
    ws.receive(data_frame(0x60B, floats(61.0, 45.5))).unwrap();
    ws.receive(data_frame(0x60E, floats(120000.0, 17.75))).unwrap();
    let s = ws.status();
    assert_eq!(number(s.bus_voltage), Some(96.5));
    assert_eq!(number(s.bus_current), Some(-12.25));
    assert_eq!(number(s.motor_velocity), Some(1500.0));
    assert_eq!(number(s.vehicle_velocity), Some(13.5));
    assert_eq!(number(s.phase_b_current), Some(7.0));
    assert_eq!(number(s.phase_c_current), Some(8.0));
    assert_eq!(number(s.rail_1v9), Some(1.9));
    assert_eq!(number(s.rail_3v3), Some(3.3));
    assert_eq!(number(s.motor_temperature), Some(61.0));
    assert_eq!(number(s.heatsink_temperature), Some(45.5));
    assert_eq!(number(s.odometer), Some(120000.0));
    assert_eq!(number(s.bus_amp_hours), Some(17.75));
}

#[test]
fn rail_15v_and_slip_speed_use_the_last_four_bytes() {
    let mut ws = WaveSculptor::new(0x600);
    ws.receive(data_frame(0x608, floats(99.0, 15.0))).unwrap();
    ws.receive(data_frame(0x617, floats(77.0, 2.5))).unwrap();
    let s = ws.status();
    assert_eq!(number(s.rail_15v), Some(15.0));
    assert_eq!(number(s.slip_speed), Some(2.5));
}

#[test]
fn dsp_temperature_uses_the_first_four_bytes() {
    let mut ws = WaveSculptor::new(0x600);
    ws.receive(data_frame(0x60C, floats(38.5, 99.0))).unwrap();
    assert_eq!(number(ws.status().dsp_board_temperature), Some(38.5));
    let mut short = WaveSculptor::new(0x600);
    let frame = short_frame(0x60C, &40.0f32.to_le_bytes());
    assert_eq!(short.try_receive(frame), Ok(()));
    assert_eq!(number(short.status().dsp_board_temperature), Some(40.0));
}

#[test]
fn float_bit_patterns_pass_through_unchanged() {
    let mut ws = WaveSculptor::new(0x600);
    ws.receive(data_frame(0x602, [0x01, 0x00, 0xC0, 0x7F, 0x00, 0x00, 0x00, 0x80])).unwrap();
    let s = ws.status();
    assert_eq!(s.bus_voltage.unwrap().bits, 0x7FC00001);
    assert_eq!(s.bus_current.unwrap().bits, 0x80000000);
}

#[test]
fn extended_identifier_is_ignored() {
    let mut ws = WaveSculptor::new(0x600);
    ws.receive(data_frame(0x600, [1, 0, 0, 0, 2, 0, 0, 0])).unwrap();
    let before = ws.status();
    let frame = Frame::new_data(ExtendedId::new(0x600).unwrap(), [9, 9, 9, 9, 9, 9, 9, 9]);
    assert_eq!(ws.receive(frame), Ok(()));
    assert_eq!(ws.status(), before);
    let frame = Frame::new_data(ExtendedId::new(0x1800_0601).unwrap(), [9, 9, 9, 9, 9, 9, 9, 9]);
    assert_eq!(ws.try_receive(frame), Ok(()));
    assert_eq!(ws.status(), before);
}

#[test]
fn identifier_below_base_is_ignored() {
    let mut ws = WaveSculptor::new(0x600);
    let before = ws.status();
    assert_eq!(ws.receive(data_frame(0x5FF, [1, 2, 3, 4, 5, 6, 7, 8])), Ok(()));
    assert_eq!(ws.receive(data_frame(0x000, [1, 2, 3, 4, 5, 6, 7, 8])), Ok(()));
    assert_eq!(ws.status(), before);
    assert_eq!(ws.status(), empty_status());
}

#[test]
fn unknown_offsets_are_ignored() {
    let mut ws = WaveSculptor::new(0x600);
    ws.receive(data_frame(0x603, floats(1.0, 2.0))).unwrap();
    let before = ws.status();
    for offset in [0x0Au16, 0x0D, 0x0F, 0x10, 0x12, 0x16, 0x18, 0xFF, 0x1FF] {
        assert_eq!(ws.receive(data_frame(0x600 + offset, [1, 2, 3, 4, 5, 6, 7, 8])), Ok(()));
        assert_eq!(ws.status(), before);
    }
}

#[test]
fn remote_frame_is_ignored() {
    let mut ws = WaveSculptor::new(0x600);
    let before = ws.status();
    let frame = Frame::new_remote(StandardId::new(0x600).unwrap(), 8);
    assert_eq!(ws.receive(frame), Ok(()));
    assert_eq!(ws.status(), before);
}

#[test]
fn short_frame_at_unknown_offset_is_ignored() {
    let mut ws = WaveSculptor::new(0x600);
    let before = ws.status();
    assert_eq!(ws.receive(short_frame(0x60A, &[1, 2])), Ok(()));
    assert_eq!(ws.receive(short_frame(0x5FF, &[])), Ok(()));
    assert_eq!(ws.status(), before);
}

#[test]
fn try_receive_refuses_a_short_payload() {
    let mut ws = WaveSculptor::new(0x600);
    ws.receive(data_frame(0x600, [1, 0, 0, 0, 2, 0, 0, 0])).unwrap();
    let before = ws.status();
    assert!(ws.try_receive(short_frame(0x600, &[1, 2, 3, 4, 5, 6, 7])).is_err());
    assert!(ws.try_receive(short_frame(0x601, &[])).is_err());
    assert!(ws.try_receive(short_frame(0x60C, &[1, 2, 3])).is_err());
    assert!(ws.try_receive(short_frame(0x617, &[1, 2, 3, 4])).is_err());
    assert_eq!(ws.status(), before);
    assert_eq!(ws.base_id(), 0x600);
}

#[test]
fn try_receive_takes_a_complete_frame() {
    let mut a = WaveSculptor::new(0x600);
    let mut b = WaveSculptor::new(0x600);
    let frame = data_frame(0x60E, floats(5.0, 6.0));
    assert_eq!(a.try_receive(frame.clone()), Ok(()));
    assert_eq!(b.receive(frame), Ok(()));
    assert_eq!(a.status(), b.status());
    assert_eq!(number(a.status().odometer), Some(5.0));
}

#[test]
fn receive_parts_agrees_with_receive() {
    let mut a = WaveSculptor::new(0x400);
    let mut b = WaveSculptor::new(0x400);
    let bytes = [0x05, 0x07, 0x02, 0x00, 0x10, 0x00, 0x20, 0x00];
    assert_eq!(a.receive_parts(Some(0x401), Some(&bytes)), Ok(()));
    assert_eq!(b.receive(data_frame(0x401, bytes)), Ok(()));
    assert_eq!(a.status(), b.status());
    assert_eq!(a.status().error_flags.map(|f| f.bits()), Some(0x0010));
    assert_eq!(a.receive_parts(None, Some(&bytes)), Ok(()));
    assert_eq!(a.receive_parts(Some(0x400), None), Ok(()));
    assert_eq!(a.receive_parts(Some(0x3FF), Some(&bytes)), Ok(()));
    assert_eq!(a.status(), b.status());
}

#[test]
fn only_fields_of_the_message_change() {
    let mut ws = WaveSculptor::new(0x600);
    ws.receive(data_frame(0x600, [0x78, 0x56, 0x34, 0x12, 0xEF, 0xCD, 0xAB, 0x89])).unwrap();
    ws.receive(data_frame(0x601, [1, 2, 3, 0, 4, 0, 5, 0])).unwrap();
    let before = ws.status();
    ws.receive(data_frame(0x602, floats(50.0, 60.0))).unwrap();
    let after = ws.status();
    assert_eq!(number(after.bus_voltage), Some(50.0));
    assert_eq!(number(after.bus_current), Some(60.0));
    let mut expected = before;
    expected.bus_voltage = after.bus_voltage;
    expected.bus_current = after.bus_current;
    assert_eq!(after, expected);
    assert_eq!(after.identifier, Some(0x12345678));
    assert_eq!(after.error_flags.map(|f| f.bits()), Some(4));
}

#[test]
fn last_write_wins() {
    let mut ws = WaveSculptor::new(0x600);
    ws.receive(data_frame(0x603, floats(100.0, 1.0))).unwrap();
    ws.receive(data_frame(0x603, floats(200.0, 2.0))).unwrap();
    let s = ws.status();
    assert_eq!(number(s.motor_velocity), Some(200.0));
    assert_eq!(number(s.vehicle_velocity), Some(2.0));
}

#[test]
fn decoding_is_deterministic() {
    let frames = [
        data_frame(0x600, [1, 2, 3, 4, 5, 6, 7, 8]),
        data_frame(0x601, [9, 8, 7, 6, 5, 4, 3, 2]),
        data_frame(0x605, floats(2.0, 3.0)),
        data_frame(0x5FF, [1, 1, 1, 1, 1, 1, 1, 1]),
        data_frame(0x617, floats(0.0, 0.5)),
        data_frame(0x601, [0, 0, 1, 0, 0xFF, 0x01, 0x7F, 0x00]),
    ];
    let mut a = WaveSculptor::new(0x600);
    let mut b = WaveSculptor::new(0x600);
    for frame in frames.iter() {
        assert_eq!(a.receive(frame.clone()), Ok(()));
        assert_eq!(b.receive(frame.clone()), Ok(()));
        assert_eq!(a.status(), b.status());
    }
    assert_eq!(a.status().error_flags.map(|f| f.bits()), Some(0x01FF));
    assert_eq!(a.status().limit_flags.map(|f| f.bits()), Some(0x007F));
}

#[test]
fn base_identifier_selects_the_block() {
    let mut ws = WaveSculptor::new(0x400);
    ws.receive(data_frame(0x600, [1, 2, 3, 4, 5, 6, 7, 8])).unwrap();
    assert_eq!(ws.status(), empty_status());
    ws.receive(data_frame(0x400, [1, 0, 0, 0, 2, 0, 0, 0])).unwrap();
    assert_eq!(ws.status().identifier, Some(1));
    assert_eq!(ws.status().serial_number, Some(2));
}

#[test]
fn needed_lengths() {
    assert_eq!(needed_len(0x00), 8);
    assert_eq!(needed_len(0x01), 8);
    assert_eq!(needed_len(0x08), 8);
    assert_eq!(needed_len(0x09), 8);
    assert_eq!(needed_len(0x0A), 0);
    assert_eq!(needed_len(0x0B), 8);
    assert_eq!(needed_len(0x0C), 4);
    assert_eq!(needed_len(0x0D), 0);
    assert_eq!(needed_len(0x0E), 8);
    assert_eq!(needed_len(0x12), 0);
    assert_eq!(needed_len(0x17), 8);
    assert_eq!(needed_len(0x18), 0);
}

#[test]
fn completeness_of_frame_parts() {
    assert!(is_complete(0x600, None, Some(&[])));
    assert!(is_complete(0x600, Some(0x600), None));
    assert!(is_complete(0x600, Some(0x5FF), Some(&[1])));
    assert!(is_complete(0x600, Some(0x60A), Some(&[1])));
    assert!(is_complete(0x600, Some(0x600), Some(&[0; 8])));
    assert!(!is_complete(0x600, Some(0x600), Some(&[0; 7])));
    assert!(is_complete(0x600, Some(0x60C), Some(&[0; 4])));
    assert!(!is_complete(0x600, Some(0x60C), Some(&[0; 3])));
}

#[test]
fn active_motor_change_frame() {
    let ws = WaveSculptor::new(0x600);
    let frame = ws.active_motor_change(3);
    assert_eq!(frame.id(), bxcan::Id::Standard(StandardId::new(0x612).unwrap()));
    let data = frame.data().unwrap();
    assert_eq!(&data[..], &[0x00, 0x03, 0x41, 0x43, 0x54, 0x4D, 0x4F, 0x54]);
    assert_eq!(&data[2..], b"ACTMOT");
    assert!(frame.is_data_frame());
}

#[test]
fn active_motor_change_bounds() {
    let lowest = WaveSculptor::new(0x000).active_motor_change(0);
    assert_eq!(lowest.id(), bxcan::Id::Standard(StandardId::new(0x012).unwrap()));
    assert_eq!(lowest.data().unwrap()[1], 0);
    let highest = WaveSculptor::new(0x7ED).active_motor_change(9);
    assert_eq!(highest.id(), bxcan::Id::Standard(StandardId::MAX));
    assert_eq!(highest.data().unwrap()[1], 9);
    assert_eq!(highest.dlc(), 8);
}

#[test]
fn own_command_is_not_a_broadcast() {
    let mut ws = WaveSculptor::new(0x600);
    let command = ws.active_motor_change(5);
    assert_eq!(ws.receive(command), Ok(()));
    assert_eq!(ws.status(), empty_status());
}
