use linkcore::packet::{
    build_duty_frame, build_sensor_packet, handle_radio_packet, load_is_high, sensor_percent,
    validate_sensor_packet,
};

#[test]
fn percent_of_full_scale() {
    assert_eq!(sensor_percent(0), 0);
    assert_eq!(sensor_percent(2048), 50);
    assert_eq!(sensor_percent(4095), 99);
}

#[test]
fn load_indicator_threshold() {
    assert!(!load_is_high(50));
    assert!(load_is_high(51));
}

#[test]
fn sensor_packet_layout() {
    // the checksum of the single byte 60 has low byte 60, so the packet
    // carries the reading twice
    let p = build_sensor_packet(60);
    assert_eq!(p, vec![0x01, 0x02, 60, 60]);
}

#[test]
fn sensor_packet_validates_itself() {
    for pcnt in [0u8, 1, 50, 99] {
        let p = build_sensor_packet(pcnt);
        assert_eq!(validate_sensor_packet(&p), Some(pcnt));
    }
}

#[test]
fn corrupted_checksum_byte_is_rejected() {
    let mut p = build_sensor_packet(60);
    p[3] = p[3].wrapping_add(1);
    assert_eq!(validate_sensor_packet(&p), None);
}

#[test]
fn corrupted_reading_is_rejected() {
    let mut p = build_sensor_packet(60);
    p[2] = 61;
    assert_eq!(validate_sensor_packet(&p), None);
}

#[test]
fn duty_frame_has_known_bytes() {
    // reading 60: duty cycle 60_000 = 0x0000EA60 big endian; the checksum
    // of [0x05, 0x00, 0x00, 0xEA, 0x60] is 0x4F50
    let f = build_duty_frame(60);
    assert_eq!(f, vec![0x02, 5, 0x05, 0x00, 0x00, 0xEA, 0x60, 0x4F, 0x50, 0x03]);
}

#[test]
fn radio_packet_flows_through_to_duty_frame() {
    let p = build_sensor_packet(60);
    let f = handle_radio_packet(&p);
    assert_eq!(f, Some(build_duty_frame(60)));
}

#[test]
fn corrupted_radio_packet_produces_nothing() {
    let mut p = build_sensor_packet(60);
    p[3] = p[3].wrapping_add(1);
    assert_eq!(handle_radio_packet(&p), None);
}

#[test]
fn longer_receive_buffer_is_accepted() {
    // the receiver hands over its whole 12-byte buffer; trailing bytes do
    // not disturb validation
    let mut p = build_sensor_packet(42);
    p.resize(12, 0);
    assert_eq!(validate_sensor_packet(&p), Some(42));
}
