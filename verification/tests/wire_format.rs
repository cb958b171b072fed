use win_ring0::request::OlsWriteIoPortInput;

#[test]
fn write_port_payload_is_five_bytes() {
    let payload = OlsWriteIoPortInput::new(0x3F8, 0x41);
    let bytes = payload.to_bytes();
    assert_eq!(bytes.len(), 5);
    assert_eq!(bytes, vec![0xF8, 0x03, 0x00, 0x00, 0x41]);
}

#[test]
fn payload_starts_with_the_port_in_little_endian() {
    for port in [0u32, 1, 0x60, 0x3F8, 0xFFFF, 0x0001_0000, 0x1234_5678, 0xDEAD_BEEF, u32::MAX] {
        let bytes = OlsWriteIoPortInput::new(port, 0x7E).to_bytes();
        assert_eq!(bytes[0..4], port.to_le_bytes());
        assert_eq!(bytes[4], 0x7E);
        assert_eq!(bytes.len(), 5);
    }
}

#[test]
fn payload_of_a_wide_port_number() {
    let bytes = OlsWriteIoPortInput::new(0xDEAD_BEEF, 0).to_bytes();
    assert_eq!(bytes, vec![0xEF, 0xBE, 0xAD, 0xDE, 0x00]);
}

#[test]
fn only_the_low_eight_bits_of_the_value_are_sent() {
    assert_eq!(OlsWriteIoPortInput::new(0x70, 0x1234).char_data, 0x34);
    assert_eq!(OlsWriteIoPortInput::new(0x70, 0x100).char_data, 0x00);
    assert_eq!(OlsWriteIoPortInput::new(0x70, 0xFF).char_data, 0xFF);
    assert_eq!(OlsWriteIoPortInput::new(0x70, u32::MAX).char_data, 0xFF);
    assert_eq!(OlsWriteIoPortInput::new(0x70, 0x1234).to_bytes(), vec![0x70, 0, 0, 0, 0x34]);
}

#[test]
fn payload_keeps_its_fields() {
    let payload = OlsWriteIoPortInput::new(0x3F8, 0x41);
    assert_eq!(payload, OlsWriteIoPortInput { port_number: 0x3F8, char_data: 0x41 });
}

#[test]
fn different_payloads_have_different_bytes() {
    let a = OlsWriteIoPortInput::new(0x3F8, 0x41).to_bytes();
    let b = OlsWriteIoPortInput::new(0x3F9, 0x41).to_bytes();
    let c = OlsWriteIoPortInput::new(0x3F8, 0x42).to_bytes();
    let d = OlsWriteIoPortInput::new(0x0100_03F8, 0x41).to_bytes();
    assert_ne!(a, b);
    assert_ne!(a, c);
    assert_ne!(a, d);
}
