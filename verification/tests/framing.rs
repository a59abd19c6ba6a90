use ble_hci::packet::{HCIACLDataPacket, HCICommandPacket, HCIEventPacket, HCIPacket};
use ble_hci::writer::Writer;

#[test]
fn test_command_round_trip_through_writer() {
    // hand-build a Command packet buffer, then frame it back
    let mut w = Writer::new(vec![0u8; 6]);
    w.write_u8(0x01).unwrap(); // Command tag
    w.write_u16(0x0C03).unwrap(); // opcode
    w.write_u8(0x02).unwrap(); // parameter length
    w.write_u8_slice(&[0xAA, 0xBB]).unwrap(); // parameters
    let buf = w.into_buf();

    match HCIPacket::from_buf(&buf) {
        Some(HCIPacket::Command(p)) => {
            assert_eq!(p.opcode, 0x0C03);
            assert_eq!(p.len, 2);
            assert_eq!(p.parameters, &[0xAA, 0xBB]);
        }
        other => panic!("expected Command, got {:?}", other),
    }
}

#[test]
fn test_event_framing() {
    let buf: &[u8] = &[0x04, 0x05, 0x04, 0x00, 0x01, 0x00, 0x13];
    match HCIPacket::from_buf(buf) {
        Some(HCIPacket::Event(p)) => {
            assert_eq!(p.evcode, 0x05);
            assert_eq!(p.len, 4);
            assert_eq!(p.parameters, &[0x00, 0x01, 0x00, 0x13]);
        }
        other => panic!("expected Event, got {:?}", other),
    }
}

#[test]
fn test_acl_framing_unpacks_handle_and_flags() {
    // header word 0xA040: handle = 0x040 (low 12 bits), flags nibble = 0xA,
    // packet boundary = 0b10, broadcast = 0b10
    let buf: &[u8] = &[0x02, 0x40, 0xA0, 0x02, 0x00, 0xDE, 0xAD];
    match HCIPacket::from_buf(buf) {
        Some(HCIPacket::ACLData(p)) => {
            assert_eq!(p.handle, 0x0040);
            assert_eq!(p.packet_boundary_flag, 0b10);
            assert_eq!(p.broadcast_flag, 0b10);
            assert_eq!(p.len, 2);
            assert_eq!(p.data, &[0xDE, 0xAD]);
        }
        other => panic!("expected ACLData, got {:?}", other),
    }
}

#[test]
fn test_synchronous_and_iso_tags_are_unknown() {
    let sync: &[u8] = &[0x03, 0x01, 0x02];
    match HCIPacket::from_buf(sync) {
        Some(HCIPacket::Unknown(raw)) => assert_eq!(raw, sync),
        other => panic!("expected Unknown, got {:?}", other),
    }

    let iso: &[u8] = &[0x05, 0xFF];
    match HCIPacket::from_buf(iso) {
        Some(HCIPacket::Unknown(raw)) => assert_eq!(raw, iso),
        other => panic!("expected Unknown, got {:?}", other),
    }
}

#[test]
fn test_unrecognized_tag_is_unknown() {
    let buf: &[u8] = &[0x7F, 0x00];
    match HCIPacket::from_buf(buf) {
        Some(HCIPacket::Unknown(raw)) => assert_eq!(raw, buf),
        other => panic!("expected Unknown, got {:?}", other),
    }
}

#[test]
fn test_empty_buffer_frames_to_nothing() {
    assert!(HCIPacket::from_buf(&[]).is_none());
}

#[test]
fn test_truncated_command_frames_to_nothing() {
    // declared parameter length 4, only 2 parameter bytes present
    assert!(HCIPacket::from_buf(&[0x01, 0x03, 0x0C, 0x04, 0xAA, 0xBB]).is_none());
    // header cut short
    assert!(HCIPacket::from_buf(&[0x01, 0x03]).is_none());
}

#[test]
fn test_truncated_event_frames_to_nothing() {
    assert!(HCIPacket::from_buf(&[0x04, 0x05, 0x04, 0x00]).is_none());
}

#[test]
fn test_packet_constructors_slice_to_length() {
    let buf = [1u8, 2, 3, 4, 5];
    let cmd = HCICommandPacket::new(0x1234, 3, &buf);
    assert_eq!(cmd.opcode, 0x1234);
    assert_eq!(cmd.len, 3);
    assert_eq!(cmd.parameters, &[1, 2, 3]);

    let ev = HCIEventPacket::new(0x05, 2, &buf);
    assert_eq!(ev.evcode, 0x05);
    assert_eq!(ev.parameters, &[1, 2]);

    let acl = HCIACLDataPacket::new(0x040, 0b10, 0b01, 4, &buf);
    assert_eq!(acl.handle, 0x040);
    assert_eq!(acl.packet_boundary_flag, 0b10);
    assert_eq!(acl.broadcast_flag, 0b01);
    assert_eq!(acl.data, &[1, 2, 3, 4]);
}
