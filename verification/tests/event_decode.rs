use ble_hci::event::{HCIEvent, HCIEventCode, HciParseError, LEMetaEvent, SubeventCode};
use ble_hci::packet::HCIEventPacket;

#[test]
fn test_valid_disconnection_complete_event() {
    let packet = HCIEventPacket {
        evcode: HCIEventCode::DisconnectionComplete.to_u8(),
        len: 4,
        parameters: &[0x00, 0x01, 0x00, 0x00],
    };

    let event = HCIEvent::from_packet(&packet);

    assert!(event.is_ok());

    let event = event.unwrap();

    if let HCIEvent::DisconnectionComplete(event) = event {
        assert_eq!(event.status, 0x00);
        assert_eq!(event.connection_handle, 0x0001);
        assert_eq!(event.reason, 0x00);
    } else {
        panic!("Unexpected event type");
    }
}

#[test]
fn test_invalid_disconnection_complete_event() {
    let packet = HCIEventPacket {
        evcode: HCIEventCode::DisconnectionComplete.to_u8(),
        len: 3,                          // Incorrect length
        parameters: &[0x00, 0x01, 0x00], // Missing Reason field
    };

    assert!(HCIEvent::from_packet(&packet).is_err());
}

#[test]
fn test_truncated_disconnection_is_out_of_bounds() {
    let packet = HCIEventPacket {
        evcode: 0x05,
        len: 3,
        parameters: &[0x00, 0x01, 0x00],
    };

    match HCIEvent::from_packet(&packet) {
        Err(HciParseError::OutOfBounds { field, position }) => {
            assert_eq!(field, "reason");
            assert_eq!(position, 3);
        }
        other => panic!("expected OutOfBounds, got {:?}", other),
    }
}

#[test]
fn test_unhandled_subevent_is_not_implemented() {
    // LE Meta Event with subevent 0x04 (recognized but not decoded further)
    let packet = HCIEventPacket {
        evcode: 0x3E,
        len: 2,
        parameters: &[0x04, 0x00],
    };

    match HCIEvent::from_packet(&packet) {
        Err(HciParseError::NotImplemented { evcode, sub_evcode }) => {
            assert_eq!(evcode, 0x3E);
            assert_eq!(sub_evcode, Some(0x04));
        }
        other => panic!("expected NotImplemented, got {:?}", other),
    }
}

#[test]
fn test_unknown_event_code_is_not_implemented() {
    let packet = HCIEventPacket {
        evcode: 0x77,
        len: 1,
        parameters: &[0x00],
    };

    match HCIEvent::from_packet(&packet) {
        Err(HciParseError::NotImplemented { evcode, sub_evcode }) => {
            assert_eq!(evcode, 0x77);
            assert_eq!(sub_evcode, None);
        }
        other => panic!("expected NotImplemented, got {:?}", other),
    }
}

#[test]
fn test_command_complete_decode() {
    // num slots 2, opcode 0x0C03 (Reset), two return-parameter bytes
    let packet = HCIEventPacket {
        evcode: HCIEventCode::CommandComplete.to_u8(),
        len: 5,
        parameters: &[0x02, 0x03, 0x0C, 0x00, 0x7F],
    };

    match HCIEvent::from_packet(&packet) {
        Ok(HCIEvent::CommandComplete(e)) => {
            assert_eq!(e.num_hci_command_packets, 2);
            assert_eq!(e.command_opcode, 0x0C03);
            assert_eq!(e.return_parameters, &[0x00, 0x7F]);
        }
        other => panic!("expected CommandComplete, got {:?}", other),
    }
}

#[test]
fn test_command_complete_empty_return_parameters() {
    let packet = HCIEventPacket {
        evcode: 0x0E,
        len: 3,
        parameters: &[0x01, 0x03, 0x0C],
    };

    match HCIEvent::from_packet(&packet) {
        Ok(HCIEvent::CommandComplete(e)) => {
            assert_eq!(e.num_hci_command_packets, 1);
            assert_eq!(e.command_opcode, 0x0C03);
            assert_eq!(e.return_parameters.len(), 0);
        }
        other => panic!("expected CommandComplete, got {:?}", other),
    }
}

#[test]
fn test_connection_complete_decode() {
    let packet = HCIEventPacket {
        evcode: 0x3E,
        len: 19,
        parameters: &[
            0x01, // subevent: Connection Complete
            0x00, // status
            0x40, 0x00, // connection handle 0x0040
            0x01, // role: peripheral
            0x00, // peer address type
            0x11, 0x22, 0x33, 0x44, 0x55, 0x66, // peer address
            0x28, 0x00, // connection interval 0x0028
            0x05, 0x00, // peripheral latency 5
            0xC8, 0x00, // supervision timeout 0x00C8
            0x03, // central clock accuracy
        ],
    };

    match HCIEvent::from_packet(&packet) {
        Ok(HCIEvent::LEMetaEvent(LEMetaEvent::ConnectionComplete(e))) => {
            assert_eq!(e.status, 0x00);
            assert_eq!(e.connection_handle, 0x0040);
            assert_eq!(e.role, 0x01);
            assert_eq!(e.peer_address_type, 0x00);
            assert_eq!(e.peer_address, &[0x11, 0x22, 0x33, 0x44, 0x55, 0x66]);
            assert_eq!(e.connection_interval, 0x0028);
            assert_eq!(e.peripheral_latency, 5);
            assert_eq!(e.supervision_timeout, 0x00C8);
            assert_eq!(e.central_clock_accuracy, 0x03);
        }
        other => panic!("expected ConnectionComplete, got {:?}", other),
    }
}

#[test]
fn test_truncated_connection_complete_is_out_of_bounds() {
    // everything up to and including peer_address_type, but no address bytes
    let packet = HCIEventPacket {
        evcode: 0x3E,
        len: 6,
        parameters: &[0x01, 0x00, 0x40, 0x00, 0x01, 0x00],
    };

    match HCIEvent::from_packet(&packet) {
        Err(HciParseError::OutOfBounds { field, position }) => {
            assert_eq!(field, "peer_address");
            assert_eq!(position, 6);
        }
        other => panic!("expected OutOfBounds, got {:?}", other),
    }
}

#[test]
fn test_connection_update_complete_decode() {
    let packet = HCIEventPacket {
        evcode: 0x3E,
        len: 10,
        parameters: &[
            0x03, // subevent: Connection Update Complete
            0x00, // status
            0x40, 0x00, // connection handle
            0x30, 0x00, // connection interval
            0x00, 0x00, // peripheral latency
            0xF4, 0x01, // supervision timeout 0x01F4
        ],
    };

    match HCIEvent::from_packet(&packet) {
        Ok(HCIEvent::LEMetaEvent(LEMetaEvent::ConnectionUpdateComplete(e))) => {
            assert_eq!(e.status, 0x00);
            assert_eq!(e.connection_handle, 0x0040);
            assert_eq!(e.connection_interval, 0x0030);
            assert_eq!(e.peripheral_latency, 0);
            assert_eq!(e.supervision_timeout, 0x01F4);
        }
        other => panic!("expected ConnectionUpdateComplete, got {:?}", other),
    }
}

#[test]
fn test_empty_le_meta_payload_is_out_of_bounds() {
    let packet = HCIEventPacket {
        evcode: 0x3E,
        len: 0,
        parameters: &[],
    };

    match HCIEvent::from_packet(&packet) {
        Err(HciParseError::OutOfBounds { field, position }) => {
            assert_eq!(field, "sub_event_code");
            assert_eq!(position, 0);
        }
        other => panic!("expected OutOfBounds, got {:?}", other),
    }
}

#[test]
fn test_event_code_tables_are_inverses() {
    assert_eq!(HCIEventCode::from_u8(0x05).unwrap().to_u8(), 0x05);
    assert_eq!(HCIEventCode::from_u8(0x0E).unwrap().to_u8(), 0x0E);
    assert_eq!(HCIEventCode::from_u8(0x3E).unwrap().to_u8(), 0x3E);
    assert!(HCIEventCode::from_u8(0x00).is_none());

    assert!(matches!(
        SubeventCode::from_u8(0x02),
        Some(SubeventCode::AdvertisingReport)
    ));
    assert_eq!(SubeventCode::from_u8(0x35).unwrap().to_u8(), 0x35);
    assert_eq!(SubeventCode::from_u8(0x29).unwrap().to_u8(), 0x29);
    assert!(SubeventCode::from_u8(0x24).is_none());
    assert!(SubeventCode::from_u8(0x36).is_none());
}
