use ble_hci::event::{AdvertisingDataIterator, AdvertisingReportIterator, HCIEvent, LEMetaEvent};
use ble_hci::gap::{AdvertisingData, AdvertisingDataType};
use ble_hci::packet::HCIEventPacket;
use ble_hci::reader::Reader;

#[test]
fn test_report_iterator_yields_exactly_k_records() {
    // two whole records; the advisory count lies and claims five
    let block: &[u8] = &[
        // record 1: data length 3
        0x00, 0x01, 0xA1, 0xA2, 0xA3, 0xA4, 0xA5, 0xA6, 0x03, 0x02, 0x01, 0x06, 0xC8,
        // record 2: data length 0
        0x04, 0x00, 0xB1, 0xB2, 0xB3, 0xB4, 0xB5, 0xB6, 0x00, 0xD5,
    ];
    let mut it = AdvertisingReportIterator {
        num_reports: 5,
        reader: Reader::new(block),
    };

    let first = it.next().expect("first record");
    assert_eq!(first.event_type, 0x00);
    assert_eq!(first.address_type, 0x01);
    assert_eq!(first.address, &[0xA1, 0xA2, 0xA3, 0xA4, 0xA5, 0xA6]);
    assert_eq!(first.rssi, -56); // 0xC8 as a signed byte

    let second = it.next().expect("second record");
    assert_eq!(second.event_type, 0x04);
    assert_eq!(second.address, &[0xB1, 0xB2, 0xB3, 0xB4, 0xB5, 0xB6]);
    assert_eq!(second.rssi, -43); // 0xD5 as a signed byte

    assert!(it.next().is_none());
    assert!(it.next().is_none());
}

#[test]
fn test_report_iterator_through_event_decoder() {
    let packet = HCIEventPacket {
        evcode: 0x3E,
        len: 14,
        parameters: &[
            0x02, // subevent: Advertising Report
            0x07, // advisory count: wrong on purpose
            0x00, 0x00, 0x10, 0x20, 0x30, 0x40, 0x50, 0x60, // one record...
            0x02, 0x01, 0x06, // ...with a 2-byte data block
            0xBF,
        ],
    };

    match HCIEvent::from_packet(&packet) {
        Ok(HCIEvent::LEMetaEvent(LEMetaEvent::AdvertisingReport(mut it))) => {
            assert_eq!(it.num_reports, 0x07);
            let rep = it.next().expect("one record present");
            assert_eq!(rep.address, &[0x10, 0x20, 0x30, 0x40, 0x50, 0x60]);
            assert_eq!(rep.rssi, -65);
            assert!(it.next().is_none());
        }
        other => panic!("expected AdvertisingReport, got {:?}", other),
    }
}

#[test]
fn test_report_iterator_truncated_trailing_record() {
    // 9 bytes promise a 4-byte data block that is not there
    let block: &[u8] = &[0x00, 0x01, 0xA1, 0xA2, 0xA3, 0xA4, 0xA5, 0xA6, 0x04];
    let mut it = AdvertisingReportIterator {
        num_reports: 1,
        reader: Reader::new(block),
    };
    assert!(it.next().is_none());
    assert!(it.next().is_none());
}

#[test]
fn test_report_iterator_failed_record_ends_iteration_for_good() {
    // the first record declares 11 data bytes that are not all there; the
    // 10 bytes behind its fixed fields would parse as a whole record of
    // their own, but a failed read ends the sequence
    let block: &[u8] = &[
        0x00, 0x01, 0xA1, 0xA2, 0xA3, 0xA4, 0xA5, 0xA6, 0x0B, // truncated record
        0x04, 0x00, 0xB1, 0xB2, 0xB3, 0xB4, 0xB5, 0xB6, 0x00, 0xD5, // never reached
    ];
    let mut it = AdvertisingReportIterator {
        num_reports: 2,
        reader: Reader::new(block),
    };
    assert!(it.next().is_none());
    assert!(it.next().is_none());
    assert!(it.next().is_none());
}

#[test]
fn test_data_iterator_empty_block_yields_nothing() {
    let mut it = AdvertisingDataIterator {
        reader: Reader::new(&[]),
    };
    assert!(it.next().is_none());
}

#[test]
fn test_data_iterator_flags_then_name() {
    let block: &[u8] = &[
        0x02, 0x01, 0x06, // Flags: 0x06
        0x05, 0x09, b'T', b'e', b's', b't', // Complete Local Name: "Test"
    ];
    let mut it = AdvertisingDataIterator {
        reader: Reader::new(block),
    };

    match it.next() {
        Some(AdvertisingData::Flags(f)) => assert_eq!(f, 0x06),
        other => panic!("expected Flags, got {:?}", other),
    }
    match it.next() {
        Some(AdvertisingData::CompleteLocalName(name)) => assert_eq!(name, "Test"),
        other => panic!("expected CompleteLocalName, got {:?}", other),
    }
    assert!(it.next().is_none());
}

#[test]
fn test_data_iterator_invalid_utf8_ends_iteration() {
    let block: &[u8] = &[
        0x03, 0x08, 0xFF, 0xFE, // Shortened Local Name with invalid UTF-8
        0x02, 0x01, 0x06, // a well-formed entry behind it is never reached
    ];
    let mut it = AdvertisingDataIterator {
        reader: Reader::new(block),
    };
    assert!(it.next().is_none());
    assert!(it.next().is_none());
}

#[test]
fn test_data_iterator_unrecognized_type_ends_iteration() {
    let block: &[u8] = &[
        0x02, 0x30, 0x00, // unrecognized type code
        0x02, 0x01, 0x06, // a well-formed entry behind it is never reached
    ];
    let mut it = AdvertisingDataIterator {
        reader: Reader::new(block),
    };
    assert!(it.next().is_none());
    assert!(it.next().is_none());
}

#[test]
fn test_data_iterator_zero_length_entry_ends_iteration() {
    let block: &[u8] = &[
        0x00, 0x01, // zero length byte
        0x02, 0x01, 0x06, // a well-formed entry behind it is never reached
    ];
    let mut it = AdvertisingDataIterator {
        reader: Reader::new(block),
    };
    assert!(it.next().is_none());
    assert!(it.next().is_none());
}

#[test]
fn test_data_iterator_uuid16_list() {
    let block: &[u8] = &[0x05, 0x02, 0x0F, 0x18, 0x0A, 0x18];
    let mut it = AdvertisingDataIterator {
        reader: Reader::new(block),
    };

    match it.next() {
        Some(AdvertisingData::IncompleteListOf16BitServiceUUIDs(list)) => {
            assert_eq!(list.len(), 2);
            assert_eq!(list.get(0), 0x180F);
            assert_eq!(list.get(1), 0x180A);
        }
        other => panic!("expected a 16-bit UUID list, got {:?}", other),
    }
    assert!(it.next().is_none());
}

#[test]
fn test_data_iterator_uuid16_list_odd_length_ends_iteration() {
    // three value bytes cannot hold whole 16-bit values
    let block: &[u8] = &[0x04, 0x02, 0x0F, 0x18, 0x0A];
    let mut it = AdvertisingDataIterator {
        reader: Reader::new(block),
    };
    assert!(it.next().is_none());
}

#[test]
fn test_data_iterator_uuid128_list() {
    let mut block = vec![0x11, 0x06];
    block.extend((0u8..16).collect::<Vec<u8>>());
    let mut it = AdvertisingDataIterator {
        reader: Reader::new(&block),
    };

    match it.next() {
        Some(AdvertisingData::IncompleteListOf128BitServiceUUIDs(list)) => {
            assert_eq!(list.len(), 1);
            assert_eq!(list.get(0), 0x0F0E0D0C_0B0A0908_07060504_03020100);
        }
        other => panic!("expected a 128-bit UUID list, got {:?}", other),
    }
    assert!(it.next().is_none());
}

#[test]
fn test_data_iterator_scalars_and_opaque_values() {
    let block: &[u8] = &[
        0x02, 0x0A, 0xEC, // TX power level: -20
        0x05, 0x0D, 0x04, 0x03, 0x02, 0x01, // class of device: 0x01020304
        0x03, 0x19, 0x41, 0x03, // appearance: 0x0341
        0x03, 0xFF, 0x4C, 0x00, // manufacturer-specific data
    ];
    let mut it = AdvertisingDataIterator {
        reader: Reader::new(block),
    };

    match it.next() {
        Some(AdvertisingData::TxPowerLevel(p)) => assert_eq!(p, -20),
        other => panic!("expected TxPowerLevel, got {:?}", other),
    }
    match it.next() {
        Some(AdvertisingData::ClassOfDevice(c)) => assert_eq!(c, 0x01020304),
        other => panic!("expected ClassOfDevice, got {:?}", other),
    }
    match it.next() {
        Some(AdvertisingData::Appearance(a)) => assert_eq!(a, 0x0341),
        other => panic!("expected Appearance, got {:?}", other),
    }
    match it.next() {
        Some(AdvertisingData::ManufacturerSpecificData(d)) => assert_eq!(d, &[0x4C, 0x00]),
        other => panic!("expected ManufacturerSpecificData, got {:?}", other),
    }
    assert!(it.next().is_none());
}

#[test]
fn test_advertising_data_type_tables_are_inverses() {
    assert!(matches!(
        AdvertisingDataType::from_u8(0x01),
        Some(AdvertisingDataType::Flags)
    ));
    assert_eq!(AdvertisingDataType::from_u8(0xFF).unwrap().to_u8(), 0xFF);
    assert_eq!(AdvertisingDataType::from_u8(0x1B).unwrap().to_u8(), 0x1B);
    assert!(AdvertisingDataType::from_u8(0x0B).is_none());
    assert!(AdvertisingDataType::from_u8(0x00).is_none());
}

#[test]
fn test_decode_entry_directly() {
    match AdvertisingData::decode(0x16, &[0x0F, 0x18, 0x64]) {
        Some(AdvertisingData::ServiceData(d)) => assert_eq!(d, &[0x0F, 0x18, 0x64]),
        other => panic!("expected ServiceData, got {:?}", other),
    }
    assert!(AdvertisingData::decode(0x42, &[0x00]).is_none());
}
