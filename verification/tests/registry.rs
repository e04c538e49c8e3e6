use sony_headphone_ctl::commands::mdr2::registered_devices::{Device, RegisteredDevices};
use sony_headphone_ctl::commands::mdr2::{Mdr2, Mdr2Types};
use sony_headphone_ctl::devices::wf1000xm4::{decode, encode};
use sony_headphone_ctl::devices::DeviceMessage;
use sony_headphone_ctl::{ErrorKind, Mac, SonyCommand};

fn two_records() -> Vec<u8> {
    let mut payload = vec![0x00, 0x01, 0x11];
    payload.extend_from_slice(b"AA:BB:CC:DD:EE:FF\x00\x04Name");
    payload.extend_from_slice(b"11:22:33:44:55:66\x00\x03Bob");
    payload
}

#[test]
fn two_records_decode_in_order() {
    let registry = RegisteredDevices::try_from(&two_records()[..]).unwrap();
    assert_eq!(registry.devices.len(), 2);
    assert_eq!(registry.devices[0].mac.bytes, [0xaa, 0xbb, 0xcc, 0xdd, 0xee, 0xff]);
    assert_eq!(registry.devices[0].name, "Name");
    assert_eq!(registry.devices[1].mac.bytes, [0x11, 0x22, 0x33, 0x44, 0x55, 0x66]);
    assert_eq!(registry.devices[1].name, "Bob");
}

#[test]
fn registry_encodes_to_the_same_bytes() {
    let registry = RegisteredDevices::try_from(&two_records()[..]).unwrap();
    assert_eq!(registry.try_into().unwrap(), two_records());
}

#[test]
fn lower_case_digits_are_read_and_separators_are_not_checked() {
    let mut payload = vec![0x00, 0x00, 0x00];
    payload.extend_from_slice(b"0a-1b-2C-d3-e4-f5!\x00");
    let registry = RegisteredDevices::try_from(&payload[..]).unwrap();
    assert_eq!(registry.devices[0].mac.bytes, [0x0a, 0x1b, 0x2c, 0xd3, 0xe4, 0xf5]);
    assert_eq!(registry.devices[0].name, "");
}

#[test]
fn empty_registry() {
    let registry = RegisteredDevices::try_from(&[0x00, 0x01, 0x11][..]).unwrap();
    assert!(registry.devices.is_empty());
    assert_eq!(registry.try_into().unwrap(), vec![0x00, 0x01, 0x11]);
    assert_eq!(
        RegisteredDevices::try_from(&[0x00, 0x01][..]).unwrap_err().kind,
        ErrorKind::MalformedFrame
    );
}

#[test]
fn non_hex_address_is_rejected() {
    let mut payload = vec![0x00, 0x01, 0x11];
    payload.extend_from_slice(b"AA:BB:CG:DD:EE:FF\x00\x00");
    assert_eq!(
        RegisteredDevices::try_from(&payload[..]).unwrap_err().kind,
        ErrorKind::InvalidFieldValue
    );
}

#[test]
fn name_that_is_not_utf8_is_rejected() {
    let mut payload = vec![0x00, 0x01, 0x11];
    payload.extend_from_slice(b"AA:BB:CC:DD:EE:FF\x00\x02\xff\xfe");
    assert_eq!(
        RegisteredDevices::try_from(&payload[..]).unwrap_err().kind,
        ErrorKind::InvalidFieldValue
    );
}

#[test]
fn multi_byte_names_round_trip() {
    let registry = RegisteredDevices {
        devices: vec![Device { mac: Mac { bytes: [1, 2, 3, 4, 5, 6] }, name: "Écouteurs ♪".to_string() }],
    };
    let bytes = registry.clone().try_into().unwrap();
    assert_eq!(bytes[3 + 18] as usize, "Écouteurs ♪".len());
    let back = RegisteredDevices::try_from(&bytes[..]).unwrap();
    assert_eq!(back.devices[0].name, "Écouteurs ♪");
    assert_eq!(back.devices[0].mac, Mac { bytes: [1, 2, 3, 4, 5, 6] });
}

#[test]
fn cut_records_are_malformed() {
    let full = two_records();
    for cut in [full.len() - 1, full.len() - 3, 3 + 10, 3 + 18, 3 + 19] {
        assert_eq!(
            RegisteredDevices::try_from(&full[..cut]).unwrap_err().kind,
            ErrorKind::MalformedFrame,
            "cut at {}",
            cut
        );
    }
}

#[test]
fn long_name_cannot_be_encoded() {
    let registry = RegisteredDevices {
        devices: vec![Device { mac: Mac { bytes: [0; 6] }, name: "x".repeat(256) }],
    };
    assert_eq!(registry.try_into().unwrap_err().kind, ErrorKind::InvalidFieldValue);
    let registry = RegisteredDevices {
        devices: vec![Device { mac: Mac { bytes: [0; 6] }, name: "x".repeat(255) }],
    };
    assert!(registry.try_into().is_ok());
}

#[test]
fn mac_text() {
    let mac = Mac { bytes: [0x00, 0x1a, 0xb2, 0x3c, 0xff, 0x09] };
    assert_eq!(mac.to_string(), "00:1A:B2:3C:FF:09");
    assert_eq!(mac.to_text(), b"00:1A:B2:3C:FF:09".to_vec());
}

#[test]
fn registry_family_codes() {
    assert_eq!(Mdr2Types::RegisteredDevicesAsk.code(), 0);
    assert_eq!(Mdr2Types::RegisteredDevicesResp.code(), 1);
    assert_eq!(Mdr2Types::try_from(1), Ok(Mdr2Types::RegisteredDevicesResp));
    assert_eq!(Mdr2Types::try_from(2), Err(2));
    assert!(matches!(Mdr2::try_from(&[0x00, 0x00, 0x11][..]).unwrap(), Mdr2::RegisteredDevices(_)));
    assert_eq!(
        Mdr2::try_from(&[0x00, 0x02, 0x11][..]).unwrap_err().kind,
        ErrorKind::UnsupportedMessageCode { message_code: 2 }
    );
    assert_eq!(Mdr2::try_from(&[0x00][..]).unwrap_err().kind, ErrorKind::MalformedFrame);
}

#[test]
fn registered_devices_message_round_trips() {
    let devices = vec![
        Device { mac: Mac { bytes: [0xaa, 0xbb, 0xcc, 0xdd, 0xee, 0xff] }, name: "Name".to_string() },
        Device { mac: Mac { bytes: [0x11, 0x22, 0x33, 0x44, 0x55, 0x66] }, name: "Bob".to_string() },
    ];
    let frame = encode(DeviceMessage::RegisteredDevices(devices)).unwrap();
    assert_eq!(frame.data_type, sony_headphone_ctl::DataType::DataMdr2);
    assert_eq!(frame.payload, two_records());
    let bytes = frame.try_into().unwrap();
    match decode(SonyCommand::try_from(&bytes[..]).unwrap()).unwrap() {
        DeviceMessage::RegisteredDevices(back) => {
            assert_eq!(back.len(), 2);
            assert_eq!(back[0].name, "Name");
            assert_eq!(back[1].mac.bytes, [0x11, 0x22, 0x33, 0x44, 0x55, 0x66]);
        }
        other => panic!("unexpected {:?}", other),
    }
}

#[test]
fn registry_too_large_for_a_frame_is_rejected() {
    let devices = (0..20)
        .map(|i| Device { mac: Mac { bytes: [i; 6] }, name: "headphones".to_string() })
        .collect();
    assert_eq!(
        encode(DeviceMessage::RegisteredDevices(devices)).unwrap_err().kind,
        ErrorKind::InvalidFieldValue
    );
}
