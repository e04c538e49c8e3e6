use sony_headphone_ctl::{encode, frame_len, DataType, ErrorKind, SonyCommand};

fn sample() -> Vec<u8> {
    encode(DataType::DataMdr, 0x0403_0201, &[1, 2, 3]).unwrap()
}

#[test]
fn encode_lays_out_every_field() {
    assert_eq!(
        sample(),
        vec![0x3e, 0x0c, 0x01, 0x02, 0x03, 0x04, 0x03, 1, 2, 3, 0x1f, 0x3c]
    );
}

#[test]
fn encode_empty_payload() {
    let bytes = encode(DataType::Ack, 0, &[]).unwrap();
    assert_eq!(bytes, vec![0x3e, 0x01, 0, 0, 0, 0, 0, 0x01, 0x3c]);
}

#[test]
fn checksum_wraps_around() {
    let bytes = encode(DataType::Data, 0, &[0xff, 0xff, 0x05]).unwrap();
    // 0 + 0 + 3 + 0xff + 0xff + 5 = 0x206
    assert_eq!(bytes[bytes.len() - 2], 0x06);
}

#[test]
fn checksum_covers_all_sequence_bytes() {
    let a = encode(DataType::Data, 0x0000_0100, &[]).unwrap();
    let b = encode(DataType::Data, 0x0000_0000, &[]).unwrap();
    assert_eq!(a[a.len() - 2], 0x01);
    assert_eq!(b[b.len() - 2], 0x00);
    let frame = SonyCommand::try_from(&a[..]).unwrap();
    assert_eq!(frame.seq_number, 0x100);
}

#[test]
fn encode_rejects_long_payload() {
    let payload = vec![0u8; 256];
    let err = encode(DataType::Data, 0, &payload).unwrap_err();
    assert_eq!(err.kind, ErrorKind::InvalidFieldValue);
    assert!(encode(DataType::Data, 0, &payload[..255]).is_ok());
}

#[test]
fn decode_gives_back_what_was_encoded() {
    let frame = SonyCommand::try_from(&sample()[..]).unwrap();
    assert_eq!(frame.data_type, DataType::DataMdr);
    assert_eq!(frame.seq_number, 0x0403_0201);
    assert_eq!(frame.payload_size, 3);
    assert_eq!(frame.payload, vec![1, 2, 3]);
    assert_eq!(frame.checksum, 0x1f);
}

#[test]
fn decoded_frame_serializes_to_the_same_bytes() {
    let bytes = sample();
    let frame = SonyCommand::try_from(&bytes[..]).unwrap();
    assert_eq!(frame.try_into().unwrap(), bytes);
}

#[test]
fn decode_ignores_bytes_after_the_end_marker() {
    let mut bytes = sample();
    bytes.extend_from_slice(&[9, 9, 9]);
    let frame = SonyCommand::try_from(&bytes[..]).unwrap();
    assert_eq!(frame.payload, vec![1, 2, 3]);
}

#[test]
fn every_corrupted_covered_byte_is_a_checksum_mismatch() {
    let good = sample();
    for i in 1..good.len() - 1 {
        if i == 6 {
            continue;
        }
        let mut bad = good.clone();
        bad[i] ^= 0x40;
        let err = SonyCommand::try_from(&bad[..]).unwrap_err();
        assert!(matches!(err.kind, ErrorKind::ChecksumMismatch { .. }), "byte {}", i);
        assert_eq!(err.data, bad);
    }
}

#[test]
fn checksum_mismatch_reports_both_values() {
    let mut bad = sample();
    bad[10] = 0x20;
    let err = SonyCommand::try_from(&bad[..]).unwrap_err();
    assert_eq!(err.kind, ErrorKind::ChecksumMismatch { computed: 0x1f, received: 0x20 });
}

#[test]
fn corrupted_delimiters_are_malformed() {
    let good = sample();
    let mut bad = good.clone();
    bad[0] = b'<';
    assert_eq!(SonyCommand::try_from(&bad[..]).unwrap_err().kind, ErrorKind::MalformedFrame);
    let mut bad = good.clone();
    let last = bad.len() - 1;
    bad[last] = b'>';
    assert_eq!(SonyCommand::try_from(&bad[..]).unwrap_err().kind, ErrorKind::MalformedFrame);
}

#[test]
fn short_payload_is_malformed() {
    // the length byte says 5, four bytes follow
    let bytes = [0x3e, 0x0c, 0, 0, 0, 0, 5, 1, 2, 3, 4];
    assert_eq!(SonyCommand::try_from(&bytes[..]).unwrap_err().kind, ErrorKind::MalformedFrame);
}

#[test]
fn short_buffers_are_malformed() {
    for n in 0..9 {
        let bytes = vec![0x3e; n];
        assert_eq!(SonyCommand::try_from(&bytes[..]).unwrap_err().kind, ErrorKind::MalformedFrame);
    }
}

#[test]
fn unknown_data_type_is_unsupported() {
    // data type 0x07 with a correct checksum
    let bytes = [0x3e, 0x07, 0, 0, 0, 0, 0, 0x07, 0x3c];
    assert_eq!(
        SonyCommand::try_from(&bytes[..]).unwrap_err().kind,
        ErrorKind::UnsupportedDataType { code: 0x07 }
    );
}

#[test]
fn data_type_codes_round_trip() {
    let all = [
        (DataType::Data, 0x00),
        (DataType::Ack, 0x01),
        (DataType::DataMc1, 0x02),
        (DataType::DataIcd, 0x09),
        (DataType::DataEv, 0x0a),
        (DataType::DataMdr, 0x0c),
        (DataType::DataCommon, 0x0d),
        (DataType::DataMdr2, 0x0e),
        (DataType::Shot, 0x10),
        (DataType::ShotMc1, 0x12),
        (DataType::ShotIcd, 0x19),
        (DataType::ShotEv, 0x1a),
        (DataType::ShotMdr, 0x1c),
        (DataType::ShotCommon, 0x1d),
        (DataType::ShotMdr2, 0x1e),
        (DataType::LargeData, 0x2d),
    ];
    for (d, c) in all {
        assert_eq!(d.code(), c);
        assert_eq!(DataType::try_from(c), Ok(d));
    }
    assert_eq!(DataType::try_from(0x03), Err(0x03));
    assert_eq!(DataType::try_from(0xff), Err(0xff));
}

#[test]
fn set_seq_number_changes_only_the_sequence_number() {
    let mut frame = SonyCommand::try_from(&sample()[..]).unwrap();
    frame.set_seq_number(7);
    assert_eq!(frame.seq_number, 7);
    assert_eq!(frame.payload, vec![1, 2, 3]);
    assert_eq!(frame.data_type, DataType::DataMdr);
    let bytes = frame.try_into().unwrap();
    assert_eq!(&bytes[2..6], &[7, 0, 0, 0]);
}

#[test]
fn frame_length_from_a_growing_buffer() {
    let bytes = sample();
    for n in 0..bytes.len() {
        assert_eq!(frame_len(&bytes[..n]), None, "prefix of {}", n);
    }
    assert_eq!(frame_len(&bytes), Some(12));
    let mut more = bytes.clone();
    more.extend_from_slice(&bytes);
    assert_eq!(frame_len(&more), Some(12));
    assert_eq!(frame_len(&more[12..]), Some(12));
}

#[test]
fn corrupted_length_byte_never_passes_for_the_frame_sent() {
    let good = encode(DataType::Data, 0, &[0x00, 0x3c]).unwrap();
    assert_eq!(good, vec![0x3e, 0, 0, 0, 0, 0, 2, 0x00, 0x3c, 0x3e, 0x3c]);
    // a shorter length that happens to line up with a checksum and an end marker
    let mut bad = good.clone();
    bad[6] = 0;
    let frame = SonyCommand::try_from(&bad[..]).unwrap();
    assert_eq!(frame.payload_size, 0);
    assert!(frame.payload.is_empty());
    // any other length is rejected
    for v in [1u8, 3, 4, 200] {
        let mut bad = good.clone();
        bad[6] = v;
        assert!(SonyCommand::try_from(&bad[..]).is_err());
    }
}
