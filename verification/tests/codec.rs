use sony_headphone_ctl::commands::mdr::Mdr;
use sony_headphone_ctl::commands::{Command, DataType};
use sony_headphone_ctl::devices::wf1000xm4::anc::{AncMode, AncWF1000XM4, AsLevel, WindCode};
use sony_headphone_ctl::devices::wf1000xm4::equalizer::EqualizerCommand;
use sony_headphone_ctl::devices::wf1000xm4::{
    decode, encode, ApoEnable, AutoPowerOffCommand, CommandTypes, DseeCommand, Feature,
    PauseRemovedCommand, StcCommand,
};
use sony_headphone_ctl::devices::{Anc, Bands, DeviceMessage, Equalizer, EqualizerProfile};
use sony_headphone_ctl::{ErrorKind, SonyCommand};

fn six(v: i8) -> Bands {
    Bands::FiveBandsAndBass { bass: v, b400k: v, b1k: v, b2k5: v, b6k3: v, b16k: v }
}

fn round_trip(message: DeviceMessage) -> DeviceMessage {
    let mut frame = encode(message).unwrap();
    frame.set_seq_number(0x1234_5678);
    let bytes = frame.try_into().unwrap();
    decode(SonyCommand::try_from(&bytes[..]).unwrap()).unwrap()
}

#[test]
fn ambient_sound_payload() {
    let frame = encode(DeviceMessage::Anc(Anc::AmbientSound { level: 10, voice: true })).unwrap();
    assert_eq!(frame.payload, vec![0x68, 0x15, 0x01, 0x01, 0x01, 0x02, 0x01, 0x0a]);
    assert_eq!(frame.data_type, sony_headphone_ctl::DataType::DataMdr);
    assert_eq!(frame.payload_size, 8);
    assert_eq!(frame.seq_number, 0);
}

#[test]
fn noise_canceling_and_off_payloads() {
    let frame = encode(DeviceMessage::Anc(Anc::NoiseCanceling { wind: true })).unwrap();
    assert_eq!(frame.payload, vec![0x68, 0x15, 0x01, 0x01, 0x00, 0x03, 0x00, 0x01]);
    let frame = encode(DeviceMessage::Anc(Anc::NoiseCanceling { wind: false })).unwrap();
    assert_eq!(frame.payload, vec![0x68, 0x15, 0x01, 0x01, 0x00, 0x02, 0x00, 0x01]);
    let frame = encode(DeviceMessage::Anc(Anc::Off)).unwrap();
    assert_eq!(frame.payload, vec![0x68, 0x15, 0x01, 0x00, 0x00, 0x02, 0x00, 0x01]);
}

#[test]
fn equalizer_payload() {
    let frame = encode(DeviceMessage::Equalizer {
        profile: EqualizerProfile::Custom1,
        bands: six(0),
    })
    .unwrap();
    assert_eq!(
        frame.payload,
        vec![0x58, 0x00, 0xa1, 0x06, 0x0a, 0x0a, 0x0a, 0x0a, 0x0a, 0x0a]
    );
}

#[test]
fn equalizer_payload_without_bands_and_at_the_limits() {
    let frame = encode(DeviceMessage::Equalizer {
        profile: EqualizerProfile::Off,
        bands: Bands::Zero(),
    })
    .unwrap();
    assert_eq!(frame.payload, vec![0x58, 0x00, 0x00, 0x00]);
    let frame = encode(DeviceMessage::Equalizer {
        profile: EqualizerProfile::Custom2,
        bands: Bands::FiveBandsAndBass { bass: -10, b400k: 10, b1k: -1, b2k5: 1, b6k3: 0, b16k: 5 },
    })
    .unwrap();
    assert_eq!(frame.payload, vec![0x58, 0x00, 0xa2, 0x06, 0, 20, 9, 11, 10, 15]);
}

#[test]
fn toggle_payloads_keep_their_polarity() {
    assert_eq!(encode(DeviceMessage::Dsee(true)).unwrap().payload, vec![0xe8, 0x01, 0x01]);
    assert_eq!(encode(DeviceMessage::Dsee(false)).unwrap().payload, vec![0xe8, 0x01, 0x00]);
    assert_eq!(encode(DeviceMessage::WearDetection(true)).unwrap().payload, vec![0xf8, 0x01, 0x01]);
    assert_eq!(encode(DeviceMessage::WearDetection(false)).unwrap().payload, vec![0xf8, 0x01, 0x00]);
    assert_eq!(encode(DeviceMessage::SpeakToChat(true)).unwrap().payload, vec![0xf8, 0x02, 0x00, 0x01]);
    assert_eq!(encode(DeviceMessage::SpeakToChat(false)).unwrap().payload, vec![0xf8, 0x02, 0x01, 0x01]);
    assert_eq!(encode(DeviceMessage::AutoPowerOff(true)).unwrap().payload, vec![0x28, 0x05, 0x10, 0x00]);
    assert_eq!(encode(DeviceMessage::AutoPowerOff(false)).unwrap().payload, vec![0x28, 0x05, 0x11, 0x00]);
}

#[test]
fn ack_and_unknown_frames() {
    let frame = encode(DeviceMessage::Ack()).unwrap();
    assert_eq!(frame.data_type, sony_headphone_ctl::DataType::Ack);
    assert!(frame.payload.is_empty());
    let frame = encode(DeviceMessage::Unknown(vec![1, 2, 3])).unwrap();
    assert_eq!(frame.data_type, sony_headphone_ctl::DataType::Data);
    assert_eq!(frame.payload, vec![1, 2, 3]);
}

#[test]
fn band_out_of_range_is_rejected() {
    for bad in [-128i8, -11, 11, 127] {
        for slot in 0..6 {
            let mut g = [0i8; 6];
            g[slot] = bad;
            let bands = Bands::FiveBandsAndBass {
                bass: g[0],
                b400k: g[1],
                b1k: g[2],
                b2k5: g[3],
                b6k3: g[4],
                b16k: g[5],
            };
            assert_eq!(bands.validate().unwrap_err().kind, ErrorKind::InvalidFieldValue);
            let err = encode(DeviceMessage::Equalizer { profile: EqualizerProfile::Custom1, bands })
                .unwrap_err();
            assert_eq!(err.kind, ErrorKind::InvalidFieldValue);
        }
    }
}

#[test]
fn bands_at_the_limits_are_valid() {
    assert!(six(-10).validate().is_ok());
    assert!(six(10).validate().is_ok());
    assert!(Bands::Zero().validate().is_ok());
}

#[test]
fn level_out_of_range_is_rejected() {
    for level in [0u8, 21, 22, 255] {
        let err = encode(DeviceMessage::Anc(Anc::AmbientSound { level, voice: false })).unwrap_err();
        assert_eq!(err.kind, ErrorKind::InvalidFieldValue);
    }
    for level in 1..=20u8 {
        let frame = encode(DeviceMessage::Anc(Anc::AmbientSound { level, voice: false })).unwrap();
        assert_eq!(frame.payload[7], level);
    }
}

#[test]
fn every_variant_round_trips() {
    for level in 1..=20u8 {
        for voice in [false, true] {
            let m = round_trip(DeviceMessage::Anc(Anc::AmbientSound { level, voice }));
            assert!(matches!(m, DeviceMessage::Anc(Anc::AmbientSound { level: l, voice: v }) if l == level && v == voice));
        }
    }
    for wind in [false, true] {
        let m = round_trip(DeviceMessage::Anc(Anc::NoiseCanceling { wind }));
        assert!(matches!(m, DeviceMessage::Anc(Anc::NoiseCanceling { wind: w }) if w == wind));
    }
    assert!(matches!(round_trip(DeviceMessage::Anc(Anc::Off)), DeviceMessage::Anc(Anc::Off)));
    for on in [false, true] {
        assert!(matches!(round_trip(DeviceMessage::Dsee(on)), DeviceMessage::Dsee(b) if b == on));
        assert!(matches!(round_trip(DeviceMessage::SpeakToChat(on)), DeviceMessage::SpeakToChat(b) if b == on));
        assert!(matches!(round_trip(DeviceMessage::AutoPowerOff(on)), DeviceMessage::AutoPowerOff(b) if b == on));
        assert!(matches!(round_trip(DeviceMessage::WearDetection(on)), DeviceMessage::WearDetection(b) if b == on));
    }
    assert!(matches!(round_trip(DeviceMessage::Ack()), DeviceMessage::Ack()));
    assert!(matches!(round_trip(DeviceMessage::Unknown(vec![7, 8])), DeviceMessage::Unknown(b) if b == vec![7, 8]));
}

#[test]
fn equalizer_round_trips() {
    for profile in [EqualizerProfile::Off, EqualizerProfile::Custom1, EqualizerProfile::Custom2] {
        for bands in [
            Bands::Zero(),
            six(-10),
            six(10),
            Bands::FiveBandsAndBass { bass: -3, b400k: 4, b1k: 0, b2k5: 9, b6k3: -9, b16k: 1 },
        ] {
            let m = round_trip(DeviceMessage::Equalizer { profile, bands });
            match m {
                DeviceMessage::Equalizer { profile: p, bands: b } => {
                    assert_eq!(p, profile);
                    assert_eq!(b, bands);
                }
                other => panic!("unexpected {:?}", other),
            }
        }
    }
}

#[test]
fn acknowledgement_codes_decode_like_requests() {
    let m = Mdr::try_from(&[0x69, 0x15, 0x01, 0x01, 0x01, 0x02, 0x01, 0x0a][..]).unwrap();
    match m {
        Mdr::Asm(c) => {
            assert_eq!(c.command, CommandTypes::AncAck);
            assert!(c.command.is_ack());
            assert_eq!(c.try_into(), Anc::AmbientSound { level: 10, voice: true });
        }
        other => panic!("unexpected {:?}", other),
    }
}

#[test]
fn message_codes_match_the_table() {
    let table = [
        (CommandTypes::AncSet, 0x6815u16, Feature::Anc, false),
        (CommandTypes::AncAck, 0x6915, Feature::Anc, true),
        (CommandTypes::EqSet, 0x5800, Feature::Equalizer, false),
        (CommandTypes::EqAck, 0x5900, Feature::Equalizer, true),
        (CommandTypes::DseeSet, 0xe801, Feature::Dsee, false),
        (CommandTypes::DseeAck, 0xe901, Feature::Dsee, true),
        (CommandTypes::StcSet, 0xf802, Feature::SpeakToChat, false),
        (CommandTypes::StcAck, 0xf902, Feature::SpeakToChat, true),
        (CommandTypes::ApoSet, 0x2805, Feature::AutoPowerOff, false),
        (CommandTypes::ApoAck, 0x2905, Feature::AutoPowerOff, true),
        (CommandTypes::WearSet, 0xf801, Feature::WearDetection, false),
        (CommandTypes::WearAck, 0xf901, Feature::WearDetection, true),
    ];
    for (c, code, feature, ack) in table {
        assert_eq!(c.code(), code);
        assert_eq!(CommandTypes::try_from(code), Ok(c));
        assert_eq!(c.feature(), feature);
        assert_eq!(c.is_ack(), ack);
        assert_eq!(CommandTypes::try_from_feature(code, feature).unwrap(), c);
    }
    assert_eq!(CommandTypes::try_from(0x1234), Err(0x1234));
    assert_eq!(
        CommandTypes::try_from_feature(0x6815, Feature::Dsee).unwrap_err().kind,
        ErrorKind::UnsupportedMessageCode { message_code: 0x6815 }
    );
}

#[test]
fn unknown_message_code_names_the_code() {
    let err = Mdr::try_from(&[0x12, 0x34, 0x00][..]).unwrap_err();
    assert_eq!(err.kind, ErrorKind::UnsupportedMessageCode { message_code: 0x1234 });
    let err = Mdr::try_from(&[0x12][..]).unwrap_err();
    assert_eq!(err.kind, ErrorKind::MalformedFrame);
}

#[test]
fn anc_decode_rejects_bad_fields() {
    let good = [0x68, 0x15, 0x01, 0x01, 0x01, 0x02, 0x01, 0x0a];
    assert!(AncWF1000XM4::from_bytes(&good[..]).is_ok());
    for (at, value) in [(4usize, 2u8), (5, 4), (5, 0), (7, 0), (7, 21)] {
        let mut bad = good;
        bad[at] = value;
        assert_eq!(
            AncWF1000XM4::from_bytes(&bad[..]).unwrap_err().kind,
            ErrorKind::InvalidFieldValue
        );
    }
    assert_eq!(AncWF1000XM4::from_bytes(&good[..7]).unwrap_err().kind, ErrorKind::MalformedFrame);
    let mut other = good;
    other[0] = 0x58;
    other[1] = 0x00;
    assert_eq!(
        AncWF1000XM4::from_bytes(&other[..]).unwrap_err().kind,
        ErrorKind::UnsupportedMessageCode { message_code: 0x5800 }
    );
}

#[test]
fn anc_decode_reads_every_field() {
    let c = AncWF1000XM4::from_bytes(&[0x68, 0x15, 0x00, 0x01, 0x00, 0x05, 0x00, 0x14][..]).unwrap();
    assert_eq!(
        c,
        AncWF1000XM4 {
            command: CommandTypes::AncSet,
            continuous: true,
            anc_enable: true,
            anc_mode: AncMode::NoiseCanceling,
            nc_wind: WindCode::WindVoice,
            as_voice: false,
            as_level: AsLevel::Level20,
        }
    );
    assert_eq!(c.try_into(), Anc::NoiseCanceling { wind: true });
    assert_eq!(c.to_bytes(), vec![0x68, 0x15, 0x00, 0x01, 0x00, 0x05, 0x00, 0x14]);
}

#[test]
fn equalizer_decode_rejects_bad_band_counts() {
    // three bands announced and present
    let c = EqualizerCommand::from_bytes(&[0x58, 0x00, 0xa1, 0x03, 10, 10, 10][..]).unwrap();
    assert_eq!(c.try_into().unwrap_err().kind, ErrorKind::InvalidFieldValue);
    // six announced, five present
    let err = EqualizerCommand::from_bytes(&[0x58, 0x00, 0xa1, 0x06, 10, 10, 10, 10, 10][..]).unwrap_err();
    assert_eq!(err.kind, ErrorKind::MalformedFrame);
    // unknown preset
    let c = EqualizerCommand::from_bytes(&[0x58, 0x00, 0x55, 0x00][..]).unwrap();
    assert_eq!(c.try_into().unwrap_err().kind, ErrorKind::InvalidFieldValue);
    // a band beyond +10
    let c = EqualizerCommand::from_bytes(&[0x58, 0x00, 0xa1, 0x06, 10, 10, 21, 10, 10, 10][..]).unwrap();
    assert_eq!(c.try_into().unwrap_err().kind, ErrorKind::InvalidFieldValue);
}

#[test]
fn equalizer_decode_reads_gains() {
    let c = EqualizerCommand::from_bytes(&[0x59, 0x00, 0xa2, 0x06, 0, 20, 9, 11, 10, 15][..]).unwrap();
    assert_eq!(c.command, CommandTypes::EqAck);
    assert_eq!(
        c.try_into().unwrap(),
        Equalizer {
            profile: EqualizerProfile::Custom2,
            bands: Bands::FiveBandsAndBass { bass: -10, b400k: 10, b1k: -1, b2k5: 1, b6k3: 0, b16k: 5 },
        }
    );
}

#[test]
fn toggle_decode_ignores_reserved_bytes() {
    assert!(StcCommand::from_bytes(&[0xf8, 0x02, 0x00, 0x77][..]).unwrap().enable);
    assert!(!StcCommand::from_bytes(&[0xf8, 0x02, 0x01][..]).unwrap().enable);
    assert!(DseeCommand::from_bytes(&[0xe9, 0x01, 0x01][..]).unwrap().enable);
    assert!(!PauseRemovedCommand::from_bytes(&[0xf8, 0x01, 0x00][..]).unwrap().enable);
    let apo = AutoPowerOffCommand::from_bytes(&[0x28, 0x05, 0x10, 0x99][..]).unwrap();
    assert_eq!(apo.enable, ApoEnable::On);
    assert_eq!(
        AutoPowerOffCommand::from_bytes(&[0x28, 0x05, 0x12, 0x00][..]).unwrap_err().kind,
        ErrorKind::InvalidFieldValue
    );
    assert_eq!(
        DseeCommand::from_bytes(&[0xe8, 0x01][..]).unwrap_err().kind,
        ErrorKind::MalformedFrame
    );
}

#[test]
fn dispatcher_routes_by_data_type() {
    assert!(matches!(DataType::try_from(0x01, &[]).unwrap(), DataType::Ack()));
    assert!(matches!(DataType::try_from(0x01, &[5]).unwrap(), DataType::Ack()));
    assert!(matches!(
        DataType::try_from(0x0c, &[0xe8, 0x01, 0x01]).unwrap(),
        DataType::DataMdr(Mdr::Dsee(_))
    ));
    assert!(matches!(DataType::try_from(0x0e, &[0x00, 0x01, 0x11]).unwrap(), DataType::DataMdr2(_)));
    for code in [0x00u8, 0x02, 0x09, 0x0a, 0x0d, 0x10, 0x12, 0x19, 0x1a, 0x1c, 0x1d, 0x1e, 0x2d] {
        match DataType::try_from(code, &[1, 2]).unwrap() {
            DataType::Data(bytes) => assert_eq!(bytes, vec![1, 2]),
            other => panic!("unexpected {:?}", other),
        }
    }
    assert_eq!(
        DataType::try_from(0x03, &[]).unwrap_err().kind,
        ErrorKind::UnsupportedDataType { code: 0x03 }
    );
}

#[test]
fn dispatcher_codes() {
    assert_eq!(DataType::Ack().code(), 0x01);
    assert_eq!(DataType::Data(vec![]).code(), 0x00);
    assert_eq!(DataType::DataMdr(Mdr::Dsee(DseeCommand::new(true))).code(), 0x0c);
    assert_eq!(DataType::try_from(0x0e, &[0x00, 0x01, 0x11]).unwrap().code(), 0x0e);
}

#[test]
fn command_round_trips_through_bytes() {
    let mut command = Command { seq_number: 1, data_type: DataType::DataMdr(Mdr::Stc(StcCommand::new(true))) };
    command.set_seq_number(9);
    let bytes = command.try_into().unwrap();
    assert_eq!(bytes, vec![0x3e, 0x0c, 9, 0, 0, 0, 4, 0xf8, 0x02, 0x00, 0x01, 0x14, 0x3c]);
    let back = Command::try_from(&bytes[..]).unwrap();
    assert_eq!(back.seq_number, 9);
    match back.data_type {
        DataType::DataMdr(Mdr::Stc(c)) => assert!(c.enable),
        other => panic!("unexpected {:?}", other),
    }
}

#[test]
fn command_decode_surfaces_codec_errors() {
    // a settings frame whose payload has an unknown message code
    let bytes = sony_headphone_ctl::encode(sony_headphone_ctl::DataType::DataMdr, 0, &[0x00, 0x00, 0x00]).unwrap();
    assert_eq!(
        Command::try_from(&bytes[..]).unwrap_err().kind,
        ErrorKind::UnsupportedMessageCode { message_code: 0 }
    );
    assert_eq!(Command::try_from(&bytes[..4]).unwrap_err().kind, ErrorKind::MalformedFrame);
}
