use sony_headphone_ctl::args::{
    AmbientSoundControl, Commands, Config, EqualizerControl, EqualizerProfile, Request, Toggle,
};
use sony_headphone_ctl::devices;
use sony_headphone_ctl::devices::{Anc, Bands, DeviceMessage};
use sony_headphone_ctl::{DataType, ErrorKind};

#[test]
fn toggles() {
    assert!(Toggle::On.into());
    assert!(!Toggle::Off.into());
}

#[test]
fn profiles_keep_their_names() {
    assert_eq!(EqualizerProfile::Off.try_into(), devices::EqualizerProfile::Off);
    assert_eq!(EqualizerProfile::Custom1.try_into(), devices::EqualizerProfile::Custom1);
    assert_eq!(EqualizerProfile::Custom2.try_into(), devices::EqualizerProfile::Custom2);
}

#[test]
fn equalizer_wishes() {
    match (EqualizerControl::Profile { profile: EqualizerProfile::Custom2 }).try_into() {
        DeviceMessage::Equalizer { profile, bands } => {
            assert_eq!(profile, devices::EqualizerProfile::Custom2);
            assert_eq!(bands, Bands::Zero());
        }
        other => panic!("unexpected {:?}", other),
    }
    let wish = EqualizerControl::SixBand {
        profile: EqualizerProfile::Custom1,
        bass: 1,
        b400k: 2,
        b1k: 3,
        b2k5: 4,
        b6k3: 5,
        b16k: 6,
    };
    match wish.try_into() {
        DeviceMessage::Equalizer { profile, bands } => {
            assert_eq!(profile, devices::EqualizerProfile::Custom1);
            assert_eq!(
                bands,
                Bands::FiveBandsAndBass { bass: 1, b400k: 2, b1k: 3, b2k5: 4, b6k3: 5, b16k: 6 }
            );
        }
        other => panic!("unexpected {:?}", other),
    }
}

#[test]
fn settings_become_messages() {
    let m = Config::ANC(AmbientSoundControl::Ambient { level: 7, voice: true }).into_message();
    assert!(matches!(m, DeviceMessage::Anc(Anc::AmbientSound { level: 7, voice: true })));
    let m = Config::ANC(AmbientSoundControl::NC { wind: true }).into_message();
    assert!(matches!(m, DeviceMessage::Anc(Anc::NoiseCanceling { wind: true })));
    let m = Config::ANC(AmbientSoundControl::Off).into_message();
    assert!(matches!(m, DeviceMessage::Anc(Anc::Off)));
    assert!(matches!(Config::DSEE(Toggle::On).into_message(), DeviceMessage::Dsee(true)));
    assert!(matches!(Config::Stc(Toggle::Off).into_message(), DeviceMessage::SpeakToChat(false)));
    assert!(matches!(Config::AutoPowerOff(Toggle::On).into_message(), DeviceMessage::AutoPowerOff(true)));
    assert!(matches!(Config::WearDetection(Toggle::Off).into_message(), DeviceMessage::WearDetection(false)));
}

#[test]
fn raw_bytes_become_a_frame() {
    let debug = sony_headphone_ctl::args::Debug { listen: true, data_type: 0x0c, hex: "e80101Ff".to_string() };
    let frame = debug.frame().unwrap();
    assert_eq!(frame.data_type, DataType::DataMdr);
    assert_eq!(frame.payload, vec![0xe8, 0x01, 0x01, 0xff]);
    assert_eq!(frame.payload_size, 4);
    match Commands::Debug(debug).request().unwrap() {
        Request::Raw { frame, listen } => {
            assert!(listen);
            assert_eq!(frame.payload.len(), 4);
        }
        Request::Apply(_) => panic!("unexpected request"),
    }
}

#[test]
fn raw_bytes_are_checked() {
    let odd = sony_headphone_ctl::args::Debug { listen: false, data_type: 0x0c, hex: "abc".to_string() };
    assert_eq!(odd.frame().unwrap_err().kind, ErrorKind::InvalidFieldValue);
    let not_hex = sony_headphone_ctl::args::Debug { listen: false, data_type: 0x0c, hex: "zz".to_string() };
    assert_eq!(not_hex.frame().unwrap_err().kind, ErrorKind::InvalidFieldValue);
    let unknown = sony_headphone_ctl::args::Debug { listen: false, data_type: 0x03, hex: "00".to_string() };
    assert_eq!(unknown.frame().unwrap_err().kind, ErrorKind::UnsupportedDataType { code: 0x03 });
    let long = sony_headphone_ctl::args::Debug { listen: false, data_type: 0x00, hex: "00".repeat(256) };
    assert_eq!(long.frame().unwrap_err().kind, ErrorKind::InvalidFieldValue);
    let empty = sony_headphone_ctl::args::Debug { listen: false, data_type: 0x00, hex: String::new() };
    assert!(empty.frame().unwrap().payload.is_empty());
}

#[test]
fn a_setting_becomes_a_request() {
    match Commands::Config(Config::DSEE(Toggle::On)).request().unwrap() {
        Request::Apply(DeviceMessage::Dsee(true)) => {}
        _ => panic!("unexpected request"),
    }
}
