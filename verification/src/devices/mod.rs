//! The settings of a headset as values, free of any wire layout.

use vstd::prelude::*;

use crate::commands::mdr2::registered_devices::{Device, DeviceView};
use crate::common::{Error, ErrorKind};

pub mod session;
pub mod wf1000xm4;

verus! {

/// Lowest gain of an equalizer band.
pub const BAND_MIN: i8 = -10;

/// Highest gain of an equalizer band.
pub const BAND_MAX: i8 = 10;

/// The noise-control setting.
#[derive(Debug, Clone, Copy, PartialEq, Eq, Structural)]
pub enum Anc {
    AmbientSound { level: u8, voice: bool },
    NoiseCanceling { wind: bool },
    Off,
}

/// The equalizer preset.
#[derive(Debug, Clone, Copy, PartialEq, Eq, Structural)]
pub enum EqualizerProfile {
    Off,
    Custom1,
    Custom2,
}

impl EqualizerProfile {
    pub open spec fn spec_code(self) -> u8 {
        match self {
            EqualizerProfile::Off => 0x00,
            EqualizerProfile::Custom1 => 0xa1,
            EqualizerProfile::Custom2 => 0xa2,
        }
    }

    pub open spec fn from_code(code: u8) -> Option<EqualizerProfile> {
        if code == 0x00 {
            Some(EqualizerProfile::Off)
        } else if code == 0xa1 {
            Some(EqualizerProfile::Custom1)
        } else if code == 0xa2 {
            Some(EqualizerProfile::Custom2)
        } else {
            None
        }
    }

    #[verifier::when_used_as_spec(spec_code)]
    pub fn code(self) -> (c: u8)
        ensures
            c == self.spec_code(),
    {
        match self {
            EqualizerProfile::Off => 0x00,
            EqualizerProfile::Custom1 => 0xa1,
            EqualizerProfile::Custom2 => 0xa2,
        }
    }

    pub fn try_from(code: u8) -> (r: Result<EqualizerProfile, u8>)
        ensures
            r == match EqualizerProfile::from_code(code) {
                Some(p) => Ok::<EqualizerProfile, u8>(p),
                None => Err::<EqualizerProfile, u8>(code),
            },
    {
        match code {
            0x00 => Ok(EqualizerProfile::Off),
            0xa1 => Ok(EqualizerProfile::Custom1),
            0xa2 => Ok(EqualizerProfile::Custom2),
            _ => Err(code),
        }
    }
}

/// The band gains of the equalizer: none, or bass and five bands.
#[derive(Debug, Clone, Copy, PartialEq, Eq, Structural)]
pub enum Bands {
    Zero(),
    FiveBandsAndBass { bass: i8, b400k: i8, b1k: i8, b2k5: i8, b6k3: i8, b16k: i8 },
}

/// The gain lies in the closed range from -10 to 10.
pub open spec fn gain_in_range(gain: i8) -> bool {
    BAND_MIN <= gain <= BAND_MAX
}

impl Bands {
    /// The gains in wire order; empty where there are none.
    pub open spec fn gains(self) -> Seq<i8> {
        match self {
            Bands::Zero() => Seq::empty(),
            Bands::FiveBandsAndBass { bass, b400k, b1k, b2k5, b6k3, b16k } => seq![
                bass,
                b400k,
                b1k,
                b2k5,
                b6k3,
                b16k,
            ],
        }
    }

    /// Every gain lies in the closed range from -10 to 10.
    pub open spec fn valid(self) -> bool {
        forall|i: int| 0 <= i < self.gains().len() ==> gain_in_range(#[trigger] self.gains()[i])
    }

    /// Accepts the bands exactly when every gain is in range; otherwise the
    /// error is an invalid field value.
    pub fn validate(&self) -> (r: Result<(), Error>)
        ensures
            r is Ok <==> self.valid(),
            r matches Err(e) ==> e.kind == ErrorKind::InvalidFieldValue,
    {
        match self {
            Bands::Zero() => Ok(()),
            Bands::FiveBandsAndBass { bass, b400k, b1k, b2k5, b6k3, b16k } => {
                proof {
                    let g = self.gains();
                    assert(g[0] == *bass && g[1] == *b400k && g[2] == *b1k && g[3] == *b2k5 && g[4]
                        == *b6k3 && g[5] == *b16k);
                }
                if *bass < BAND_MIN || *bass > BAND_MAX {
                    return Err(Error::new(ErrorKind::InvalidFieldValue, "invalid bass value".to_owned()));
                }
                if *b400k < BAND_MIN || *b400k > BAND_MAX {
                    return Err(Error::new(ErrorKind::InvalidFieldValue, "invalid 400 Hz value".to_owned()));
                }
                if *b1k < BAND_MIN || *b1k > BAND_MAX {
                    return Err(Error::new(ErrorKind::InvalidFieldValue, "invalid 1 kHz value".to_owned()));
                }
                if *b2k5 < BAND_MIN || *b2k5 > BAND_MAX {
                    return Err(Error::new(ErrorKind::InvalidFieldValue, "invalid 2.5 kHz value".to_owned()));
                }
                if *b6k3 < BAND_MIN || *b6k3 > BAND_MAX {
                    return Err(Error::new(ErrorKind::InvalidFieldValue, "invalid 6.3 kHz value".to_owned()));
                }
                if *b16k < BAND_MIN || *b16k > BAND_MAX {
                    return Err(Error::new(ErrorKind::InvalidFieldValue, "invalid 16 kHz value".to_owned()));
                }
                Ok(())
            },
        }
    }
}

/// An equalizer setting: a preset and its band gains.
#[derive(Debug, Clone, Copy, PartialEq, Eq, Structural)]
pub struct Equalizer {
    pub profile: EqualizerProfile,
    pub bands: Bands,
}

/// What the user or the device is saying, whatever the bytes look like.
#[derive(Debug, Clone)]
pub enum DeviceMessage {
    RegisteredDevices(Vec<Device>),
    Anc(Anc),
    Equalizer { profile: EqualizerProfile, bands: Bands },
    Dsee(bool),
    SpeakToChat(bool),
    AutoPowerOff(bool),
    WearDetection(bool),
    Ack(),
    Unknown(Vec<u8>),
}

/// A message as a mathematical value.
pub enum MessageView {
    RegisteredDevices(Seq<DeviceView>),
    Anc(Anc),
    Equalizer { profile: EqualizerProfile, bands: Bands },
    Dsee(bool),
    SpeakToChat(bool),
    AutoPowerOff(bool),
    WearDetection(bool),
    Ack,
    Unknown(Seq<u8>),
}

impl View for DeviceMessage {
    type V = MessageView;

    open spec fn view(&self) -> MessageView {
        match self {
            DeviceMessage::RegisteredDevices(devices) => MessageView::RegisteredDevices(
                devices.deep_view(),
            ),
            DeviceMessage::Anc(anc) => MessageView::Anc(*anc),
            DeviceMessage::Equalizer { profile, bands } => MessageView::Equalizer {
                profile: *profile,
                bands: *bands,
            },
            DeviceMessage::Dsee(on) => MessageView::Dsee(*on),
            DeviceMessage::SpeakToChat(on) => MessageView::SpeakToChat(*on),
            DeviceMessage::AutoPowerOff(on) => MessageView::AutoPowerOff(*on),
            DeviceMessage::WearDetection(on) => MessageView::WearDetection(*on),
            DeviceMessage::Ack() => MessageView::Ack,
            DeviceMessage::Unknown(bytes) => MessageView::Unknown(bytes@),
        }
    }
}

/// Tells whether two byte strings are equal.
pub fn same_bytes(a: &[u8], b: &[u8]) -> (r: bool)
    ensures
        r == (a@ == b@),
{
    if a.len() != b.len() {
        return false;
    }
    let mut i: usize = 0;
    while i < a.len()
        invariant
            i <= a@.len(),
            a@.len() == b@.len(),
            forall|j: int| 0 <= j < i ==> a@[j] == b@[j],
        decreases a@.len() - i,
    {
        if a[i] != b[i] {
            return false;
        }
        i += 1;
    }
    assert(a@ =~= b@);
    true
}

/// Tells whether two devices have the same address and the same name.
pub fn same_device(a: &Device, b: &Device) -> (r: bool)
    ensures
        r == (a@ == b@),
{
    let same_mac = same_bytes(a.mac.bytes.as_slice(), b.mac.bytes.as_slice());
    let same_name = a.name == b.name;
    same_mac && same_name
}

/// Tells whether two lists hold the same devices in the same order.
pub fn same_devices(a: &Vec<Device>, b: &Vec<Device>) -> (r: bool)
    ensures
        r == (a.deep_view() == b.deep_view()),
{
    if a.len() != b.len() {
        assert(a.deep_view().len() != b.deep_view().len());
        return false;
    }
    let mut i: usize = 0;
    while i < a.len()
        invariant
            i <= a@.len(),
            a@.len() == b@.len(),
            forall|j: int| 0 <= j < i ==> a@[j]@ == b@[j]@,
        decreases a@.len() - i,
    {
        if !same_device(&a[i], &b[i]) {
            assert(a.deep_view()[i as int] != b.deep_view()[i as int]);
            return false;
        }
        i += 1;
    }
    assert(a.deep_view() =~= b.deep_view());
    true
}

/// Tells whether two messages say the same.
pub fn same_message(a: &DeviceMessage, b: &DeviceMessage) -> (r: bool)
    ensures
        r == (a@ == b@),
{
    match (a, b) {
        (DeviceMessage::RegisteredDevices(x), DeviceMessage::RegisteredDevices(y)) => same_devices(
            x,
            y,
        ),
        (DeviceMessage::Anc(x), DeviceMessage::Anc(y)) => *x == *y,
        (
            DeviceMessage::Equalizer { profile: p, bands: x },
            DeviceMessage::Equalizer { profile: q, bands: y },
        ) => *p == *q && *x == *y,
        (DeviceMessage::Dsee(x), DeviceMessage::Dsee(y)) => *x == *y,
        (DeviceMessage::SpeakToChat(x), DeviceMessage::SpeakToChat(y)) => *x == *y,
        (DeviceMessage::AutoPowerOff(x), DeviceMessage::AutoPowerOff(y)) => *x == *y,
        (DeviceMessage::WearDetection(x), DeviceMessage::WearDetection(y)) => *x == *y,
        (DeviceMessage::Ack(), DeviceMessage::Ack()) => true,
        (DeviceMessage::Unknown(x), DeviceMessage::Unknown(y)) => same_bytes(
            x.as_slice(),
            y.as_slice(),
        ),
        _ => false,
    }
}

} // verus!
