//! What a user can ask for, and the request that each wish amounts to.

use vstd::prelude::*;
use vstd::utf8::encode_utf8;

use crate::common::{Error, ErrorKind};
use crate::devices::session::raw_frame;
use crate::devices::{Anc, Bands, DeviceMessage, MessageView};
use crate::hexcode::{decode_hex, hex_decoded, hex_valid};
use crate::{DataType, FrameView, SonyCommand};

verus! {

/// The command line as a value.
pub struct Cli {
    pub command: Commands,
}

/// The two things the program does.
pub enum Commands {
    /// Change a setting.
    Config(Config),
    /// Send raw bytes.
    Debug(Debug),
}

/// The settings that can be changed.
pub enum Config {
    ANC(AmbientSoundControl),
    Eq(EqualizerControl),
    DSEE(Toggle),
    Stc(Toggle),
    WearDetection(Toggle),
    AutoPowerOff(Toggle),
}

/// Raw bytes to send: the data-type byte, the payload in hexadecimal, and
/// whether to keep listening afterwards.
pub struct Debug {
    pub listen: bool,
    pub data_type: u8,
    pub hex: String,
}

/// The noise-control wish.
#[derive(Clone, Copy, PartialEq, Eq, Structural)]
pub enum AmbientSoundControl {
    Ambient { level: u8, voice: bool },
    NC { wind: bool },
    Off,
}

/// On or off.
#[derive(Clone, Copy, PartialEq, Eq, Structural)]
pub enum Toggle {
    On,
    Off,
}

/// The equalizer preset, as the user names it.
#[derive(Clone, Copy, PartialEq, Eq, Structural)]
pub enum EqualizerProfile {
    Off,
    Custom1,
    Custom2,
}

/// The equalizer wish: a preset alone, or a preset with its six gains.
#[derive(Clone, Copy, PartialEq, Eq, Structural)]
pub enum EqualizerControl {
    Profile { profile: EqualizerProfile },
    SixBand { profile: EqualizerProfile, bass: i8, b400k: i8, b1k: i8, b2k5: i8, b6k3: i8, b16k: i8 },
}

/// What the program is to do on the stream.
pub enum Request {
    /// Apply a setting.
    Apply(DeviceMessage),
    /// Send a frame as it is, and listen afterwards if asked.
    Raw { frame: SonyCommand, listen: bool },
}

/// A request as a mathematical value.
pub enum RequestView {
    Apply(MessageView),
    Raw { frame: FrameView, listen: bool },
}

impl View for Request {
    type V = RequestView;

    open spec fn view(&self) -> RequestView {
        match self {
            Request::Apply(message) => RequestView::Apply(message@),
            Request::Raw { frame, listen } => RequestView::Raw { frame: frame@, listen: *listen },
        }
    }
}

impl Toggle {
    pub open spec fn spec_into(self) -> bool {
        self == Toggle::On
    }

    #[verifier::when_used_as_spec(spec_into)]
    pub fn into(self) -> (on: bool)
        ensures
            on == self.spec_into(),
    {
        match self {
            Toggle::On => true,
            Toggle::Off => false,
        }
    }
}

impl EqualizerProfile {
    pub open spec fn spec_profile(self) -> crate::devices::EqualizerProfile {
        match self {
            EqualizerProfile::Off => crate::devices::EqualizerProfile::Off,
            EqualizerProfile::Custom1 => crate::devices::EqualizerProfile::Custom1,
            EqualizerProfile::Custom2 => crate::devices::EqualizerProfile::Custom2,
        }
    }

    /// The preset of the same name.
    pub fn try_into(self) -> (p: crate::devices::EqualizerProfile)
        ensures
            p == self.spec_profile(),
    {
        match self {
            EqualizerProfile::Off => crate::devices::EqualizerProfile::Off,
            EqualizerProfile::Custom1 => crate::devices::EqualizerProfile::Custom1,
            EqualizerProfile::Custom2 => crate::devices::EqualizerProfile::Custom2,
        }
    }
}

impl EqualizerControl {
    pub open spec fn message(self) -> MessageView {
        match self {
            EqualizerControl::Profile { profile } => MessageView::Equalizer {
                profile: profile.spec_profile(),
                bands: Bands::Zero(),
            },
            EqualizerControl::SixBand { profile, bass, b400k, b1k, b2k5, b6k3, b16k } => {
                MessageView::Equalizer {
                    profile: profile.spec_profile(),
                    bands: Bands::FiveBandsAndBass { bass, b400k, b1k, b2k5, b6k3, b16k },
                }
            },
        }
    }

    /// The equalizer message for the wish. The gains are passed on as they
    /// are: the encoder rejects those out of range.
    pub fn try_into(self) -> (m: DeviceMessage)
        ensures
            m@ == self.message(),
    {
        match self {
            EqualizerControl::Profile { profile } => DeviceMessage::Equalizer {
                profile: profile.try_into(),
                bands: Bands::Zero(),
            },
            EqualizerControl::SixBand { profile, bass, b400k, b1k, b2k5, b6k3, b16k } => {
                DeviceMessage::Equalizer {
                    profile: profile.try_into(),
                    bands: Bands::FiveBandsAndBass { bass, b400k, b1k, b2k5, b6k3, b16k },
                }
            },
        }
    }
}

impl AmbientSoundControl {
    pub open spec fn anc(self) -> Anc {
        match self {
            AmbientSoundControl::Off => Anc::Off,
            AmbientSoundControl::Ambient { level, voice } => Anc::AmbientSound { level, voice },
            AmbientSoundControl::NC { wind } => Anc::NoiseCanceling { wind },
        }
    }
}

impl Config {
    pub open spec fn message(self) -> MessageView {
        match self {
            Config::ANC(anc) => MessageView::Anc(anc.anc()),
            Config::Eq(eq) => eq.message(),
            Config::DSEE(t) => MessageView::Dsee(t.spec_into()),
            Config::Stc(t) => MessageView::SpeakToChat(t.spec_into()),
            Config::AutoPowerOff(t) => MessageView::AutoPowerOff(t.spec_into()),
            Config::WearDetection(t) => MessageView::WearDetection(t.spec_into()),
        }
    }

    /// The message that asks the device for the setting.
    pub fn into_message(self) -> (m: DeviceMessage)
        ensures
            m@ == self.message(),
    {
        match self {
            Config::ANC(anc) => DeviceMessage::Anc(
                match anc {
                    AmbientSoundControl::Off => Anc::Off,
                    AmbientSoundControl::Ambient { level, voice } => Anc::AmbientSound {
                        level,
                        voice,
                    },
                    AmbientSoundControl::NC { wind } => Anc::NoiseCanceling { wind },
                },
            ),
            Config::Eq(eq) => eq.try_into(),
            Config::DSEE(t) => DeviceMessage::Dsee(t.into()),
            Config::Stc(t) => DeviceMessage::SpeakToChat(t.into()),
            Config::AutoPowerOff(t) => DeviceMessage::AutoPowerOff(t.into()),
            Config::WearDetection(t) => DeviceMessage::WearDetection(t.into()),
        }
    }
}

impl Debug {
    /// The frame that the raw bytes make, or why there is none: an unknown
    /// data-type byte is an unsupported data type; text that is not
    /// hexadecimal, or that stands for more than 255 bytes, is an invalid
    /// field value.
    pub open spec fn spec_frame(self) -> Result<FrameView, ErrorKind> {
        let text = encode_utf8(self.hex@);
        match DataType::from_code(self.data_type) {
            None => Err(ErrorKind::UnsupportedDataType { code: self.data_type }),
            Some(data_type) => if !hex_valid(text) || hex_decoded(text).len() > 255 {
                Err(ErrorKind::InvalidFieldValue)
            } else {
                Ok(
                    FrameView {
                        data_type,
                        seq_number: 0,
                        payload_size: hex_decoded(text).len() as u8,
                        payload: hex_decoded(text),
                        checksum: 0,
                    },
                )
            },
        }
    }

    /// Builds the frame to send.
    pub fn frame(&self) -> (r: Result<SonyCommand, Error>)
        ensures
            r matches Ok(f) ==> self.spec_frame() == Ok::<FrameView, ErrorKind>(f@),
            r matches Err(e) ==> self.spec_frame() == Err::<FrameView, ErrorKind>(e.kind),
    {
        let data_type = match DataType::try_from(self.data_type) {
            Ok(d) => d,
            Err(code) => {
                return Err(Error::new(ErrorKind::UnsupportedDataType { code }, "unsupported data type".to_owned()));
            },
        };
        let payload = match decode_hex(self.hex.as_str().as_bytes()) {
            Ok(p) => p,
            Err(_) => {
                return Err(Error::new(ErrorKind::InvalidFieldValue, "payload is not hexadecimal".to_owned()));
            },
        };
        raw_frame(data_type, payload)
    }
}

impl Commands {
    /// What the command asks for on the stream.
    pub open spec fn spec_request(self) -> Result<RequestView, ErrorKind> {
        match self {
            Commands::Config(config) => Ok(RequestView::Apply(config.message())),
            Commands::Debug(debug) => match debug.spec_frame() {
                Ok(frame) => Ok(RequestView::Raw { frame, listen: debug.listen }),
                Err(e) => Err(e),
            },
        }
    }

    /// Turns the command into the request to carry out.
    pub fn request(self) -> (r: Result<Request, Error>)
        ensures
            r matches Ok(q) ==> self.spec_request() == Ok::<RequestView, ErrorKind>(q@),
            r matches Err(e) ==> self.spec_request() == Err::<RequestView, ErrorKind>(e.kind),
    {
        match self {
            Commands::Config(config) => Ok(Request::Apply(config.into_message())),
            Commands::Debug(debug) => match debug.frame() {
                Ok(frame) => Ok(Request::Raw { frame, listen: debug.listen }),
                Err(e) => Err(e),
            },
        }
    }
}

} // verus!
