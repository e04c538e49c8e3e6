//! Wire layout of the noise-control setting.

use vstd::prelude::*;

use crate::common::{Error, ErrorKind};
use crate::devices::Anc;
use crate::devices::wf1000xm4::{byte_flag, flag_byte, CommandTypes, Feature};

verus! {

/// Which of the two noise-control modes is selected.
#[derive(Debug, Clone, Copy, PartialEq, Eq, Structural)]
pub enum AncMode {
    NoiseCanceling,
    AmbientSound,
}

impl AncMode {
    pub open spec fn spec_code(self) -> u8 {
        match self {
            AncMode::NoiseCanceling => 0x00,
            AncMode::AmbientSound => 0x01,
        }
    }

    pub open spec fn from_code(code: u8) -> Option<AncMode> {
        if code == 0x00 {
            Some(AncMode::NoiseCanceling)
        } else if code == 0x01 {
            Some(AncMode::AmbientSound)
        } else {
            None
        }
    }

    #[verifier::when_used_as_spec(spec_code)]
    pub fn code(self) -> (c: u8)
        ensures
            c == self.spec_code(),
    {
        match self {
            AncMode::NoiseCanceling => 0x00,
            AncMode::AmbientSound => 0x01,
        }
    }

    pub fn try_from(code: u8) -> (r: Result<AncMode, u8>)
        ensures
            r == match AncMode::from_code(code) {
                Some(m) => Ok::<AncMode, u8>(m),
                None => Err::<AncMode, u8>(code),
            },
    {
        match code {
            0x00 => Ok(AncMode::NoiseCanceling),
            0x01 => Ok(AncMode::AmbientSound),
            _ => Err(code),
        }
    }
}

/// The wind-noise setting as the device encodes it.
#[derive(Debug, Clone, Copy, PartialEq, Eq, Structural)]
pub enum WindCode {
    NoWind,
    Wind,
    WindVoice,
}

impl WindCode {
    pub open spec fn spec_code(self) -> u8 {
        match self {
            WindCode::NoWind => 0x02,
            WindCode::Wind => 0x03,
            WindCode::WindVoice => 0x05,
        }
    }

    pub open spec fn from_code(code: u8) -> Option<WindCode> {
        if code == 0x02 {
            Some(WindCode::NoWind)
        } else if code == 0x03 {
            Some(WindCode::Wind)
        } else if code == 0x05 {
            Some(WindCode::WindVoice)
        } else {
            None
        }
    }

    #[verifier::when_used_as_spec(spec_code)]
    pub fn code(self) -> (c: u8)
        ensures
            c == self.spec_code(),
    {
        match self {
            WindCode::NoWind => 0x02,
            WindCode::Wind => 0x03,
            WindCode::WindVoice => 0x05,
        }
    }

    pub fn try_from(code: u8) -> (r: Result<WindCode, u8>)
        ensures
            r == match WindCode::from_code(code) {
                Some(w) => Ok::<WindCode, u8>(w),
                None => Err::<WindCode, u8>(code),
            },
    {
        match code {
            0x02 => Ok(WindCode::NoWind),
            0x03 => Ok(WindCode::Wind),
            0x05 => Ok(WindCode::WindVoice),
            _ => Err(code),
        }
    }
}

/// The ambient-sound level, one of twenty steps.
#[derive(Debug, Clone, Copy, PartialEq, Eq, Structural)]
pub enum AsLevel {
    Level1,
    Level2,
    Level3,
    Level4,
    Level5,
    Level6,
    Level7,
    Level8,
    Level9,
    Level10,
    Level11,
    Level12,
    Level13,
    Level14,
    Level15,
    Level16,
    Level17,
    Level18,
    Level19,
    Level20,
}

impl AsLevel {
    /// The level as a number from 1 to 20.
    pub open spec fn spec_value(self) -> u8 {
        match self {
            AsLevel::Level1 => 1,
            AsLevel::Level2 => 2,
            AsLevel::Level3 => 3,
            AsLevel::Level4 => 4,
            AsLevel::Level5 => 5,
            AsLevel::Level6 => 6,
            AsLevel::Level7 => 7,
            AsLevel::Level8 => 8,
            AsLevel::Level9 => 9,
            AsLevel::Level10 => 10,
            AsLevel::Level11 => 11,
            AsLevel::Level12 => 12,
            AsLevel::Level13 => 13,
            AsLevel::Level14 => 14,
            AsLevel::Level15 => 15,
            AsLevel::Level16 => 16,
            AsLevel::Level17 => 17,
            AsLevel::Level18 => 18,
            AsLevel::Level19 => 19,
            AsLevel::Level20 => 20,
        }
    }

    /// The level that a number stands for: defined from 1 to 20.
    pub open spec fn from_value(value: u8) -> Option<AsLevel> {
        if value == 1 {
            Some(AsLevel::Level1)
        } else if value == 2 {
            Some(AsLevel::Level2)
        } else if value == 3 {
            Some(AsLevel::Level3)
        } else if value == 4 {
            Some(AsLevel::Level4)
        } else if value == 5 {
            Some(AsLevel::Level5)
        } else if value == 6 {
            Some(AsLevel::Level6)
        } else if value == 7 {
            Some(AsLevel::Level7)
        } else if value == 8 {
            Some(AsLevel::Level8)
        } else if value == 9 {
            Some(AsLevel::Level9)
        } else if value == 10 {
            Some(AsLevel::Level10)
        } else if value == 11 {
            Some(AsLevel::Level11)
        } else if value == 12 {
            Some(AsLevel::Level12)
        } else if value == 13 {
            Some(AsLevel::Level13)
        } else if value == 14 {
            Some(AsLevel::Level14)
        } else if value == 15 {
            Some(AsLevel::Level15)
        } else if value == 16 {
            Some(AsLevel::Level16)
        } else if value == 17 {
            Some(AsLevel::Level17)
        } else if value == 18 {
            Some(AsLevel::Level18)
        } else if value == 19 {
            Some(AsLevel::Level19)
        } else if value == 20 {
            Some(AsLevel::Level20)
        } else {
            None
        }
    }

    #[verifier::when_used_as_spec(spec_value)]
    pub fn value(self) -> (v: u8)
        ensures
            v == self.spec_value(),
            1 <= v <= 20,
    {
        match self {
            AsLevel::Level1 => 1,
            AsLevel::Level2 => 2,
            AsLevel::Level3 => 3,
            AsLevel::Level4 => 4,
            AsLevel::Level5 => 5,
            AsLevel::Level6 => 6,
            AsLevel::Level7 => 7,
            AsLevel::Level8 => 8,
            AsLevel::Level9 => 9,
            AsLevel::Level10 => 10,
            AsLevel::Level11 => 11,
            AsLevel::Level12 => 12,
            AsLevel::Level13 => 13,
            AsLevel::Level14 => 14,
            AsLevel::Level15 => 15,
            AsLevel::Level16 => 16,
            AsLevel::Level17 => 17,
            AsLevel::Level18 => 18,
            AsLevel::Level19 => 19,
            AsLevel::Level20 => 20,
        }
    }

    pub fn try_from(value: u8) -> (r: Result<AsLevel, u8>)
        ensures
            r == match AsLevel::from_value(value) {
                Some(l) => Ok::<AsLevel, u8>(l),
                None => Err::<AsLevel, u8>(value),
            },
            r is Ok <==> 1 <= value <= 20,
    {
        match value {
            1 => Ok(AsLevel::Level1),
            2 => Ok(AsLevel::Level2),
            3 => Ok(AsLevel::Level3),
            4 => Ok(AsLevel::Level4),
            5 => Ok(AsLevel::Level5),
            6 => Ok(AsLevel::Level6),
            7 => Ok(AsLevel::Level7),
            8 => Ok(AsLevel::Level8),
            9 => Ok(AsLevel::Level9),
            10 => Ok(AsLevel::Level10),
            11 => Ok(AsLevel::Level11),
            12 => Ok(AsLevel::Level12),
            13 => Ok(AsLevel::Level13),
            14 => Ok(AsLevel::Level14),
            15 => Ok(AsLevel::Level15),
            16 => Ok(AsLevel::Level16),
            17 => Ok(AsLevel::Level17),
            18 => Ok(AsLevel::Level18),
            19 => Ok(AsLevel::Level19),
            20 => Ok(AsLevel::Level20),
            _ => Err(value),
        }
    }

    /// A level read back from its own number is the same level, and a
    /// number that reads as a level is that level's number.
    pub proof fn value_round_trip(level: AsLevel, value: u8)
        ensures
            AsLevel::from_value(level.spec_value()) == Some(level),
            AsLevel::from_value(value) == Some(level) ==> level.spec_value() == value,
            AsLevel::from_value(value) is Some <==> 1 <= value <= 20,
    {
    }
}

/// The noise-control message as it travels: eight bytes.
#[derive(Debug, Clone, Copy, PartialEq, Eq, Structural)]
pub struct AncWF1000XM4 {
    pub command: CommandTypes,
    pub continuous: bool,
    pub anc_enable: bool,
    pub anc_mode: AncMode,
    pub nc_wind: WindCode,
    pub as_voice: bool,
    pub as_level: AsLevel,
}

impl AncWF1000XM4 {
    /// The eight bytes of the message: code, negated continuous flag,
    /// enable flag, mode, wind code, voice flag, level.
    pub open spec fn bytes(self) -> Seq<u8> {
        seq![
            (self.command.spec_code() / 256) as u8,
            (self.command.spec_code() % 256) as u8,
            flag_byte(!self.continuous),
            flag_byte(self.anc_enable),
            self.anc_mode.spec_code(),
            self.nc_wind.spec_code(),
            flag_byte(self.as_voice),
            self.as_level.spec_value(),
        ]
    }

    /// What eight bytes say, or why they say nothing: a wrong length is a
    /// malformed payload, a message code that is not one of this feature is
    /// unsupported, and a mode, wind code or level outside its set is an
    /// invalid field.
    pub open spec fn parse(b: Seq<u8>) -> Result<AncWF1000XM4, ErrorKind> {
        let message_code = (b[0] as int * 256 + b[1] as int) as u16;
        if b.len() != 8 {
            Err(ErrorKind::MalformedFrame)
        } else if !CommandTypes::names(message_code, Feature::Anc) {
            Err(ErrorKind::UnsupportedMessageCode { message_code })
        } else if AncMode::from_code(b[4]) is None || WindCode::from_code(b[5]) is None
            || AsLevel::from_value(b[7]) is None {
            Err(ErrorKind::InvalidFieldValue)
        } else {
            Ok(
                AncWF1000XM4 {
                    command: CommandTypes::from_code(message_code)->0,
                    continuous: !byte_flag(b[2]),
                    anc_enable: byte_flag(b[3]),
                    anc_mode: AncMode::from_code(b[4])->0,
                    nc_wind: WindCode::from_code(b[5])->0,
                    as_voice: byte_flag(b[6]),
                    as_level: AsLevel::from_value(b[7])->0,
                },
            )
        }
    }

    /// The wire form of a noise-control setting; defined when an ambient
    /// level is between 1 and 20.
    pub open spec fn of_anc(anc: Anc) -> Option<AncWF1000XM4> {
        match anc {
            Anc::Off => Some(
                AncWF1000XM4 {
                    command: CommandTypes::AncSet,
                    continuous: false,
                    anc_enable: false,
                    anc_mode: AncMode::NoiseCanceling,
                    nc_wind: WindCode::NoWind,
                    as_voice: false,
                    as_level: AsLevel::Level1,
                },
            ),
            Anc::NoiseCanceling { wind } => Some(
                AncWF1000XM4 {
                    command: CommandTypes::AncSet,
                    continuous: false,
                    anc_enable: true,
                    anc_mode: AncMode::NoiseCanceling,
                    nc_wind: if wind {
                        WindCode::Wind
                    } else {
                        WindCode::NoWind
                    },
                    as_voice: false,
                    as_level: AsLevel::Level1,
                },
            ),
            Anc::AmbientSound { level, voice } => match AsLevel::from_value(level) {
                Some(as_level) => Some(
                    AncWF1000XM4 {
                        command: CommandTypes::AncSet,
                        continuous: false,
                        anc_enable: true,
                        anc_mode: AncMode::AmbientSound,
                        nc_wind: WindCode::NoWind,
                        as_voice: voice,
                        as_level,
                    },
                ),
                None => None,
            },
        }
    }

    /// The setting that a wire message describes.
    pub open spec fn anc(self) -> Anc {
        if !self.anc_enable {
            Anc::Off
        } else {
            match self.anc_mode {
                AncMode::NoiseCanceling => Anc::NoiseCanceling {
                    wind: self.nc_wind == WindCode::Wind || self.nc_wind == WindCode::WindVoice,
                },
                AncMode::AmbientSound => Anc::AmbientSound {
                    level: self.as_level.spec_value(),
                    voice: self.as_voice,
                },
            }
        }
    }

    /// Builds the wire message for a setting. Fails, with an invalid field
    /// value, exactly when an ambient level is outside 1 to 20.
    pub fn try_from(value: Anc) -> (r: Result<AncWF1000XM4, Error>)
        ensures
            r matches Ok(c) ==> AncWF1000XM4::of_anc(value) == Some(c),
            r matches Err(e) ==> AncWF1000XM4::of_anc(value) is None && e.kind
                == ErrorKind::InvalidFieldValue,
    {
        match value {
            Anc::Off => Ok(
                AncWF1000XM4 {
                    command: CommandTypes::AncSet,
                    continuous: false,
                    anc_enable: false,
                    anc_mode: AncMode::NoiseCanceling,
                    nc_wind: WindCode::NoWind,
                    as_voice: false,
                    as_level: AsLevel::Level1,
                },
            ),
            Anc::NoiseCanceling { wind } => Ok(
                AncWF1000XM4 {
                    command: CommandTypes::AncSet,
                    continuous: false,
                    anc_enable: true,
                    anc_mode: AncMode::NoiseCanceling,
                    nc_wind: if wind {
                        WindCode::Wind
                    } else {
                        WindCode::NoWind
                    },
                    as_voice: false,
                    as_level: AsLevel::Level1,
                },
            ),
            Anc::AmbientSound { level, voice } => match AsLevel::try_from(level) {
                Ok(as_level) => Ok(
                    AncWF1000XM4 {
                        command: CommandTypes::AncSet,
                        continuous: false,
                        anc_enable: true,
                        anc_mode: AncMode::AmbientSound,
                        nc_wind: WindCode::NoWind,
                        as_voice: voice,
                        as_level,
                    },
                ),
                Err(_) => Err(
                    Error::new(ErrorKind::InvalidFieldValue, "ambient level outside 1 to 20".to_owned()),
                ),
            },
        }
    }

    /// Reads the setting out of a wire message.
    pub fn try_into(self) -> (anc: Anc)
        ensures
            anc == self.anc(),
    {
        if !self.anc_enable {
            Anc::Off
        } else {
            match self.anc_mode {
                AncMode::NoiseCanceling => Anc::NoiseCanceling {
                    wind: match self.nc_wind {
                        WindCode::NoWind => false,
                        WindCode::Wind => true,
                        WindCode::WindVoice => true,
                    },
                },
                AncMode::AmbientSound => Anc::AmbientSound {
                    level: self.as_level.value(),
                    voice: self.as_voice,
                },
            }
        }
    }

    /// Serializes the message.
    pub fn to_bytes(&self) -> (out: Vec<u8>)
        ensures
            out@ == self.bytes(),
    {
        let code: u16 = self.command.code();
        let mut out: Vec<u8> = Vec::new();
        out.push((code / 256) as u8);
        out.push((code % 256) as u8);
        out.push(if self.continuous { 0 } else { 1 });
        out.push(if self.anc_enable { 1 } else { 0 });
        out.push(self.anc_mode.code());
        out.push(self.nc_wind.code());
        out.push(if self.as_voice { 1 } else { 0 });
        out.push(self.as_level.value());
        assert(out@ =~= self.bytes());
        out
    }

    /// Parses a payload of this message.
    pub fn from_bytes(value: &[u8]) -> (r: Result<AncWF1000XM4, Error>)
        ensures
            r matches Ok(c) ==> AncWF1000XM4::parse(value@) == Ok::<AncWF1000XM4, ErrorKind>(c),
            r matches Err(e) ==> AncWF1000XM4::parse(value@) == Err::<AncWF1000XM4, ErrorKind>(
                e.kind,
            ),
    {
        if value.len() != 8 {
            return Err(Error::new(ErrorKind::MalformedFrame, "noise-control payload is not 8 bytes".to_owned()));
        }
        let message_code: u16 = value[0] as u16 * 256 + value[1] as u16;
        let command = match CommandTypes::try_from_feature(message_code, Feature::Anc) {
            Ok(c) => c,
            Err(e) => {
                return Err(e);
            },
        };
        let anc_mode = match AncMode::try_from(value[4]) {
            Ok(m) => m,
            Err(_) => {
                return Err(Error::new(ErrorKind::InvalidFieldValue, "unknown noise-control mode".to_owned()));
            },
        };
        let nc_wind = match WindCode::try_from(value[5]) {
            Ok(w) => w,
            Err(_) => {
                return Err(Error::new(ErrorKind::InvalidFieldValue, "unknown wind code".to_owned()));
            },
        };
        let as_level = match AsLevel::try_from(value[7]) {
            Ok(l) => l,
            Err(_) => {
                return Err(Error::new(ErrorKind::InvalidFieldValue, "ambient level outside 1 to 20".to_owned()));
            },
        };
        Ok(
            AncWF1000XM4 {
                command,
                continuous: value[2] == 0,
                anc_enable: value[3] != 0,
                anc_mode,
                nc_wind,
                as_voice: value[6] != 0,
                as_level,
            },
        )
    }

    /// Parsing the bytes of a message gives the message back.
    pub proof fn lemma_round_trip(c: AncWF1000XM4)
        requires
            c.command.feature() == Feature::Anc,
        ensures
            AncWF1000XM4::parse(c.bytes()) == Ok::<AncWF1000XM4, ErrorKind>(c),
    {
        CommandTypes::code_round_trip(c.command, 0);
    }

    /// A setting that has a wire form is read back from it unchanged.
    pub proof fn lemma_anc_round_trip(anc: Anc)
        requires
            AncWF1000XM4::of_anc(anc) is Some,
        ensures
            AncWF1000XM4::of_anc(anc)->0.anc() == anc,
    {
    }
}

} // verus!
