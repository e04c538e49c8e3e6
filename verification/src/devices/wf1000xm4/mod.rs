//! Wire layouts of the settings of the WF-1000XM4, and the codec between
//! settings and frames.

use vstd::prelude::*;

use crate::commands::mdr::{Mdr, MdrView};
use crate::commands::mdr2::registered_devices::RegisteredDevices;
use crate::commands::mdr2::{Mdr2, Mdr2View};
use crate::commands::{lemma_route_round_trip, DataType, DataTypeView};
use crate::common::{Error, ErrorKind};
use crate::devices::{Anc, Bands, DeviceMessage, Equalizer, MessageView};
use crate::{frame_bytes, lemma_frame_round_trip, parse_frame, FrameView, SonyCommand};

use self::anc::AncWF1000XM4;
use self::equalizer::{lemma_setting_round_trip, EqualizerCommand, EqualizerCommandView};

pub mod anc;
pub mod equalizer;

verus! {

/// The features that have a message code.
#[derive(Debug, Clone, Copy, PartialEq, Eq, Structural)]
pub enum Feature {
    Anc,
    Equalizer,
    Dsee,
    SpeakToChat,
    AutoPowerOff,
    WearDetection,
}

/// The message codes: for each feature one that sets it and one that
/// acknowledges it.
#[derive(Debug, Clone, Copy, PartialEq, Eq, Structural)]
pub enum CommandTypes {
    AncSet,
    AncAck,
    EqSet,
    EqAck,
    DseeSet,
    DseeAck,
    StcSet,
    StcAck,
    ApoSet,
    ApoAck,
    WearSet,
    WearAck,
}

/// A flag as one byte.
pub open spec fn flag_byte(flag: bool) -> u8 {
    if flag {
        1
    } else {
        0
    }
}

/// The flag that a byte stands for: set unless the byte is zero.
pub open spec fn byte_flag(byte: u8) -> bool {
    byte != 0
}

impl CommandTypes {
    /// The two-byte code, sent most significant byte first.
    pub open spec fn spec_code(self) -> u16 {
        match self {
            CommandTypes::AncSet => 0x6815,
            CommandTypes::AncAck => 0x6915,
            CommandTypes::EqSet => 0x5800,
            CommandTypes::EqAck => 0x5900,
            CommandTypes::DseeSet => 0xe801,
            CommandTypes::DseeAck => 0xe901,
            CommandTypes::StcSet => 0xf802,
            CommandTypes::StcAck => 0xf902,
            CommandTypes::ApoSet => 0x2805,
            CommandTypes::ApoAck => 0x2905,
            CommandTypes::WearSet => 0xf801,
            CommandTypes::WearAck => 0xf901,
        }
    }

    /// The message code that a number stands for, if any.
    pub open spec fn from_code(code: u16) -> Option<CommandTypes> {
        if code == 0x6815 {
            Some(CommandTypes::AncSet)
        } else if code == 0x6915 {
            Some(CommandTypes::AncAck)
        } else if code == 0x5800 {
            Some(CommandTypes::EqSet)
        } else if code == 0x5900 {
            Some(CommandTypes::EqAck)
        } else if code == 0xe801 {
            Some(CommandTypes::DseeSet)
        } else if code == 0xe901 {
            Some(CommandTypes::DseeAck)
        } else if code == 0xf802 {
            Some(CommandTypes::StcSet)
        } else if code == 0xf902 {
            Some(CommandTypes::StcAck)
        } else if code == 0x2805 {
            Some(CommandTypes::ApoSet)
        } else if code == 0x2905 {
            Some(CommandTypes::ApoAck)
        } else if code == 0xf801 {
            Some(CommandTypes::WearSet)
        } else if code == 0xf901 {
            Some(CommandTypes::WearAck)
        } else {
            None
        }
    }

    /// The feature that the code belongs to.
    pub open spec fn spec_feature(self) -> Feature {
        match self {
            CommandTypes::AncSet => Feature::Anc,
            CommandTypes::AncAck => Feature::Anc,
            CommandTypes::EqSet => Feature::Equalizer,
            CommandTypes::EqAck => Feature::Equalizer,
            CommandTypes::DseeSet => Feature::Dsee,
            CommandTypes::DseeAck => Feature::Dsee,
            CommandTypes::StcSet => Feature::SpeakToChat,
            CommandTypes::StcAck => Feature::SpeakToChat,
            CommandTypes::ApoSet => Feature::AutoPowerOff,
            CommandTypes::ApoAck => Feature::AutoPowerOff,
            CommandTypes::WearSet => Feature::WearDetection,
            CommandTypes::WearAck => Feature::WearDetection,
        }
    }

    /// The code acknowledges a setting, rather than requesting it.
    pub open spec fn spec_is_ack(self) -> bool {
        match self {
            CommandTypes::AncSet => false,
            CommandTypes::AncAck => true,
            CommandTypes::EqSet => false,
            CommandTypes::EqAck => true,
            CommandTypes::DseeSet => false,
            CommandTypes::DseeAck => true,
            CommandTypes::StcSet => false,
            CommandTypes::StcAck => true,
            CommandTypes::ApoSet => false,
            CommandTypes::ApoAck => true,
            CommandTypes::WearSet => false,
            CommandTypes::WearAck => true,
        }
    }

    /// `code` is a message code of `feature`.
    pub open spec fn names(code: u16, feature: Feature) -> bool {
        match CommandTypes::from_code(code) {
            Some(c) => c.spec_feature() == feature,
            None => false,
        }
    }

    #[verifier::when_used_as_spec(spec_code)]
    pub fn code(self) -> (c: u16)
        ensures
            c == self.spec_code(),
    {
        match self {
            CommandTypes::AncSet => 0x6815,
            CommandTypes::AncAck => 0x6915,
            CommandTypes::EqSet => 0x5800,
            CommandTypes::EqAck => 0x5900,
            CommandTypes::DseeSet => 0xe801,
            CommandTypes::DseeAck => 0xe901,
            CommandTypes::StcSet => 0xf802,
            CommandTypes::StcAck => 0xf902,
            CommandTypes::ApoSet => 0x2805,
            CommandTypes::ApoAck => 0x2905,
            CommandTypes::WearSet => 0xf801,
            CommandTypes::WearAck => 0xf901,
        }
    }

    #[verifier::when_used_as_spec(spec_feature)]
    pub fn feature(self) -> (f: Feature)
        ensures
            f == self.spec_feature(),
    {
        match self {
            CommandTypes::AncSet => Feature::Anc,
            CommandTypes::AncAck => Feature::Anc,
            CommandTypes::EqSet => Feature::Equalizer,
            CommandTypes::EqAck => Feature::Equalizer,
            CommandTypes::DseeSet => Feature::Dsee,
            CommandTypes::DseeAck => Feature::Dsee,
            CommandTypes::StcSet => Feature::SpeakToChat,
            CommandTypes::StcAck => Feature::SpeakToChat,
            CommandTypes::ApoSet => Feature::AutoPowerOff,
            CommandTypes::ApoAck => Feature::AutoPowerOff,
            CommandTypes::WearSet => Feature::WearDetection,
            CommandTypes::WearAck => Feature::WearDetection,
        }
    }

    #[verifier::when_used_as_spec(spec_is_ack)]
    pub fn is_ack(self) -> (b: bool)
        ensures
            b == self.spec_is_ack(),
    {
        match self {
            CommandTypes::AncSet => false,
            CommandTypes::AncAck => true,
            CommandTypes::EqSet => false,
            CommandTypes::EqAck => true,
            CommandTypes::DseeSet => false,
            CommandTypes::DseeAck => true,
            CommandTypes::StcSet => false,
            CommandTypes::StcAck => true,
            CommandTypes::ApoSet => false,
            CommandTypes::ApoAck => true,
            CommandTypes::WearSet => false,
            CommandTypes::WearAck => true,
        }
    }

    /// Reads a message code; an unknown number comes back as the error.
    pub fn try_from(code: u16) -> (r: Result<CommandTypes, u16>)
        ensures
            r == match CommandTypes::from_code(code) {
                Some(c) => Ok::<CommandTypes, u16>(c),
                None => Err::<CommandTypes, u16>(code),
            },
    {
        match code {
            0x6815 => Ok(CommandTypes::AncSet),
            0x6915 => Ok(CommandTypes::AncAck),
            0x5800 => Ok(CommandTypes::EqSet),
            0x5900 => Ok(CommandTypes::EqAck),
            0xe801 => Ok(CommandTypes::DseeSet),
            0xe901 => Ok(CommandTypes::DseeAck),
            0xf802 => Ok(CommandTypes::StcSet),
            0xf902 => Ok(CommandTypes::StcAck),
            0x2805 => Ok(CommandTypes::ApoSet),
            0x2905 => Ok(CommandTypes::ApoAck),
            0xf801 => Ok(CommandTypes::WearSet),
            0xf901 => Ok(CommandTypes::WearAck),
            _ => Err(code),
        }
    }

    /// Reads a message code of one feature. A number that is no code of
    /// that feature is an unsupported message code.
    pub fn try_from_feature(code: u16, feature: Feature) -> (r: Result<CommandTypes, Error>)
        ensures
            r is Ok <==> CommandTypes::names(code, feature),
            r matches Ok(c) ==> CommandTypes::from_code(code) == Some(c),
            r matches Err(e) ==> e.kind == (ErrorKind::UnsupportedMessageCode { message_code: code }),
    {
        match CommandTypes::try_from(code) {
            Ok(c) => {
                if c.feature() == feature {
                    Ok(c)
                } else {
                    Err(
                        Error::new(
                            ErrorKind::UnsupportedMessageCode { message_code: code },
                            "message code of another feature".to_owned(),
                        ),
                    )
                }
            },
            Err(_) => Err(
                Error::new(
                    ErrorKind::UnsupportedMessageCode { message_code: code },
                    "unsupported message code".to_owned(),
                ),
            ),
        }
    }

    /// A message code read back from its own number is the same code, a
    /// number that reads as a code is that code's number, and splitting a
    /// code into its two bytes and joining them gives the code.
    pub proof fn code_round_trip(c: CommandTypes, code: u16)
        ensures
            CommandTypes::from_code(c.spec_code()) == Some(c),
            CommandTypes::from_code(code) == Some(c) ==> c.spec_code() == code,
            ((c.spec_code() / 256) as u8 as int * 256 + (c.spec_code() % 256) as u8 as int) as u16
                == c.spec_code(),
    {
    }
}

/// Audio enhancement on or off: the flag is the setting.
#[derive(Debug, Clone, Copy, PartialEq, Eq, Structural)]
pub struct DseeCommand {
    pub command: CommandTypes,
    pub enable: bool,
}

impl DseeCommand {
    /// The message that sets the feature.
    pub fn new(enable: bool) -> (c: DseeCommand)
        ensures
            c == (DseeCommand { command: CommandTypes::DseeSet, enable }),
    {
        DseeCommand { command: CommandTypes::DseeSet, enable }
    }

    /// Message code, then the flag.
    pub open spec fn bytes(self) -> Seq<u8> {
        seq![
            (self.command.spec_code() / 256) as u8,
            (self.command.spec_code() % 256) as u8,
            flag_byte(self.enable),
        ]
    }

    /// What a payload says: it needs the message code and the flag byte;
    /// whatever follows the flag is not looked at.
    pub open spec fn parse(b: Seq<u8>) -> Result<DseeCommand, ErrorKind> {
        let message_code = (b[0] as int * 256 + b[1] as int) as u16;
        if b.len() < 3 {
            Err(ErrorKind::MalformedFrame)
        } else if !CommandTypes::names(message_code, Feature::Dsee) {
            Err(ErrorKind::UnsupportedMessageCode { message_code })
        } else {
            Ok(DseeCommand { command: CommandTypes::from_code(message_code)->0, enable: byte_flag(b[2]) })
        }
    }

    /// Serializes the message.
    pub fn to_bytes(&self) -> (out: Vec<u8>)
        ensures
            out@ == self.bytes(),
    {
        let code: u16 = self.command.code();
        let mut out: Vec<u8> = Vec::new();
        out.push((code / 256) as u8);
        out.push((code % 256) as u8);
        out.push(if self.enable { 1 } else { 0 });
        assert(out@ =~= self.bytes());
        out
    }

    /// Parses a payload of this message.
    pub fn from_bytes(value: &[u8]) -> (r: Result<DseeCommand, Error>)
        ensures
            r matches Ok(c) ==> DseeCommand::parse(value@) == Ok::<DseeCommand, ErrorKind>(c),
            r matches Err(e) ==> DseeCommand::parse(value@) == Err::<DseeCommand, ErrorKind>(e.kind),
    {
        if value.len() < 3 {
            return Err(Error::new(ErrorKind::MalformedFrame, "payload shorter than 3 bytes".to_owned()));
        }
        let message_code: u16 = value[0] as u16 * 256 + value[1] as u16;
        match CommandTypes::try_from_feature(message_code, Feature::Dsee) {
            Ok(command) => Ok(DseeCommand { command, enable: value[2] != 0 }),
            Err(e) => Err(e),
        }
    }

    /// Parsing the bytes of a message gives the message back.
    pub proof fn lemma_round_trip(c: DseeCommand)
        requires
            c.command.feature() == Feature::Dsee,
        ensures
            DseeCommand::parse(c.bytes()) == Ok::<DseeCommand, ErrorKind>(c),
    {
        CommandTypes::code_round_trip(c.command, 0);
    }
}

/// Speak-to-chat on or off: the flag is the negated setting, and a reserved byte follows.
#[derive(Debug, Clone, Copy, PartialEq, Eq, Structural)]
pub struct StcCommand {
    pub command: CommandTypes,
    pub enable: bool,
}

impl StcCommand {
    /// The message that sets the feature.
    pub fn new(enable: bool) -> (c: StcCommand)
        ensures
            c == (StcCommand { command: CommandTypes::StcSet, enable }),
    {
        StcCommand { command: CommandTypes::StcSet, enable }
    }

    /// Message code, the negated flag, and the reserved byte 0x01.
    pub open spec fn bytes(self) -> Seq<u8> {
        seq![
            (self.command.spec_code() / 256) as u8,
            (self.command.spec_code() % 256) as u8,
            flag_byte(!self.enable),
            0x01u8,
        ]
    }

    /// What a payload says: it needs the message code and the flag byte;
    /// whatever follows the flag is not looked at.
    pub open spec fn parse(b: Seq<u8>) -> Result<StcCommand, ErrorKind> {
        let message_code = (b[0] as int * 256 + b[1] as int) as u16;
        if b.len() < 3 {
            Err(ErrorKind::MalformedFrame)
        } else if !CommandTypes::names(message_code, Feature::SpeakToChat) {
            Err(ErrorKind::UnsupportedMessageCode { message_code })
        } else {
            Ok(StcCommand { command: CommandTypes::from_code(message_code)->0, enable: !byte_flag(b[2]) })
        }
    }

    /// Serializes the message.
    pub fn to_bytes(&self) -> (out: Vec<u8>)
        ensures
            out@ == self.bytes(),
    {
        let code: u16 = self.command.code();
        let mut out: Vec<u8> = Vec::new();
        out.push((code / 256) as u8);
        out.push((code % 256) as u8);
        out.push(if !self.enable { 1 } else { 0 });
        out.push(0x01u8);
        assert(out@ =~= self.bytes());
        out
    }

    /// Parses a payload of this message.
    pub fn from_bytes(value: &[u8]) -> (r: Result<StcCommand, Error>)
        ensures
            r matches Ok(c) ==> StcCommand::parse(value@) == Ok::<StcCommand, ErrorKind>(c),
            r matches Err(e) ==> StcCommand::parse(value@) == Err::<StcCommand, ErrorKind>(e.kind),
    {
        if value.len() < 3 {
            return Err(Error::new(ErrorKind::MalformedFrame, "payload shorter than 3 bytes".to_owned()));
        }
        let message_code: u16 = value[0] as u16 * 256 + value[1] as u16;
        match CommandTypes::try_from_feature(message_code, Feature::SpeakToChat) {
            Ok(command) => Ok(StcCommand { command, enable: value[2] == 0 }),
            Err(e) => Err(e),
        }
    }

    /// Parsing the bytes of a message gives the message back.
    pub proof fn lemma_round_trip(c: StcCommand)
        requires
            c.command.feature() == Feature::SpeakToChat,
        ensures
            StcCommand::parse(c.bytes()) == Ok::<StcCommand, ErrorKind>(c),
    {
        CommandTypes::code_round_trip(c.command, 0);
    }
}

/// Wear detection on or off: the flag is the setting.
#[derive(Debug, Clone, Copy, PartialEq, Eq, Structural)]
pub struct PauseRemovedCommand {
    pub command: CommandTypes,
    pub enable: bool,
}

impl PauseRemovedCommand {
    /// The message that sets the feature.
    pub fn new(enable: bool) -> (c: PauseRemovedCommand)
        ensures
            c == (PauseRemovedCommand { command: CommandTypes::WearSet, enable }),
    {
        PauseRemovedCommand { command: CommandTypes::WearSet, enable }
    }

    /// Message code, then the flag.
    pub open spec fn bytes(self) -> Seq<u8> {
        seq![
            (self.command.spec_code() / 256) as u8,
            (self.command.spec_code() % 256) as u8,
            flag_byte(self.enable),
        ]
    }

    /// What a payload says: it needs the message code and the flag byte;
    /// whatever follows the flag is not looked at.
    pub open spec fn parse(b: Seq<u8>) -> Result<PauseRemovedCommand, ErrorKind> {
        let message_code = (b[0] as int * 256 + b[1] as int) as u16;
        if b.len() < 3 {
            Err(ErrorKind::MalformedFrame)
        } else if !CommandTypes::names(message_code, Feature::WearDetection) {
            Err(ErrorKind::UnsupportedMessageCode { message_code })
        } else {
            Ok(PauseRemovedCommand { command: CommandTypes::from_code(message_code)->0, enable: byte_flag(b[2]) })
        }
    }

    /// Serializes the message.
    pub fn to_bytes(&self) -> (out: Vec<u8>)
        ensures
            out@ == self.bytes(),
    {
        let code: u16 = self.command.code();
        let mut out: Vec<u8> = Vec::new();
        out.push((code / 256) as u8);
        out.push((code % 256) as u8);
        out.push(if self.enable { 1 } else { 0 });
        assert(out@ =~= self.bytes());
        out
    }

    /// Parses a payload of this message.
    pub fn from_bytes(value: &[u8]) -> (r: Result<PauseRemovedCommand, Error>)
        ensures
            r matches Ok(c) ==> PauseRemovedCommand::parse(value@) == Ok::<PauseRemovedCommand, ErrorKind>(c),
            r matches Err(e) ==> PauseRemovedCommand::parse(value@) == Err::<PauseRemovedCommand, ErrorKind>(e.kind),
    {
        if value.len() < 3 {
            return Err(Error::new(ErrorKind::MalformedFrame, "payload shorter than 3 bytes".to_owned()));
        }
        let message_code: u16 = value[0] as u16 * 256 + value[1] as u16;
        match CommandTypes::try_from_feature(message_code, Feature::WearDetection) {
            Ok(command) => Ok(PauseRemovedCommand { command, enable: value[2] != 0 }),
            Err(e) => Err(e),
        }
    }

    /// Parsing the bytes of a message gives the message back.
    pub proof fn lemma_round_trip(c: PauseRemovedCommand)
        requires
            c.command.feature() == Feature::WearDetection,
        ensures
            PauseRemovedCommand::parse(c.bytes()) == Ok::<PauseRemovedCommand, ErrorKind>(c),
    {
        CommandTypes::code_round_trip(c.command, 0);
    }
}

/// The two values of the auto-power-off field.
#[derive(Debug, Clone, Copy, PartialEq, Eq, Structural)]
pub enum ApoEnable {
    Off,
    On,
}

impl ApoEnable {
    pub open spec fn spec_code(self) -> u8 {
        match self {
            ApoEnable::Off => 0x11,
            ApoEnable::On => 0x10,
        }
    }

    pub open spec fn from_code(code: u8) -> Option<ApoEnable> {
        if code == 0x11 {
            Some(ApoEnable::Off)
        } else if code == 0x10 {
            Some(ApoEnable::On)
        } else {
            None
        }
    }

    #[verifier::when_used_as_spec(spec_code)]
    pub fn code(self) -> (c: u8)
        ensures
            c == self.spec_code(),
    {
        match self {
            ApoEnable::Off => 0x11,
            ApoEnable::On => 0x10,
        }
    }

    pub fn try_from(code: u8) -> (r: Result<ApoEnable, u8>)
        ensures
            r == match ApoEnable::from_code(code) {
                Some(a) => Ok::<ApoEnable, u8>(a),
                None => Err::<ApoEnable, u8>(code),
            },
    {
        match code {
            0x11 => Ok(ApoEnable::Off),
            0x10 => Ok(ApoEnable::On),
            _ => Err(code),
        }
    }
}

/// Auto power-off on or off: an enumerated field, and a reserved byte.
#[derive(Debug, Clone, Copy, PartialEq, Eq, Structural)]
pub struct AutoPowerOffCommand {
    pub command: CommandTypes,
    pub enable: ApoEnable,
}

impl AutoPowerOffCommand {
    /// The message that sets the feature.
    pub fn new(enable: bool) -> (c: AutoPowerOffCommand)
        ensures
            c.command == CommandTypes::ApoSet,
            c.enable == if enable {
                ApoEnable::On
            } else {
                ApoEnable::Off
            },
    {
        AutoPowerOffCommand {
            command: CommandTypes::ApoSet,
            enable: if enable {
                ApoEnable::On
            } else {
                ApoEnable::Off
            },
        }
    }

    /// Message code, the field, and the reserved byte 0x00.
    pub open spec fn bytes(self) -> Seq<u8> {
        seq![
            (self.command.spec_code() / 256) as u8,
            (self.command.spec_code() % 256) as u8,
            self.enable.spec_code(),
            0x00u8,
        ]
    }

    /// What a payload says: it needs the message code and the field;
    /// whatever follows the field is not looked at. A field that is
    /// neither of the two values is an invalid field value.
    pub open spec fn parse(b: Seq<u8>) -> Result<AutoPowerOffCommand, ErrorKind> {
        let message_code = (b[0] as int * 256 + b[1] as int) as u16;
        if b.len() < 3 {
            Err(ErrorKind::MalformedFrame)
        } else if !CommandTypes::names(message_code, Feature::AutoPowerOff) {
            Err(ErrorKind::UnsupportedMessageCode { message_code })
        } else if ApoEnable::from_code(b[2]) is None {
            Err(ErrorKind::InvalidFieldValue)
        } else {
            Ok(
                AutoPowerOffCommand {
                    command: CommandTypes::from_code(message_code)->0,
                    enable: ApoEnable::from_code(b[2])->0,
                },
            )
        }
    }

    /// Serializes the message.
    pub fn to_bytes(&self) -> (out: Vec<u8>)
        ensures
            out@ == self.bytes(),
    {
        let code: u16 = self.command.code();
        let mut out: Vec<u8> = Vec::new();
        out.push((code / 256) as u8);
        out.push((code % 256) as u8);
        out.push(self.enable.code());
        out.push(0x00u8);
        assert(out@ =~= self.bytes());
        out
    }

    /// Parses a payload of this message.
    pub fn from_bytes(value: &[u8]) -> (r: Result<AutoPowerOffCommand, Error>)
        ensures
            r matches Ok(c) ==> AutoPowerOffCommand::parse(value@) == Ok::<
                AutoPowerOffCommand,
                ErrorKind,
            >(c),
            r matches Err(e) ==> AutoPowerOffCommand::parse(value@) == Err::<
                AutoPowerOffCommand,
                ErrorKind,
            >(e.kind),
    {
        if value.len() < 3 {
            return Err(Error::new(ErrorKind::MalformedFrame, "payload shorter than 3 bytes".to_owned()));
        }
        let message_code: u16 = value[0] as u16 * 256 + value[1] as u16;
        let command = match CommandTypes::try_from_feature(message_code, Feature::AutoPowerOff) {
            Ok(c) => c,
            Err(e) => {
                return Err(e);
            },
        };
        match ApoEnable::try_from(value[2]) {
            Ok(enable) => Ok(AutoPowerOffCommand { command, enable }),
            Err(_) => Err(Error::new(ErrorKind::InvalidFieldValue, "unknown auto power-off value".to_owned())),
        }
    }

    /// Parsing the bytes of a message gives the message back.
    pub proof fn lemma_round_trip(c: AutoPowerOffCommand)
        requires
            c.command.feature() == Feature::AutoPowerOff,
        ensures
            AutoPowerOffCommand::parse(c.bytes()) == Ok::<AutoPowerOffCommand, ErrorKind>(c),
    {
        CommandTypes::code_round_trip(c.command, 0);
    }
}

/// The payload that carries a message. A noise-control level or a band
/// gain out of range is an invalid field value.
pub open spec fn message_data(m: MessageView) -> Result<DataTypeView, ErrorKind> {
    match m {
        MessageView::RegisteredDevices(ds) => Ok(
            DataTypeView::DataMdr2(Mdr2View::RegisteredDevices(ds)),
        ),
        MessageView::Anc(anc) => match AncWF1000XM4::of_anc(anc) {
            Some(c) => Ok(DataTypeView::DataMdr(MdrView::Asm(c))),
            None => Err(ErrorKind::InvalidFieldValue),
        },
        MessageView::Equalizer { profile, bands } => match EqualizerCommandView::of_equalizer(
            Equalizer { profile, bands },
        ) {
            Some(c) => Ok(DataTypeView::DataMdr(MdrView::Equalizer(c))),
            None => Err(ErrorKind::InvalidFieldValue),
        },
        MessageView::Dsee(enable) => Ok(
            DataTypeView::DataMdr(
                MdrView::Dsee(DseeCommand { command: CommandTypes::DseeSet, enable }),
            ),
        ),
        MessageView::SpeakToChat(enable) => Ok(
            DataTypeView::DataMdr(MdrView::Stc(StcCommand { command: CommandTypes::StcSet, enable })),
        ),
        MessageView::AutoPowerOff(enable) => Ok(
            DataTypeView::DataMdr(
                MdrView::AutoPowerOff(
                    AutoPowerOffCommand {
                        command: CommandTypes::ApoSet,
                        enable: if enable {
                            ApoEnable::On
                        } else {
                            ApoEnable::Off
                        },
                    },
                ),
            ),
        ),
        MessageView::WearDetection(enable) => Ok(
            DataTypeView::DataMdr(
                MdrView::PauseRemoved(PauseRemovedCommand { command: CommandTypes::WearSet, enable }),
            ),
        ),
        MessageView::Ack => Ok(DataTypeView::Ack),
        MessageView::Unknown(bytes) => Ok(DataTypeView::Data(bytes)),
    }
}

/// The message that a payload carries. Only an equalizer payload can fail
/// here: with an unknown preset, a band count other than 0 or 6, or a band
/// out of range.
pub open spec fn data_message(d: DataTypeView) -> Result<MessageView, ErrorKind> {
    match d {
        DataTypeView::Data(bytes) => Ok(MessageView::Unknown(bytes)),
        DataTypeView::Ack => Ok(MessageView::Ack),
        DataTypeView::DataMdr(MdrView::Asm(c)) => Ok(MessageView::Anc(c.anc())),
        DataTypeView::DataMdr(MdrView::Equalizer(c)) => match c.equalizer() {
            Ok(eq) => Ok(MessageView::Equalizer { profile: eq.profile, bands: eq.bands }),
            Err(e) => Err(e),
        },
        DataTypeView::DataMdr(MdrView::Dsee(c)) => Ok(MessageView::Dsee(c.enable)),
        DataTypeView::DataMdr(MdrView::Stc(c)) => Ok(MessageView::SpeakToChat(c.enable)),
        DataTypeView::DataMdr(MdrView::AutoPowerOff(c)) => Ok(
            MessageView::AutoPowerOff(c.enable == ApoEnable::On),
        ),
        DataTypeView::DataMdr(MdrView::PauseRemoved(c)) => Ok(
            MessageView::WearDetection(c.enable),
        ),
        DataTypeView::DataMdr2(Mdr2View::RegisteredDevices(ds)) => Ok(
            MessageView::RegisteredDevices(ds),
        ),
    }
}

/// The frame that carries a message, before it is given a sequence number
/// and serialized: sequence number 0, for the sender to change, and
/// checksum 0, in whose place the serialization writes the computed one.
/// A payload that cannot be written or is longer than 255 bytes is an
/// invalid field value.
pub open spec fn encoded_frame(m: MessageView) -> Result<FrameView, ErrorKind> {
    match message_data(m) {
        Err(e) => Err(e),
        Ok(d) => if !d.encodable() || d.bytes().len() > 255 {
            Err(ErrorKind::InvalidFieldValue)
        } else {
            Ok(
                FrameView {
                    data_type: d.kind(),
                    seq_number: 0,
                    payload_size: d.bytes().len() as u8,
                    payload: d.bytes(),
                    checksum: 0,
                },
            )
        },
    }
}

/// The message that a frame carries.
pub open spec fn decoded_message(frame: FrameView) -> Result<MessageView, ErrorKind> {
    match DataTypeView::route(frame.data_type.spec_code(), frame.payload) {
        Err(e) => Err(e),
        Ok(d) => data_message(d),
    }
}

/// Turns a message into the payload that carries it.
pub fn to_data(message: DeviceMessage) -> (r: Result<DataType, Error>)
    ensures
        r matches Ok(d) ==> message_data(message@) == Ok::<DataTypeView, ErrorKind>(d@),
        r matches Err(e) ==> message_data(message@) == Err::<DataTypeView, ErrorKind>(e.kind),
{
    match message {
        DeviceMessage::RegisteredDevices(devices) => Ok(
            DataType::DataMdr2(Mdr2::RegisteredDevices(RegisteredDevices { devices })),
        ),
        DeviceMessage::Anc(anc) => match AncWF1000XM4::try_from(anc) {
            Ok(c) => Ok(DataType::DataMdr(Mdr::Asm(c))),
            Err(e) => Err(e),
        },
        DeviceMessage::Equalizer { profile, bands } => match EqualizerCommand::try_from(
            Equalizer { profile, bands },
        ) {
            Ok(c) => Ok(DataType::DataMdr(Mdr::Equalizer(c))),
            Err(e) => Err(e),
        },
        DeviceMessage::Dsee(enable) => Ok(DataType::DataMdr(Mdr::Dsee(DseeCommand::new(enable)))),
        DeviceMessage::SpeakToChat(enable) => Ok(
            DataType::DataMdr(Mdr::Stc(StcCommand::new(enable))),
        ),
        DeviceMessage::AutoPowerOff(enable) => Ok(
            DataType::DataMdr(Mdr::AutoPowerOff(AutoPowerOffCommand::new(enable))),
        ),
        DeviceMessage::WearDetection(enable) => Ok(
            DataType::DataMdr(Mdr::PauseRemoved(PauseRemovedCommand::new(enable))),
        ),
        DeviceMessage::Ack() => Ok(DataType::Ack()),
        DeviceMessage::Unknown(bytes) => Ok(DataType::Data(bytes)),
    }
}

/// Turns a payload into the message that it carries.
pub fn from_data(data: DataType) -> (r: Result<DeviceMessage, Error>)
    ensures
        r matches Ok(m) ==> data_message(data@) == Ok::<MessageView, ErrorKind>(m@),
        r matches Err(e) ==> data_message(data@) == Err::<MessageView, ErrorKind>(e.kind),
{
    match data {
        DataType::Data(bytes) => Ok(DeviceMessage::Unknown(bytes)),
        DataType::Ack() => Ok(DeviceMessage::Ack()),
        DataType::DataMdr(Mdr::Asm(c)) => Ok(DeviceMessage::Anc(c.try_into())),
        DataType::DataMdr(Mdr::Equalizer(c)) => match c.try_into() {
            Ok(eq) => Ok(DeviceMessage::Equalizer { profile: eq.profile, bands: eq.bands }),
            Err(e) => Err(e),
        },
        DataType::DataMdr(Mdr::Dsee(c)) => Ok(DeviceMessage::Dsee(c.enable)),
        DataType::DataMdr(Mdr::Stc(c)) => Ok(DeviceMessage::SpeakToChat(c.enable)),
        DataType::DataMdr(Mdr::AutoPowerOff(c)) => Ok(
            DeviceMessage::AutoPowerOff(
                match c.enable {
                    ApoEnable::On => true,
                    ApoEnable::Off => false,
                },
            ),
        ),
        DataType::DataMdr(Mdr::PauseRemoved(c)) => Ok(DeviceMessage::WearDetection(c.enable)),
        DataType::DataMdr2(Mdr2::RegisteredDevices(registry)) => Ok(
            DeviceMessage::RegisteredDevices(registry.devices),
        ),
    }
}

/// Builds the frame that carries a message. Nothing is produced for a
/// message with a field out of range.
pub fn encode(option: DeviceMessage) -> (r: Result<SonyCommand, Error>)
    ensures
        r matches Ok(c) ==> encoded_frame(option@) == Ok::<FrameView, ErrorKind>(c@),
        r matches Err(e) ==> encoded_frame(option@) == Err::<FrameView, ErrorKind>(e.kind),
{
    let data = match to_data(option) {
        Ok(d) => d,
        Err(e) => {
            return Err(e);
        },
    };
    let data_type = data.kind();
    let payload = match data.try_into() {
        Ok(p) => p,
        Err(e) => {
            return Err(e);
        },
    };
    if payload.len() > 255 {
        return Err(Error::new(ErrorKind::InvalidFieldValue, "payload longer than 255 bytes".to_owned()));
    }
    Ok(
        SonyCommand {
            data_type,
            seq_number: 0,
            payload_size: payload.len() as u8,
            payload,
            checksum: 0,
        },
    )
}

/// Reads the message that a frame carries.
pub fn decode(command: SonyCommand) -> (r: Result<DeviceMessage, Error>)
    ensures
        r matches Ok(m) ==> decoded_message(command@) == Ok::<MessageView, ErrorKind>(m@),
        r matches Err(e) ==> decoded_message(command@) == Err::<MessageView, ErrorKind>(e.kind),
{
    match DataType::try_from(command.data_type.code(), command.payload.as_slice()) {
        Ok(data) => from_data(data),
        Err(e) => Err(e),
    }
}

/// A message read back from the payload that carries it is the same
/// message.
pub proof fn lemma_data_round_trip(m: MessageView)
    requires
        message_data(m) is Ok,
    ensures
        data_message(message_data(m)->Ok_0) == Ok::<MessageView, ErrorKind>(m),
        message_data(m)->Ok_0 matches DataTypeView::DataMdr(mdr) ==> mdr.consistent(),
{
    match m {
        MessageView::Anc(anc) => {
            AncWF1000XM4::lemma_anc_round_trip(anc);
        },
        MessageView::Equalizer { profile, bands } => {
            lemma_setting_round_trip(Equalizer { profile, bands });
        },
        _ => {},
    }
}

/// Every message that can be encoded comes back unchanged: serialize its
/// frame under any sequence number, parse the bytes, and decode the frame.
pub proof fn lemma_message_round_trip(m: MessageView, seq_number: u32)
    requires
        encoded_frame(m) is Ok,
    ensures
        ({
            let frame = encoded_frame(m)->Ok_0;
            let bytes = frame_bytes(frame.data_type.spec_code(), seq_number, frame.payload);
            &&& parse_frame(bytes) is Ok
            &&& decoded_message(parse_frame(bytes)->Ok_0) == Ok::<MessageView, ErrorKind>(m)
        }),
{
    let d = message_data(m)->Ok_0;
    let frame = encoded_frame(m)->Ok_0;
    let bytes = frame_bytes(frame.data_type.spec_code(), seq_number, frame.payload);
    lemma_frame_round_trip(frame.data_type, seq_number, frame.payload);
    lemma_data_round_trip(m);
    lemma_route_round_trip(d);
    let parsed = parse_frame(bytes)->Ok_0;
    assert(parsed.data_type == d.kind() && parsed.payload == d.bytes());
}

/// An equalizer setting with a gain outside -10 to 10 is never encoded:
/// it is rejected as an invalid field value.
pub proof fn lemma_band_out_of_range(profile: crate::devices::EqualizerProfile, bands: Bands)
    requires
        !bands.valid(),
    ensures
        encoded_frame(MessageView::Equalizer { profile, bands }) == Err::<FrameView, ErrorKind>(
            ErrorKind::InvalidFieldValue,
        ),
{
}

/// An ambient-sound setting with a level outside 1 to 20 is never encoded:
/// it is rejected as an invalid field value.
pub proof fn lemma_level_out_of_range(level: u8, voice: bool)
    requires
        level < 1 || level > 20,
    ensures
        encoded_frame(MessageView::Anc(Anc::AmbientSound { level, voice })) == Err::<
            FrameView,
            ErrorKind,
        >(ErrorKind::InvalidFieldValue),
{
}

} // verus!
