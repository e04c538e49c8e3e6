//! The device-settings command family.

use vstd::prelude::*;

use crate::common::{Error, ErrorKind};
use crate::devices::wf1000xm4::anc::AncWF1000XM4;
use crate::devices::wf1000xm4::equalizer::{
    lemma_equalizer_round_trip, EqualizerCommand, EqualizerCommandView,
};
use crate::devices::wf1000xm4::{
    AutoPowerOffCommand, CommandTypes, DseeCommand, Feature, PauseRemovedCommand, StcCommand,
};

verus! {

/// A message of the device-settings family, one variant for each feature.
#[derive(Debug, Clone)]
pub enum Mdr {
    Asm(AncWF1000XM4),
    Equalizer(EqualizerCommand),
    Dsee(DseeCommand),
    Stc(StcCommand),
    AutoPowerOff(AutoPowerOffCommand),
    PauseRemoved(PauseRemovedCommand),
}

/// A device-settings message as a mathematical value.
pub enum MdrView {
    Asm(AncWF1000XM4),
    Equalizer(EqualizerCommandView),
    Dsee(DseeCommand),
    Stc(StcCommand),
    AutoPowerOff(AutoPowerOffCommand),
    PauseRemoved(PauseRemovedCommand),
}

impl View for Mdr {
    type V = MdrView;

    open spec fn view(&self) -> MdrView {
        match self {
            Mdr::Asm(c) => MdrView::Asm(*c),
            Mdr::Equalizer(c) => MdrView::Equalizer(c@),
            Mdr::Dsee(c) => MdrView::Dsee(*c),
            Mdr::Stc(c) => MdrView::Stc(*c),
            Mdr::AutoPowerOff(c) => MdrView::AutoPowerOff(*c),
            Mdr::PauseRemoved(c) => MdrView::PauseRemoved(*c),
        }
    }
}

impl MdrView {
    /// The payload of the message.
    pub open spec fn bytes(self) -> Seq<u8> {
        match self {
            MdrView::Asm(c) => c.bytes(),
            MdrView::Equalizer(c) => c.bytes(),
            MdrView::Dsee(c) => c.bytes(),
            MdrView::Stc(c) => c.bytes(),
            MdrView::AutoPowerOff(c) => c.bytes(),
            MdrView::PauseRemoved(c) => c.bytes(),
        }
    }

    /// The message carries a code of its own feature, and an equalizer
    /// message as many band bytes as it announces.
    pub open spec fn consistent(self) -> bool {
        match self {
            MdrView::Asm(c) => c.command.spec_feature() == Feature::Anc,
            MdrView::Equalizer(c) => c.command.spec_feature() == Feature::Equalizer
                && c.nb_bands as int == c.bands.len(),
            MdrView::Dsee(c) => c.command.spec_feature() == Feature::Dsee,
            MdrView::Stc(c) => c.command.spec_feature() == Feature::SpeakToChat,
            MdrView::AutoPowerOff(c) => c.command.spec_feature() == Feature::AutoPowerOff,
            MdrView::PauseRemoved(c) => c.command.spec_feature() == Feature::WearDetection,
        }
    }

    /// What a payload of this family says. The message code at its start
    /// selects the feature, whose layout then decides; a payload without a
    /// code is malformed, and an unknown code is unsupported.
    pub open spec fn parse(b: Seq<u8>) -> Result<MdrView, ErrorKind> {
        let message_code = (b[0] as int * 256 + b[1] as int) as u16;
        if b.len() < 2 {
            Err(ErrorKind::MalformedFrame)
        } else {
            match CommandTypes::from_code(message_code) {
                None => Err(ErrorKind::UnsupportedMessageCode { message_code }),
                Some(command) => match command.spec_feature() {
                    Feature::Anc => match AncWF1000XM4::parse(b) {
                        Ok(c) => Ok(MdrView::Asm(c)),
                        Err(e) => Err(e),
                    },
                    Feature::Equalizer => match EqualizerCommandView::parse(b) {
                        Ok(c) => Ok(MdrView::Equalizer(c)),
                        Err(e) => Err(e),
                    },
                    Feature::Dsee => match DseeCommand::parse(b) {
                        Ok(c) => Ok(MdrView::Dsee(c)),
                        Err(e) => Err(e),
                    },
                    Feature::SpeakToChat => match StcCommand::parse(b) {
                        Ok(c) => Ok(MdrView::Stc(c)),
                        Err(e) => Err(e),
                    },
                    Feature::AutoPowerOff => match AutoPowerOffCommand::parse(b) {
                        Ok(c) => Ok(MdrView::AutoPowerOff(c)),
                        Err(e) => Err(e),
                    },
                    Feature::WearDetection => match PauseRemovedCommand::parse(b) {
                        Ok(c) => Ok(MdrView::PauseRemoved(c)),
                        Err(e) => Err(e),
                    },
                },
            }
        }
    }

    /// Parsing the payload of a consistent message gives the message back.
    pub proof fn lemma_round_trip(m: MdrView)
        requires
            m.consistent(),
        ensures
            MdrView::parse(m.bytes()) == Ok::<MdrView, ErrorKind>(m),
    {
        match m {
            MdrView::Asm(c) => {
                CommandTypes::code_round_trip(c.command, 0);
                AncWF1000XM4::lemma_round_trip(c);
            },
            MdrView::Equalizer(c) => {
                CommandTypes::code_round_trip(c.command, 0);
                lemma_equalizer_round_trip(c);
            },
            MdrView::Dsee(c) => {
                CommandTypes::code_round_trip(c.command, 0);
                DseeCommand::lemma_round_trip(c);
            },
            MdrView::Stc(c) => {
                CommandTypes::code_round_trip(c.command, 0);
                StcCommand::lemma_round_trip(c);
            },
            MdrView::AutoPowerOff(c) => {
                CommandTypes::code_round_trip(c.command, 0);
                AutoPowerOffCommand::lemma_round_trip(c);
            },
            MdrView::PauseRemoved(c) => {
                CommandTypes::code_round_trip(c.command, 0);
                PauseRemovedCommand::lemma_round_trip(c);
            },
        }
    }
}

impl Mdr {
    /// Parses a payload of the device-settings family.
    pub fn try_from(bytes: &[u8]) -> (r: Result<Mdr, Error>)
        ensures
            r matches Ok(m) ==> MdrView::parse(bytes@) == Ok::<MdrView, ErrorKind>(m@),
            r matches Err(e) ==> MdrView::parse(bytes@) == Err::<MdrView, ErrorKind>(e.kind),
    {
        if bytes.len() < 2 {
            return Err(Error::new(ErrorKind::MalformedFrame, "settings payload without a message code".to_owned()));
        }
        let message_code: u16 = bytes[0] as u16 * 256 + bytes[1] as u16;
        let command = match CommandTypes::try_from(message_code) {
            Ok(c) => c,
            Err(_) => {
                return Err(
                    Error::new(
                        ErrorKind::UnsupportedMessageCode { message_code },
                        "unsupported settings message code".to_owned(),
                    ),
                );
            },
        };
        match command.feature() {
            Feature::Anc => match AncWF1000XM4::from_bytes(bytes) {
                Ok(c) => Ok(Mdr::Asm(c)),
                Err(e) => Err(e),
            },
            Feature::Equalizer => match EqualizerCommand::from_bytes(bytes) {
                Ok(c) => Ok(Mdr::Equalizer(c)),
                Err(e) => Err(e),
            },
            Feature::Dsee => match DseeCommand::from_bytes(bytes) {
                Ok(c) => Ok(Mdr::Dsee(c)),
                Err(e) => Err(e),
            },
            Feature::SpeakToChat => match StcCommand::from_bytes(bytes) {
                Ok(c) => Ok(Mdr::Stc(c)),
                Err(e) => Err(e),
            },
            Feature::AutoPowerOff => match AutoPowerOffCommand::from_bytes(bytes) {
                Ok(c) => Ok(Mdr::AutoPowerOff(c)),
                Err(e) => Err(e),
            },
            Feature::WearDetection => match PauseRemovedCommand::from_bytes(bytes) {
                Ok(c) => Ok(Mdr::PauseRemoved(c)),
                Err(e) => Err(e),
            },
        }
    }

    /// Serializes the message.
    pub fn try_into(self) -> (out: Vec<u8>)
        ensures
            out@ == self@.bytes(),
    {
        match self {
            Mdr::Asm(c) => c.to_bytes(),
            Mdr::Equalizer(c) => c.to_bytes(),
            Mdr::Dsee(c) => c.to_bytes(),
            Mdr::Stc(c) => c.to_bytes(),
            Mdr::AutoPowerOff(c) => c.to_bytes(),
            Mdr::PauseRemoved(c) => c.to_bytes(),
        }
    }
}

} // verus!
