//! Wire layout of the equalizer setting.

use vstd::prelude::*;

use crate::common::{copy_range, push_all, Error, ErrorKind};
use crate::devices::wf1000xm4::{CommandTypes, Feature};
use crate::devices::{gain_in_range, Bands, Equalizer, EqualizerProfile};

verus! {

/// The equalizer message as it travels: message code, preset, number of
/// bands, and one byte for each band.
#[derive(Debug, Clone)]
pub struct EqualizerCommand {
    pub command: CommandTypes,
    pub preset: u8,
    pub nb_bands: u8,
    pub bands: Vec<u8>,
}

/// An equalizer message as a mathematical value.
pub struct EqualizerCommandView {
    pub command: CommandTypes,
    pub preset: u8,
    pub nb_bands: u8,
    pub bands: Seq<u8>,
}

impl View for EqualizerCommand {
    type V = EqualizerCommandView;

    open spec fn view(&self) -> EqualizerCommandView {
        EqualizerCommandView {
            command: self.command,
            preset: self.preset,
            nb_bands: self.nb_bands,
            bands: self.bands@,
        }
    }
}

/// A gain as its band byte: the gain plus ten.
pub open spec fn gain_byte(gain: i8) -> u8 {
    (gain + 10) as u8
}

/// A band byte as its gain: the byte minus ten.
pub open spec fn byte_gain(byte: u8) -> i8 {
    (byte - 10) as i8
}

impl EqualizerCommandView {
    /// The serialized message.
    pub open spec fn bytes(self) -> Seq<u8> {
        seq![
            (self.command.spec_code() / 256) as u8,
            (self.command.spec_code() % 256) as u8,
            self.preset,
            self.nb_bands,
        ] + self.bands
    }

    /// What a payload says. It must hold the four fixed bytes and as many
    /// band bytes as it announces, and nothing more.
    pub open spec fn parse(b: Seq<u8>) -> Result<EqualizerCommandView, ErrorKind> {
        let message_code = (b[0] as int * 256 + b[1] as int) as u16;
        if b.len() < 4 || b.len() != 4 + b[3] {
            Err(ErrorKind::MalformedFrame)
        } else if !CommandTypes::names(message_code, Feature::Equalizer) {
            Err(ErrorKind::UnsupportedMessageCode { message_code })
        } else {
            Ok(
                EqualizerCommandView {
                    command: CommandTypes::from_code(message_code)->0,
                    preset: b[2],
                    nb_bands: b[3],
                    bands: b.subrange(4, b.len() as int),
                },
            )
        }
    }

    /// The wire form of a setting; defined when every gain is in range.
    pub open spec fn of_equalizer(equalizer: Equalizer) -> Option<EqualizerCommandView> {
        if equalizer.bands.valid() {
            Some(
                EqualizerCommandView {
                    command: CommandTypes::EqSet,
                    preset: equalizer.profile.spec_code(),
                    nb_bands: equalizer.bands.gains().len() as u8,
                    bands: equalizer.bands.gains().map_values(|g: i8| gain_byte(g)),
                },
            )
        } else {
            None
        }
    }

    /// The setting that a wire message describes. The preset must be
    /// known, the number of bands must be 0 or 6 and agree with the band
    /// bytes present, and every band byte must stand for a gain in range;
    /// anything else is an invalid field value.
    pub open spec fn equalizer(self) -> Result<Equalizer, ErrorKind> {
        let b = self.bands;
        if EqualizerProfile::from_code(self.preset) is None {
            Err(ErrorKind::InvalidFieldValue)
        } else if self.nb_bands == 0 && b.len() == 0 {
            Ok(Equalizer { profile: EqualizerProfile::from_code(self.preset)->0, bands: Bands::Zero() })
        } else if self.nb_bands == 6 && b.len() == 6 && (forall|i: int|
            0 <= i < 6 ==> #[trigger] b[i] <= 20) {
            Ok(
                Equalizer {
                    profile: EqualizerProfile::from_code(self.preset)->0,
                    bands: Bands::FiveBandsAndBass {
                        bass: byte_gain(b[0]),
                        b400k: byte_gain(b[1]),
                        b1k: byte_gain(b[2]),
                        b2k5: byte_gain(b[3]),
                        b6k3: byte_gain(b[4]),
                        b16k: byte_gain(b[5]),
                    },
                },
            )
        } else {
            Err(ErrorKind::InvalidFieldValue)
        }
    }
}

impl EqualizerCommand {
    /// Builds the wire message for a setting. Fails, with an invalid field
    /// value, exactly when a gain is outside -10 to 10.
    pub fn try_from(equalizer: Equalizer) -> (r: Result<EqualizerCommand, Error>)
        ensures
            r matches Ok(c) ==> EqualizerCommandView::of_equalizer(equalizer) == Some(c@),
            r matches Err(e) ==> EqualizerCommandView::of_equalizer(equalizer) is None && e.kind
                == ErrorKind::InvalidFieldValue,
    {
        match equalizer.bands.validate() {
            Ok(_) => {},
            Err(e) => {
                return Err(e);
            },
        }
        let mut bands: Vec<u8> = Vec::new();
        match equalizer.bands {
            Bands::Zero() => {},
            Bands::FiveBandsAndBass { bass, b400k, b1k, b2k5, b6k3, b16k } => {
                proof {
                    let g = equalizer.bands.gains();
                    assert(gain_in_range(g[0]) && gain_in_range(g[1]) && gain_in_range(g[2])
                        && gain_in_range(g[3]) && gain_in_range(g[4]) && gain_in_range(g[5]));
                }
                bands.push((bass + 10) as u8);
                bands.push((b400k + 10) as u8);
                bands.push((b1k + 10) as u8);
                bands.push((b2k5 + 10) as u8);
                bands.push((b6k3 + 10) as u8);
                bands.push((b16k + 10) as u8);
            },
        }
        assert(bands@ =~= equalizer.bands.gains().map_values(|g: i8| gain_byte(g)));
        Ok(
            EqualizerCommand {
                command: CommandTypes::EqSet,
                preset: equalizer.profile.code(),
                nb_bands: bands.len() as u8,
                bands,
            },
        )
    }

    /// Reads the setting out of a wire message.
    pub fn try_into(self) -> (r: Result<Equalizer, Error>)
        ensures
            r matches Ok(eq) ==> self@.equalizer() == Ok::<Equalizer, ErrorKind>(eq),
            r matches Err(e) ==> self@.equalizer() == Err::<Equalizer, ErrorKind>(e.kind),
    {
        let profile = match EqualizerProfile::try_from(self.preset) {
            Ok(p) => p,
            Err(_) => {
                return Err(Error::new(ErrorKind::InvalidFieldValue, "unsupported preset".to_owned()));
            },
        };
        if self.nb_bands == 0 && self.bands.len() == 0 {
            return Ok(Equalizer { profile, bands: Bands::Zero() });
        }
        if self.nb_bands != 6 || self.bands.len() != 6 {
            return Err(Error::new(ErrorKind::InvalidFieldValue, "unsupported number of bands".to_owned()));
        }
        let b = &self.bands;
        if b[0] > 20 || b[1] > 20 || b[2] > 20 || b[3] > 20 || b[4] > 20 || b[5] > 20 {
            return Err(Error::new(ErrorKind::InvalidFieldValue, "band gain out of range".to_owned()));
        }
        Ok(
            Equalizer {
                profile,
                bands: Bands::FiveBandsAndBass {
                    bass: (b[0] as i8) - 10,
                    b400k: (b[1] as i8) - 10,
                    b1k: (b[2] as i8) - 10,
                    b2k5: (b[3] as i8) - 10,
                    b6k3: (b[4] as i8) - 10,
                    b16k: (b[5] as i8) - 10,
                },
            },
        )
    }

    /// Serializes the message. The band bytes are written as they are; the
    /// fields are not checked against each other.
    pub fn to_bytes(&self) -> (out: Vec<u8>)
        ensures
            out@ == self@.bytes(),
    {
        let code: u16 = self.command.code();
        let mut out: Vec<u8> = Vec::new();
        out.push((code / 256) as u8);
        out.push((code % 256) as u8);
        out.push(self.preset);
        out.push(self.nb_bands);
        push_all(&mut out, self.bands.as_slice());
        assert(out@ =~= self@.bytes());
        out
    }

    /// Parses a payload of this message.
    pub fn from_bytes(bytes: &[u8]) -> (r: Result<EqualizerCommand, Error>)
        ensures
            r matches Ok(c) ==> EqualizerCommandView::parse(bytes@) == Ok::<
                EqualizerCommandView,
                ErrorKind,
            >(c@),
            r matches Err(e) ==> EqualizerCommandView::parse(bytes@) == Err::<
                EqualizerCommandView,
                ErrorKind,
            >(e.kind),
    {
        if bytes.len() < 4 || bytes.len() != 4 + bytes[3] as usize {
            return Err(Error::new(ErrorKind::MalformedFrame, "equalizer payload has the wrong length".to_owned()));
        }
        let message_code: u16 = bytes[0] as u16 * 256 + bytes[1] as u16;
        let command = match CommandTypes::try_from_feature(message_code, Feature::Equalizer) {
            Ok(c) => c,
            Err(e) => {
                return Err(e);
            },
        };
        let bands = copy_range(bytes, 4, bytes.len());
        Ok(EqualizerCommand { command, preset: bytes[2], nb_bands: bytes[3], bands })
    }
}

/// Parsing the bytes of a message whose band count agrees with its band
/// bytes gives the message back.
pub proof fn lemma_equalizer_round_trip(c: EqualizerCommandView)
    requires
        c.command.feature() == Feature::Equalizer,
        c.nb_bands as int == c.bands.len(),
    ensures
        EqualizerCommandView::parse(c.bytes()) == Ok::<EqualizerCommandView, ErrorKind>(c),
{
    CommandTypes::code_round_trip(c.command, 0);
    assert(c.bytes().subrange(4, c.bytes().len() as int) =~= c.bands);
}

/// A setting that has a wire form is read back from it unchanged.
pub proof fn lemma_setting_round_trip(equalizer: Equalizer)
    requires
        equalizer.bands.valid(),
    ensures
        EqualizerCommandView::of_equalizer(equalizer)->0.equalizer() == Ok::<Equalizer, ErrorKind>(
            equalizer,
        ),
{
    let c = EqualizerCommandView::of_equalizer(equalizer)->0;
    let g = equalizer.bands.gains();
    match equalizer.bands {
        Bands::Zero() => {},
        Bands::FiveBandsAndBass { bass, b400k, b1k, b2k5, b6k3, b16k } => {
            assert(gain_in_range(g[0]) && gain_in_range(g[1]) && gain_in_range(g[2])
                && gain_in_range(g[3]) && gain_in_range(g[4]) && gain_in_range(g[5]));
            assert forall|i: int| 0 <= i < 6 implies #[trigger] c.bands[i] <= 20 by {
                assert(gain_in_range(g[i]));
            }
        },
    }
}

} // verus!
