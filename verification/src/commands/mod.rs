//! The command families carried inside a frame, and the dispatch between
//! them.

use vstd::prelude::*;

use crate::common::{copy_range, Error, ErrorKind};
use crate::{encode, frame_bytes, parse_frame, SonyCommand};

use self::mdr::{Mdr, MdrView};
use self::mdr2::registered_devices::lemma_registry_round_trip;
use self::mdr2::{Mdr2, Mdr2View};

pub mod mdr;
pub mod mdr2;

verus! {

/// The payload of a frame, read according to the frame's data type.
#[derive(Debug, Clone)]
pub enum DataType {
    Data(Vec<u8>),
    Ack(),
    DataMdr(Mdr),
    DataMdr2(Mdr2),
}

/// A payload as a mathematical value.
pub enum DataTypeView {
    Data(Seq<u8>),
    Ack,
    DataMdr(MdrView),
    DataMdr2(Mdr2View),
}

impl View for DataType {
    type V = DataTypeView;

    open spec fn view(&self) -> DataTypeView {
        match self {
            DataType::Data(bytes) => DataTypeView::Data(bytes@),
            DataType::Ack() => DataTypeView::Ack,
            DataType::DataMdr(m) => DataTypeView::DataMdr(m@),
            DataType::DataMdr2(m) => DataTypeView::DataMdr2(m@),
        }
    }
}

impl DataTypeView {
    /// The data type under which the payload travels.
    pub open spec fn kind(self) -> crate::DataType {
        match self {
            DataTypeView::Data(_) => crate::DataType::Data,
            DataTypeView::Ack => crate::DataType::Ack,
            DataTypeView::DataMdr(_) => crate::DataType::DataMdr,
            DataTypeView::DataMdr2(_) => crate::DataType::DataMdr2,
        }
    }

    /// The bytes of the payload.
    pub open spec fn bytes(self) -> Seq<u8> {
        match self {
            DataTypeView::Data(b) => b,
            DataTypeView::Ack => Seq::empty(),
            DataTypeView::DataMdr(m) => m.bytes(),
            DataTypeView::DataMdr2(m) => m.bytes(),
        }
    }

    /// The payload can be written down: a registry must be, anything else
    /// always can.
    pub open spec fn encodable(self) -> bool {
        match self {
            DataTypeView::DataMdr2(m) => m.encodable(),
            _ => true,
        }
    }

    /// Reads a payload according to the data-type byte: an acknowledgement
    /// has no content, the two command families have their own codecs, any
    /// other known data type is kept as raw bytes, and an unknown byte is
    /// an unsupported data type.
    pub open spec fn route(code: u8, payload: Seq<u8>) -> Result<DataTypeView, ErrorKind> {
        match crate::DataType::from_code(code) {
            None => Err(ErrorKind::UnsupportedDataType { code }),
            Some(crate::DataType::Ack) => Ok(DataTypeView::Ack),
            Some(crate::DataType::DataMdr) => match MdrView::parse(payload) {
                Ok(m) => Ok(DataTypeView::DataMdr(m)),
                Err(e) => Err(e),
            },
            Some(crate::DataType::DataMdr2) => match Mdr2View::parse(payload) {
                Ok(m) => Ok(DataTypeView::DataMdr2(m)),
                Err(e) => Err(e),
            },
            Some(_) => Ok(DataTypeView::Data(payload)),
        }
    }
}

/// A payload that can be written down, and whose settings message is
/// consistent, is read back unchanged from its bytes under its own data
/// type.
pub proof fn lemma_route_round_trip(d: DataTypeView)
    requires
        d.encodable(),
        d matches DataTypeView::DataMdr(m) ==> m.consistent(),
    ensures
        DataTypeView::route(d.kind().spec_code(), d.bytes()) == Ok::<DataTypeView, ErrorKind>(d),
{
    match d {
        DataTypeView::DataMdr(m) => {
            MdrView::lemma_round_trip(m);
        },
        DataTypeView::DataMdr2(Mdr2View::RegisteredDevices(ds)) => {
            lemma_registry_round_trip(ds);
            assert(d.bytes()[0] == 0 && d.bytes()[1] == 1);
        },
        _ => {},
    }
}

impl DataType {
    /// The data type under which the payload travels.
    pub fn kind(&self) -> (k: crate::DataType)
        ensures
            k == self@.kind(),
    {
        match self {
            DataType::Data(_) => crate::DataType::Data,
            DataType::Ack() => crate::DataType::Ack,
            DataType::DataMdr(_) => crate::DataType::DataMdr,
            DataType::DataMdr2(_) => crate::DataType::DataMdr2,
        }
    }

    /// The data-type byte under which the payload travels.
    pub fn code(&self) -> (c: u8)
        ensures
            c == self@.kind().spec_code(),
    {
        match self {
            DataType::Ack() => 0x01,
            DataType::Data(_) => 0x00,
            DataType::DataMdr(_) => 0x0c,
            DataType::DataMdr2(_) => 0x0e,
        }
    }

    /// Reads a payload according to the data-type byte.
    pub fn try_from(code: u8, payload: &[u8]) -> (r: Result<DataType, Error>)
        ensures
            r matches Ok(d) ==> DataTypeView::route(code, payload@) == Ok::<
                DataTypeView,
                ErrorKind,
            >(d@),
            r matches Err(e) ==> DataTypeView::route(code, payload@) == Err::<
                DataTypeView,
                ErrorKind,
            >(e.kind),
    {
        let kind = match crate::DataType::try_from(code) {
            Ok(k) => k,
            Err(_) => {
                return Err(Error::new(ErrorKind::UnsupportedDataType { code }, "unsupported data type".to_owned()));
            },
        };
        match kind {
            crate::DataType::Ack => Ok(DataType::Ack()),
            crate::DataType::DataMdr => match Mdr::try_from(payload) {
                Ok(m) => Ok(DataType::DataMdr(m)),
                Err(e) => Err(e),
            },
            crate::DataType::DataMdr2 => match Mdr2::try_from(payload) {
                Ok(m) => Ok(DataType::DataMdr2(m)),
                Err(e) => Err(e),
            },
            _ => {
                let data = copy_range(payload, 0, payload.len());
                assert(payload@.subrange(0, payload@.len() as int) =~= payload@);
                Ok(DataType::Data(data))
            },
        }
    }

    /// Serializes the payload. Fails, with an invalid field value, exactly
    /// when it holds a registry with a name longer than 255 bytes.
    pub fn try_into(self) -> (r: Result<Vec<u8>, Error>)
        ensures
            r is Ok <==> self@.encodable(),
            r matches Ok(v) ==> v@ == self@.bytes(),
            r matches Err(e) ==> e.kind == ErrorKind::InvalidFieldValue,
    {
        match self {
            DataType::Data(bytes) => Ok(bytes),
            DataType::Ack() => Ok(Vec::new()),
            DataType::DataMdr(m) => Ok(m.try_into()),
            DataType::DataMdr2(m) => m.try_into(),
        }
    }
}

/// A frame whose payload has been read.
#[derive(Debug, Clone)]
pub struct Command {
    pub seq_number: u32,
    pub data_type: DataType,
}

/// A command as a mathematical value.
pub struct CommandView {
    pub seq_number: u32,
    pub data_type: DataTypeView,
}

impl View for Command {
    type V = CommandView;

    open spec fn view(&self) -> CommandView {
        CommandView { seq_number: self.seq_number, data_type: self.data_type@ }
    }
}

/// What a buffer says as a command: the frame at its start, with the
/// payload read according to the frame's data type.
pub open spec fn parse_command(b: Seq<u8>) -> Result<CommandView, ErrorKind> {
    match parse_frame(b) {
        Err(e) => Err(e),
        Ok(frame) => match DataTypeView::route(frame.data_type.spec_code(), frame.payload) {
            Err(e) => Err(e),
            Ok(data_type) => Ok(CommandView { seq_number: frame.seq_number, data_type }),
        },
    }
}

impl Command {
    pub fn set_seq_number(&mut self, seq_number: u32)
        ensures
            final(self).seq_number == seq_number,
            final(self).data_type == old(self).data_type,
    {
        self.seq_number = seq_number;
    }

    /// Parses the frame at the start of `bytes` and reads its payload.
    pub fn try_from(bytes: &[u8]) -> (r: Result<Command, Error>)
        ensures
            r matches Ok(c) ==> parse_command(bytes@) == Ok::<CommandView, ErrorKind>(c@),
            r matches Err(e) ==> parse_command(bytes@) == Err::<CommandView, ErrorKind>(e.kind),
            r matches Err(e) ==> (parse_frame(bytes@) is Err && e.kind is ChecksumMismatch ==> e.data@
                == bytes@),
    {
        let frame = match SonyCommand::try_from(bytes) {
            Ok(f) => f,
            Err(e) => {
                return Err(e);
            },
        };
        match DataType::try_from(frame.data_type.code(), frame.payload.as_slice()) {
            Ok(data_type) => Ok(Command { seq_number: frame.seq_number, data_type }),
            Err(e) => Err(e),
        }
    }

    /// Serializes the command as a frame. Fails, with an invalid field
    /// value, exactly when the payload cannot be written or is longer than
    /// 255 bytes.
    pub fn try_into(self) -> (r: Result<Vec<u8>, Error>)
        ensures
            r is Ok <==> self@.data_type.encodable() && self@.data_type.bytes().len() <= 255,
            r matches Ok(v) ==> v@ == frame_bytes(
                self@.data_type.kind().spec_code(),
                self.seq_number,
                self@.data_type.bytes(),
            ),
            r matches Err(e) ==> e.kind == ErrorKind::InvalidFieldValue,
    {
        let kind = self.data_type.kind();
        let payload = match self.data_type.try_into() {
            Ok(p) => p,
            Err(e) => {
                return Err(e);
            },
        };
        encode(kind, self.seq_number, payload.as_slice())
    }
}

} // verus!
