//! The registry command family.

use vstd::prelude::*;

use crate::common::{Error, ErrorKind};

use self::registered_devices::{
    parse_registry, registry_bytes, registry_encodable, DeviceView, RegisteredDevices,
};

pub mod registered_devices;

verus! {

/// The message codes of the registry family.
#[derive(Debug, Clone, Copy, PartialEq, Eq, Structural)]
pub enum Mdr2Types {
    RegisteredDevicesAsk,
    RegisteredDevicesResp,
}

impl Mdr2Types {
    pub open spec fn spec_code(self) -> u16 {
        match self {
            Mdr2Types::RegisteredDevicesAsk => 0,
            Mdr2Types::RegisteredDevicesResp => 1,
        }
    }

    pub open spec fn from_code(code: u16) -> Option<Mdr2Types> {
        if code == 0 {
            Some(Mdr2Types::RegisteredDevicesAsk)
        } else if code == 1 {
            Some(Mdr2Types::RegisteredDevicesResp)
        } else {
            None
        }
    }

    #[verifier::when_used_as_spec(spec_code)]
    pub fn code(self) -> (c: u16)
        ensures
            c == self.spec_code(),
    {
        match self {
            Mdr2Types::RegisteredDevicesAsk => 0,
            Mdr2Types::RegisteredDevicesResp => 1,
        }
    }

    pub fn try_from(code: u16) -> (r: Result<Mdr2Types, u16>)
        ensures
            r == match Mdr2Types::from_code(code) {
                Some(t) => Ok::<Mdr2Types, u16>(t),
                None => Err::<Mdr2Types, u16>(code),
            },
    {
        match code {
            0 => Ok(Mdr2Types::RegisteredDevicesAsk),
            1 => Ok(Mdr2Types::RegisteredDevicesResp),
            _ => Err(code),
        }
    }
}

/// A message of the registry family.
#[derive(Debug, Clone)]
pub enum Mdr2 {
    RegisteredDevices(RegisteredDevices),
}

/// A registry message as a mathematical value.
pub enum Mdr2View {
    RegisteredDevices(Seq<DeviceView>),
}

impl View for Mdr2 {
    type V = Mdr2View;

    open spec fn view(&self) -> Mdr2View {
        match self {
            Mdr2::RegisteredDevices(registry) => Mdr2View::RegisteredDevices(registry@),
        }
    }
}

impl Mdr2View {
    /// The payload of the message.
    pub open spec fn bytes(self) -> Seq<u8> {
        match self {
            Mdr2View::RegisteredDevices(ds) => registry_bytes(ds),
        }
    }

    /// The message can be written down.
    pub open spec fn encodable(self) -> bool {
        match self {
            Mdr2View::RegisteredDevices(ds) => registry_encodable(ds),
        }
    }

    /// What a payload of this family says. It must hold a message code;
    /// a code of another family is unsupported.
    pub open spec fn parse(b: Seq<u8>) -> Result<Mdr2View, ErrorKind> {
        let message_code = (b[0] as int * 256 + b[1] as int) as u16;
        if b.len() < 2 {
            Err(ErrorKind::MalformedFrame)
        } else if Mdr2Types::from_code(message_code) is None {
            Err(ErrorKind::UnsupportedMessageCode { message_code })
        } else {
            match parse_registry(b) {
                Ok(ds) => Ok(Mdr2View::RegisteredDevices(ds)),
                Err(e) => Err(e),
            }
        }
    }
}

impl Mdr2 {
    /// Parses a payload of the registry family.
    pub fn try_from(bytes: &[u8]) -> (r: Result<Mdr2, Error>)
        ensures
            r matches Ok(m) ==> Mdr2View::parse(bytes@) == Ok::<Mdr2View, ErrorKind>(m@),
            r matches Err(e) ==> Mdr2View::parse(bytes@) == Err::<Mdr2View, ErrorKind>(e.kind),
    {
        if bytes.len() < 2 {
            return Err(Error::new(ErrorKind::MalformedFrame, "registry payload without a message code".to_owned()));
        }
        let message_code: u16 = bytes[0] as u16 * 256 + bytes[1] as u16;
        match Mdr2Types::try_from(message_code) {
            Ok(_) => {},
            Err(_) => {
                return Err(
                    Error::new(
                        ErrorKind::UnsupportedMessageCode { message_code },
                        "unsupported registry message code".to_owned(),
                    ),
                );
            },
        }
        match RegisteredDevices::try_from(bytes) {
            Ok(registry) => Ok(Mdr2::RegisteredDevices(registry)),
            Err(e) => Err(e),
        }
    }

    /// Serializes the message. Fails, with an invalid field value, exactly
    /// when a device name is longer than 255 bytes.
    pub fn try_into(self) -> (r: Result<Vec<u8>, Error>)
        ensures
            r is Ok <==> self@.encodable(),
            r matches Ok(v) ==> v@ == self@.bytes(),
            r matches Err(e) ==> e.kind == ErrorKind::InvalidFieldValue,
    {
        match self {
            Mdr2::RegisteredDevices(registry) => registry.try_into(),
        }
    }
}

} // verus!
