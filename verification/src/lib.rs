//! Control protocol of a family of Bluetooth headsets: the framed envelope
//! with its checksum, the two command families carried inside it, the
//! per-feature payload codecs, and the decisions of the acknowledgement
//! protocol.

use vstd::prelude::*;

pub mod args;
pub mod commands;
pub mod common;
pub mod devices;
pub mod hexcode;

pub use commands::mdr2::registered_devices::Mac;
pub use common::{Error, ErrorKind};

verus! {

/// First byte of every frame.
pub const FRAME_START: u8 = 0x3e;

/// Last byte of every frame.
pub const FRAME_END: u8 = 0x3c;

/// Sum of the bytes, as an unbounded integer.
pub open spec fn byte_sum(bytes: Seq<u8>) -> int
    decreases bytes.len(),
{
    if bytes.len() == 0 {
        0
    } else {
        byte_sum(bytes.drop_last()) + bytes.last() as int
    }
}

/// The frame checksum: the sum of the bytes, modulo 256, which is what
/// adding them one by one in eight bits, wrapping around, comes to.
pub open spec fn checksum_of(bytes: Seq<u8>) -> u8 {
    (byte_sum(bytes) % 256) as u8
}

/// The four bytes of `x`, least significant first.
pub open spec fn u32_le(x: u32) -> Seq<u8> {
    seq![
        (x % 256) as u8,
        (x / 256 % 256) as u8,
        (x / 65536 % 256) as u8,
        (x / 16777216) as u8,
    ]
}

/// The number whose bytes, least significant first, are the first four of `b`.
pub open spec fn u32_from_le(b: Seq<u8>) -> u32
    recommends
        b.len() >= 4,
{
    (b[0] as int + 256 * b[1] as int + 65536 * b[2] as int + 16777216 * b[3] as int) as u32
}

/// Computes the checksum of `bytes[start..end]`.
pub fn checksum(bytes: &[u8], start: usize, end: usize) -> (sum: u8)
    requires
        start <= end <= bytes@.len(),
    ensures
        sum == checksum_of(bytes@.subrange(start as int, end as int)),
{
    let mut sum: u8 = 0;
    let mut i: usize = start;
    while i < end
        invariant
            start <= i <= end <= bytes@.len(),
            sum == checksum_of(bytes@.subrange(start as int, i as int)),
        decreases end - i,
    {
        proof {
            let next = bytes@.subrange(start as int, i + 1);
            assert(next.drop_last() =~= bytes@.subrange(start as int, i as int));
            assert(next.last() == bytes@[i as int]);
        }
        sum = sum.wrapping_add(bytes[i]);
        i += 1;
    }
    sum
}


/// The data-type byte of a frame: which family the payload belongs to.
#[derive(Debug, Clone, Copy, PartialEq, Eq, Structural)]
pub enum DataType {
    Data,
    Ack,
    DataMc1,
    DataIcd,
    DataEv,
    DataMdr,
    DataCommon,
    DataMdr2,
    Shot,
    ShotMc1,
    ShotIcd,
    ShotEv,
    ShotMdr,
    ShotCommon,
    ShotMdr2,
    LargeData,
}

impl DataType {
    /// The byte that stands for this data type on the wire.
    pub open spec fn spec_code(self) -> u8 {
        match self {
            DataType::Data => 0x00,
            DataType::Ack => 0x01,
            DataType::DataMc1 => 0x02,
            DataType::DataIcd => 0x09,
            DataType::DataEv => 0x0a,
            DataType::DataMdr => 0x0c,
            DataType::DataCommon => 0x0d,
            DataType::DataMdr2 => 0x0e,
            DataType::Shot => 0x10,
            DataType::ShotMc1 => 0x12,
            DataType::ShotIcd => 0x19,
            DataType::ShotEv => 0x1a,
            DataType::ShotMdr => 0x1c,
            DataType::ShotCommon => 0x1d,
            DataType::ShotMdr2 => 0x1e,
            DataType::LargeData => 0x2d,
        }
    }

    /// The data type that `code` stands for, if any.
    pub open spec fn from_code(code: u8) -> Option<DataType> {
        if code == 0x00 {
            Some(DataType::Data)
        } else if code == 0x01 {
            Some(DataType::Ack)
        } else if code == 0x02 {
            Some(DataType::DataMc1)
        } else if code == 0x09 {
            Some(DataType::DataIcd)
        } else if code == 0x0a {
            Some(DataType::DataEv)
        } else if code == 0x0c {
            Some(DataType::DataMdr)
        } else if code == 0x0d {
            Some(DataType::DataCommon)
        } else if code == 0x0e {
            Some(DataType::DataMdr2)
        } else if code == 0x10 {
            Some(DataType::Shot)
        } else if code == 0x12 {
            Some(DataType::ShotMc1)
        } else if code == 0x19 {
            Some(DataType::ShotIcd)
        } else if code == 0x1a {
            Some(DataType::ShotEv)
        } else if code == 0x1c {
            Some(DataType::ShotMdr)
        } else if code == 0x1d {
            Some(DataType::ShotCommon)
        } else if code == 0x1e {
            Some(DataType::ShotMdr2)
        } else if code == 0x2d {
            Some(DataType::LargeData)
        } else {
            None
        }
    }

    #[verifier::when_used_as_spec(spec_code)]
    pub fn code(self) -> (c: u8)
        ensures
            c == self.spec_code(),
    {
        match self {
            DataType::Data => 0x00,
            DataType::Ack => 0x01,
            DataType::DataMc1 => 0x02,
            DataType::DataIcd => 0x09,
            DataType::DataEv => 0x0a,
            DataType::DataMdr => 0x0c,
            DataType::DataCommon => 0x0d,
            DataType::DataMdr2 => 0x0e,
            DataType::Shot => 0x10,
            DataType::ShotMc1 => 0x12,
            DataType::ShotIcd => 0x19,
            DataType::ShotEv => 0x1a,
            DataType::ShotMdr => 0x1c,
            DataType::ShotCommon => 0x1d,
            DataType::ShotMdr2 => 0x1e,
            DataType::LargeData => 0x2d,
        }
    }

    /// Reads a data type from its byte; an unknown byte comes back as the
    /// error.
    pub fn try_from(code: u8) -> (r: Result<DataType, u8>)
        ensures
            r == match DataType::from_code(code) {
                Some(d) => Ok::<DataType, u8>(d),
                None => Err::<DataType, u8>(code),
            },
    {
        match code {
            0x00 => Ok(DataType::Data),
            0x01 => Ok(DataType::Ack),
            0x02 => Ok(DataType::DataMc1),
            0x09 => Ok(DataType::DataIcd),
            0x0a => Ok(DataType::DataEv),
            0x0c => Ok(DataType::DataMdr),
            0x0d => Ok(DataType::DataCommon),
            0x0e => Ok(DataType::DataMdr2),
            0x10 => Ok(DataType::Shot),
            0x12 => Ok(DataType::ShotMc1),
            0x19 => Ok(DataType::ShotIcd),
            0x1a => Ok(DataType::ShotEv),
            0x1c => Ok(DataType::ShotMdr),
            0x1d => Ok(DataType::ShotCommon),
            0x1e => Ok(DataType::ShotMdr2),
            0x2d => Ok(DataType::LargeData),
            _ => Err(code),
        }
    }

    /// Reading a data type back from its own byte gives the same data type,
    /// and a byte that reads as a data type is that data type's byte.
    pub proof fn code_round_trip(d: DataType, code: u8)
        ensures
            DataType::from_code(d.spec_code()) == Some(d),
            DataType::from_code(code) == Some(d) ==> d.spec_code() == code,
    {
    }
}

/// One frame of the envelope.
#[derive(Debug, Clone)]
pub struct SonyCommand {
    pub data_type: DataType,
    pub seq_number: u32,
    pub payload_size: u8,
    pub payload: Vec<u8>,
    pub checksum: u8,
}

/// A frame as a mathematical value.
pub struct FrameView {
    pub data_type: DataType,
    pub seq_number: u32,
    pub payload_size: u8,
    pub payload: Seq<u8>,
    pub checksum: u8,
}

impl View for SonyCommand {
    type V = FrameView;

    open spec fn view(&self) -> FrameView {
        FrameView {
            data_type: self.data_type,
            seq_number: self.seq_number,
            payload_size: self.payload_size,
            payload: self.payload@,
            checksum: self.checksum,
        }
    }
}

/// The bytes that the checksum covers: everything between the start marker
/// and the checksum itself.
pub open spec fn frame_body(data_type: u8, seq_number: u32, payload: Seq<u8>) -> Seq<u8> {
    seq![data_type] + u32_le(seq_number) + seq![payload.len() as u8] + payload
}

/// The serialized frame: start marker, data type, sequence number (least
/// significant byte first), payload length, payload, checksum, end marker.
pub open spec fn frame_bytes(data_type: u8, seq_number: u32, payload: Seq<u8>) -> Seq<u8> {
    seq![FRAME_START] + frame_body(data_type, seq_number, payload) + seq![
        checksum_of(frame_body(data_type, seq_number, payload)),
        FRAME_END,
    ]
}

/// The buffer starts with the start marker and holds the whole frame that
/// its length byte announces, end marker included. Bytes after the end
/// marker are allowed and ignored.
pub open spec fn frame_complete(b: Seq<u8>) -> bool {
    &&& b.len() >= 9
    &&& b.len() >= 9 + b[6]
    &&& b[0] == FRAME_START
    &&& b[8 + b[6]] == FRAME_END
}

/// What decoding a buffer gives: the frame, or the kind of the first fault
/// found. Structure is checked first, then the checksum, then the data type.
pub open spec fn parse_frame(b: Seq<u8>) -> Result<FrameView, ErrorKind> {
    let n = b[6] as int;
    let computed = checksum_of(b.subrange(1, 7 + n));
    if !frame_complete(b) {
        Err(ErrorKind::MalformedFrame)
    } else if computed != b[7 + n] {
        Err(ErrorKind::ChecksumMismatch { computed, received: b[7 + n] })
    } else {
        match DataType::from_code(b[1]) {
            None => Err(ErrorKind::UnsupportedDataType { code: b[1] }),
            Some(data_type) => Ok(
                FrameView {
                    data_type,
                    seq_number: u32_from_le(b.subrange(2, 6)),
                    payload_size: b[6],
                    payload: b.subrange(7, 7 + n),
                    checksum: b[7 + n],
                },
            ),
        }
    }
}

/// Serializes a frame. Fails exactly when the payload is longer than the
/// single length byte can say.
pub fn encode(data_type: DataType, seq_number: u32, payload: &[u8]) -> (r: Result<Vec<u8>, Error>)
    ensures
        r is Ok <==> payload@.len() <= 255,
        r matches Ok(v) ==> v@ == frame_bytes(data_type.spec_code(), seq_number, payload@),
        r matches Err(e) ==> e.kind == ErrorKind::InvalidFieldValue,
{
    if payload.len() > 255 {
        return Err(Error::new(ErrorKind::InvalidFieldValue, "payload longer than 255 bytes".to_owned()));
    }
    let mut bytes: Vec<u8> = Vec::new();
    bytes.push(FRAME_START);
    bytes.push(data_type.code());
    bytes.push((seq_number % 256) as u8);
    bytes.push((seq_number / 256 % 256) as u8);
    bytes.push((seq_number / 65536 % 256) as u8);
    bytes.push((seq_number / 16777216) as u8);
    bytes.push(payload.len() as u8);
    common::push_all(&mut bytes, payload);
    let sum = checksum(bytes.as_slice(), 1, bytes.len());
    proof {
        assert(bytes@.subrange(1, bytes@.len() as int) =~= frame_body(
            data_type.spec_code(),
            seq_number,
            payload@,
        ));
    }
    bytes.push(sum);
    bytes.push(FRAME_END);
    proof {
        assert(bytes@ =~= frame_bytes(data_type.spec_code(), seq_number, payload@));
    }
    Ok(bytes)
}

impl FrameView {
    /// The frame holds the length and the checksum that its serialization
    /// carries.
    pub open spec fn well_formed(self) -> bool {
        &&& self.payload.len() <= 255
        &&& self.payload_size as int == self.payload.len()
        &&& self.checksum == checksum_of(
            frame_body(self.data_type.spec_code(), self.seq_number, self.payload),
        )
    }
}

/// How many bytes the frame at the start of the buffer takes, once the
/// buffer holds all of it.
pub open spec fn frame_len_of(b: Seq<u8>) -> Option<usize> {
    if b.len() >= 7 && b.len() >= 9 + b[6] {
        Some((9 + b[6]) as usize)
    } else {
        None
    }
}

/// Tells a reader that collects bytes from a stream whether the frame at
/// the start of its buffer has arrived in full, and how long it is. The
/// length byte alone decides; the content is not checked.
pub fn frame_len(bytes: &[u8]) -> (r: Option<usize>)
    ensures
        r == frame_len_of(bytes@),
{
    if bytes.len() < 7 {
        return None;
    }
    let n: usize = bytes[6] as usize;
    if bytes.len() < 9 + n {
        None
    } else {
        Some(9 + n)
    }
}

impl SonyCommand {
    pub fn set_seq_number(&mut self, seq_number: u32)
        ensures
            final(self)@ == (FrameView { seq_number, ..old(self)@ }),
    {
        self.seq_number = seq_number;
    }

    /// Serializes the frame. The length byte and the checksum are computed
    /// from the payload; the fields of the same names are not consulted.
    pub fn try_into(self) -> (r: Result<Vec<u8>, Error>)
        ensures
            r is Ok <==> self.payload@.len() <= 255,
            r matches Ok(v) ==> v@ == frame_bytes(
                self.data_type.spec_code(),
                self.seq_number,
                self.payload@,
            ),
            r matches Err(e) ==> e.kind == ErrorKind::InvalidFieldValue,
    {
        encode(self.data_type, self.seq_number, self.payload.as_slice())
    }

    /// Parses the frame at the start of `bytes`.
    pub fn try_from(bytes: &[u8]) -> (r: Result<SonyCommand, Error>)
        ensures
            r matches Ok(f) ==> parse_frame(bytes@) == Ok::<FrameView, ErrorKind>(f@),
            r matches Err(e) ==> parse_frame(bytes@) == Err::<FrameView, ErrorKind>(e.kind),
            r matches Err(e) ==> (e.kind is ChecksumMismatch ==> e.data@ == bytes@),
    {
        if bytes.len() < 9 {
            return Err(Error::new(ErrorKind::MalformedFrame, "buffer shorter than a frame".to_owned()));
        }
        let payload_size: u8 = bytes[6];
        let n: usize = payload_size as usize;
        if bytes.len() < 9 + n {
            return Err(Error::new(ErrorKind::MalformedFrame, "buffer shorter than its payload length".to_owned()));
        }
        if bytes[0] != FRAME_START || bytes[8 + n] != FRAME_END {
            return Err(Error::new(ErrorKind::MalformedFrame, "frame delimiter missing".to_owned()));
        }
        let received: u8 = bytes[7 + n];
        let computed: u8 = checksum(bytes, 1, 7 + n);
        if computed != received {
            let data = common::copy_range(bytes, 0, bytes.len());
            assert(bytes@.subrange(0, bytes@.len() as int) =~= bytes@);
            return Err(
                Error::with_data(
                    ErrorKind::ChecksumMismatch { computed, received },
                    "checksum mismatch".to_owned(),
                    data,
                ),
            );
        }
        let data_type = match DataType::try_from(bytes[1]) {
            Ok(d) => d,
            Err(code) => {
                return Err(Error::new(ErrorKind::UnsupportedDataType { code }, "unsupported data type".to_owned()));
            },
        };
        let seq_number: u32 = bytes[2] as u32 + 256 * (bytes[3] as u32) + 65536 * (bytes[4] as u32)
            + 16777216 * (bytes[5] as u32);
        let payload = common::copy_range(bytes, 7, 7 + n);
        Ok(SonyCommand { data_type, seq_number, payload_size, payload, checksum: received })
    }
}

/// Replacing one byte changes the sum by the difference of the two bytes.
pub proof fn lemma_byte_sum_update(s: Seq<u8>, i: int, v: u8)
    requires
        0 <= i < s.len(),
    ensures
        byte_sum(s.update(i, v)) == byte_sum(s) - s[i] as int + v as int,
    decreases s.len(),
{
    let t = s.update(i, v);
    if i == s.len() - 1 {
        assert(t.drop_last() =~= s.drop_last());
    } else {
        assert(t.drop_last() =~= s.drop_last().update(i, v));
        lemma_byte_sum_update(s.drop_last(), i, v);
    }
}

/// Splitting a number into its four bytes and joining them gives the
/// number back.
pub proof fn lemma_u32_le_round_trip(x: u32)
    ensures
        u32_le(x).len() == 4,
        u32_from_le(u32_le(x)) == x,
{
}

/// Where each field lies in a serialized frame.
pub proof fn lemma_frame_layout(code: u8, seq_number: u32, payload: Seq<u8>)
    requires
        payload.len() <= 255,
    ensures
        ({
            let b = frame_bytes(code, seq_number, payload);
            let n = payload.len() as int;
            &&& b.len() == 9 + n
            &&& b[0] == FRAME_START
            &&& b[1] == code
            &&& b.subrange(2, 6) == u32_le(seq_number)
            &&& b[6] == n as u8
            &&& b.subrange(7, 7 + n) == payload
            &&& b.subrange(1, 7 + n) == frame_body(code, seq_number, payload)
            &&& b[7 + n] == checksum_of(frame_body(code, seq_number, payload))
            &&& b[8 + n] == FRAME_END
        }),
{
    let b = frame_bytes(code, seq_number, payload);
    let body = frame_body(code, seq_number, payload);
    let n = payload.len() as int;
    assert(u32_le(seq_number).len() == 4);
    assert(body.len() == 6 + n);
    assert(b.len() == 9 + n);
    assert(b.subrange(1, 7 + n) =~= body);
    assert(body.subrange(1, 5) =~= u32_le(seq_number));
    assert(b.subrange(2, 6) =~= body.subrange(1, 5));
    assert(body.subrange(6, 6 + n) =~= payload);
    assert(b.subrange(7, 7 + n) =~= body.subrange(6, 6 + n));
    assert(b[1] == body[0]);
    assert(b[6] == body[5]);
}

/// Decoding an encoded frame gives back the data type, the sequence number
/// and the payload that went in, with the length that the encoder wrote;
/// and the checksum of the decoded frame is the one that the encoder put
/// behind the payload.
pub proof fn lemma_frame_round_trip(data_type: DataType, seq_number: u32, payload: Seq<u8>)
    requires
        payload.len() <= 255,
    ensures
        parse_frame(frame_bytes(data_type.spec_code(), seq_number, payload)) == Ok::<
            FrameView,
            ErrorKind,
        >(
            FrameView {
                data_type,
                seq_number,
                payload_size: payload.len() as u8,
                payload,
                checksum: checksum_of(frame_body(data_type.spec_code(), seq_number, payload)),
            },
        ),
        frame_bytes(data_type.spec_code(), seq_number, payload)[7 + payload.len() as int]
            == checksum_of(frame_body(data_type.spec_code(), seq_number, payload)),
{
    lemma_frame_layout(data_type.spec_code(), seq_number, payload);
    lemma_u32_le_round_trip(seq_number);
    DataType::code_round_trip(data_type, 0);
}

/// A frame in which one byte of the data type, the sequence number, the
/// payload or the checksum was replaced by another value is rejected with
/// a checksum mismatch.
pub proof fn lemma_corruption_detected(
    data_type: DataType,
    seq_number: u32,
    payload: Seq<u8>,
    i: int,
    v: u8,
)
    requires
        payload.len() <= 255,
        1 <= i < 8 + payload.len(),
        i != 6,
        v != frame_bytes(data_type.spec_code(), seq_number, payload)[i],
    ensures
        parse_frame(
            frame_bytes(data_type.spec_code(), seq_number, payload).update(i, v),
        ) matches Err(ErrorKind::ChecksumMismatch { .. }),
{
    let code = data_type.spec_code();
    let b = frame_bytes(code, seq_number, payload);
    let body = frame_body(code, seq_number, payload);
    let n = payload.len() as int;
    let c = b.update(i, v);
    lemma_frame_layout(code, seq_number, payload);
    assert(c[6] == b[6]);
    assert(frame_complete(c));
    if i == 7 + n {
        assert(c.subrange(1, 7 + n) =~= body);
    } else {
        assert(c.subrange(1, 7 + n) =~= body.update(i - 1, v));
        lemma_byte_sum_update(body, i - 1, v);
        assert(body[i - 1] == b[i]);
    }
}

/// A frame whose start or end marker was replaced by another value is
/// rejected as malformed.
pub proof fn lemma_delimiter_checked(
    data_type: DataType,
    seq_number: u32,
    payload: Seq<u8>,
    i: int,
    v: u8,
)
    requires
        payload.len() <= 255,
        i == 0 || i == 8 + payload.len(),
        v != frame_bytes(data_type.spec_code(), seq_number, payload)[i],
    ensures
        parse_frame(frame_bytes(data_type.spec_code(), seq_number, payload).update(i, v)) == Err::<
            FrameView,
            ErrorKind,
        >(ErrorKind::MalformedFrame),
{
    let b = frame_bytes(data_type.spec_code(), seq_number, payload);
    let c = b.update(i, v);
    lemma_frame_layout(data_type.spec_code(), seq_number, payload);
    assert(c[6] == b[6]);
}

/// A frame whose length byte was replaced by another value is rejected, or
/// decodes to a frame of that other length: it never passes for the frame
/// that was sent.
pub proof fn lemma_length_checked(data_type: DataType, seq_number: u32, payload: Seq<u8>, v: u8)
    requires
        payload.len() <= 255,
        v as int != payload.len(),
    ensures
        parse_frame(frame_bytes(data_type.spec_code(), seq_number, payload).update(6, v))
            matches Ok(frame) ==> frame.payload_size == v && frame.payload.len() == v,
{
    lemma_frame_layout(data_type.spec_code(), seq_number, payload);
}

/// Joining four bytes into a number and splitting it gives the bytes back.
pub proof fn lemma_u32_join_split(four: Seq<u8>)
    requires
        four.len() == 4,
    ensures
        u32_le(u32_from_le(four)) == four,
{
    let b0 = four[0] as int;
    let b1 = four[1] as int;
    let b2 = four[2] as int;
    let b3 = four[3] as int;
    let x = b0 + 256 * b1 + 65536 * b2 + 16777216 * b3;
    assert(0 <= x < 0x1_0000_0000);
    assert(x / 256 == b1 + 256 * b2 + 65536 * b3);
    assert(x % 256 == b0);
    assert(x / 65536 == b2 + 256 * b3);
    assert(x / 256 % 256 == b1);
    assert(x / 16777216 == b3);
    assert(x / 65536 % 256 == b2);
    assert(u32_from_le(four) as int == x);
    assert(u32_le(u32_from_le(four)) =~= four);
}

/// A decoded frame is well formed, and serializing it gives back the
/// bytes it was decoded from, up to the end marker.
pub proof fn lemma_decode_then_encode(b: Seq<u8>)
    requires
        parse_frame(b) is Ok,
    ensures
        ({
            let frame = parse_frame(b)->Ok_0;
            &&& frame.well_formed()
            &&& frame_bytes(frame.data_type.spec_code(), frame.seq_number, frame.payload)
                == b.subrange(0, 9 + b[6])
        }),
{
    let frame = parse_frame(b)->Ok_0;
    let n = b[6] as int;
    let code = frame.data_type.spec_code();
    DataType::code_round_trip(frame.data_type, b[1]);
    assert(code == b[1]);
    let four = b.subrange(2, 6);
    lemma_u32_join_split(four);
    assert(frame.payload.len() == n);
    let body = frame_body(code, frame.seq_number, frame.payload);
    assert(body =~= b.subrange(1, 7 + n)) by {
        assert(body.len() == 6 + n);
        assert forall|k: int| 0 <= k < 6 + n implies body[k] == b[k + 1] by {
            if 1 <= k < 5 {
                assert(body[k] == four[k - 1]);
            }
        }
    }
    let out = frame_bytes(code, frame.seq_number, frame.payload);
    assert(out =~= b.subrange(0, 9 + n)) by {
        assert(out.len() == 9 + n);
        assert forall|k: int| 0 <= k < 9 + n implies out[k] == b[k] by {
            if 1 <= k < 7 + n {
                assert(out[k] == body[k - 1]);
            }
        }
    }
}

} // verus!
