//! The list of devices that a headset is paired with.

use vstd::prelude::*;
use vstd::slice::slice_subrange;
use vstd::utf8::{decode_utf8, encode_utf8, valid_utf8};

use crate::common::{copy_range, push_all, Error, ErrorKind};
use crate::hexcode::{
    decode_hex, hex_pair, hex_upper, is_hex_digit, lemma_hex_round_trip, string_from_utf8,
    upper_digit,
};

verus! {

/// The header of a registry payload: the response code, then the length of
/// an address in text form.
pub open spec fn registry_header() -> Seq<u8> {
    seq![0x00u8, 0x01u8, 0x11u8]
}

/// A Bluetooth device address.
#[derive(Debug, Clone, Copy, PartialEq, Eq)]
pub struct Mac {
    pub bytes: [u8; 6],
}

/// One paired device.
#[derive(Debug, Clone)]
pub struct Device {
    pub mac: Mac,
    pub name: String,
}

/// A paired device as a mathematical value.
pub struct DeviceView {
    pub mac: Seq<u8>,
    pub name: Seq<char>,
}

impl View for Device {
    type V = DeviceView;

    open spec fn view(&self) -> DeviceView {
        DeviceView { mac: self.mac.bytes@, name: self.name@ }
    }
}

impl DeepView for Device {
    type V = DeviceView;

    open spec fn deep_view(&self) -> DeviceView {
        self@
    }
}

/// The registry as a list of devices.
#[derive(Debug, Clone)]
pub struct RegisteredDevices {
    pub devices: Vec<Device>,
}

impl View for RegisteredDevices {
    type V = Seq<DeviceView>;

    open spec fn view(&self) -> Seq<DeviceView> {
        self.devices.deep_view()
    }
}

/// An address as text: six groups of two upper-case hexadecimal digits,
/// with a colon between groups. Seventeen bytes.
pub open spec fn mac_text(mac: Seq<u8>) -> Seq<u8> {
    Seq::new(
        17,
        |i: int|
            if i % 3 == 2 {
                0x3au8
            } else if i % 3 == 0 {
                hex_upper(mac[i / 3] / 16)
            } else {
                hex_upper(mac[i / 3] % 16)
            },
    )
}

/// Group `g` at the start of `b` is two hexadecimal digits.
pub open spec fn group_valid(b: Seq<u8>, g: int) -> bool {
    is_hex_digit(b[3 * g]) && is_hex_digit(b[3 * g + 1])
}

/// The six groups at the start of `b` are all hexadecimal.
pub open spec fn mac_groups_valid(b: Seq<u8>) -> bool {
    forall|g: int| 0 <= g < 6 ==> #[trigger] group_valid(b, g)
}

/// The address that the six groups at the start of `b` spell. The byte
/// after each group is not looked at.
pub open spec fn mac_of_text(b: Seq<u8>) -> Seq<u8> {
    Seq::new(6, |g: int| hex_pair(b[3 * g], b[3 * g + 1]))
}

/// A device can be written down: its address has six bytes and its name,
/// encoded, fits the one-byte length.
pub open spec fn device_encodable(d: DeviceView) -> bool {
    d.mac.len() == 6 && encode_utf8(d.name).len() <= 255
}

/// Every device of the list can be written down.
pub open spec fn registry_encodable(ds: Seq<DeviceView>) -> bool {
    forall|k: int| 0 <= k < ds.len() ==> device_encodable(#[trigger] ds[k])
}

/// One record: the address as text, a zero byte, the length of the name in
/// bytes, the name.
pub open spec fn record_bytes(d: DeviceView) -> Seq<u8> {
    mac_text(d.mac) + seq![0x00u8, encode_utf8(d.name).len() as u8] + encode_utf8(d.name)
}

/// The records of a list of devices, one after the other.
pub open spec fn records_bytes(ds: Seq<DeviceView>) -> Seq<u8>
    decreases ds.len(),
{
    if ds.len() == 0 {
        Seq::empty()
    } else {
        record_bytes(ds.first()) + records_bytes(ds.drop_first())
    }
}

/// The whole payload: header, then the records.
pub open spec fn registry_bytes(ds: Seq<DeviceView>) -> Seq<u8> {
    registry_header() + records_bytes(ds)
}

/// The devices that a run of records spells, in the order met. A record
/// that runs past the end is malformed; an address that is not hexadecimal
/// or a name that is not UTF-8 is an invalid field value. The first fault
/// met is the one reported.
pub open spec fn parse_records(b: Seq<u8>) -> Result<Seq<DeviceView>, ErrorKind>
    decreases b.len(),
{
    if b.len() == 0 {
        Ok(Seq::empty())
    } else if b.len() < 19 || b.len() < 19 + b[18] {
        Err(ErrorKind::MalformedFrame)
    } else if !mac_groups_valid(b) || !valid_utf8(b.subrange(19, 19 + b[18])) {
        Err(ErrorKind::InvalidFieldValue)
    } else {
        match parse_records(b.subrange(19 + b[18], b.len() as int)) {
            Err(e) => Err(e),
            Ok(rest) => Ok(
                seq![
                    DeviceView {
                        mac: mac_of_text(b),
                        name: decode_utf8(b.subrange(19, 19 + b[18])),
                    },
                ] + rest,
            ),
        }
    }
}

/// What a registry payload says: after the three header bytes, which are
/// not looked at, a run of records.
pub open spec fn parse_registry(b: Seq<u8>) -> Result<Seq<DeviceView>, ErrorKind> {
    if b.len() < 3 {
        Err(ErrorKind::MalformedFrame)
    } else {
        parse_records(b.subrange(3, b.len() as int))
    }
}

/// Reads the group of two hexadecimal digits at `at`.
fn read_group(bytes: &[u8], at: usize) -> (r: Result<u8, Error>)
    requires
        at + 2 <= bytes@.len(),
    ensures
        r is Ok <==> is_hex_digit(bytes@[at as int]) && is_hex_digit(bytes@[at + 1]),
        r matches Ok(v) ==> v == hex_pair(bytes@[at as int], bytes@[at + 1]),
        r matches Err(e) ==> e.kind == ErrorKind::InvalidFieldValue,
{
    let len = bytes.len();
    let pair = slice_subrange(bytes, at, at + 2);
    assert(pair@[0] == bytes@[at as int] && pair@[1] == bytes@[at + 1]);
    match decode_hex(pair) {
        Ok(v) => {
            assert(v@.len() == 1);
            Ok(v[0])
        },
        Err(_) => {
            assert(!is_hex_digit(pair@[0]) || !is_hex_digit(pair@[1])) by {
                if is_hex_digit(pair@[0]) && is_hex_digit(pair@[1]) {
                    assert forall|i: int| 0 <= i < pair@.len() implies is_hex_digit(
                        #[trigger] pair@[i],
                    ) by {}
                }
            }
            Err(Error::new(ErrorKind::InvalidFieldValue, "address is not hexadecimal".to_owned()))
        },
    }
}

/// Reads the six groups of an address that starts at `at`.
fn read_mac(bytes: &[u8], at: usize) -> (r: Result<Mac, Error>)
    requires
        at + 18 <= bytes@.len(),
    ensures
        r is Ok <==> mac_groups_valid(bytes@.subrange(at as int, bytes@.len() as int)),
        r matches Ok(mac) ==> mac.bytes@ == mac_of_text(
            bytes@.subrange(at as int, bytes@.len() as int),
        ),
        r matches Err(e) ==> e.kind == ErrorKind::InvalidFieldValue,
{
    let len = bytes.len();
    let ghost b = bytes@.subrange(at as int, bytes@.len() as int);
    proof {
        assert forall|k: int| 0 <= k < 18 implies b[k] == bytes@[at + k] by {}
    }
    let m0 = match read_group(bytes, at) {
        Ok(v) => v,
        Err(e) => {
            assert(!group_valid(b, 0));
            return Err(e);
        },
    };
    let m1 = match read_group(bytes, at + 3) {
        Ok(v) => v,
        Err(e) => {
            assert(!group_valid(b, 1));
            return Err(e);
        },
    };
    let m2 = match read_group(bytes, at + 6) {
        Ok(v) => v,
        Err(e) => {
            assert(!group_valid(b, 2));
            return Err(e);
        },
    };
    let m3 = match read_group(bytes, at + 9) {
        Ok(v) => v,
        Err(e) => {
            assert(!group_valid(b, 3));
            return Err(e);
        },
    };
    let m4 = match read_group(bytes, at + 12) {
        Ok(v) => v,
        Err(e) => {
            assert(!group_valid(b, 4));
            return Err(e);
        },
    };
    let m5 = match read_group(bytes, at + 15) {
        Ok(v) => v,
        Err(e) => {
            assert(!group_valid(b, 5));
            return Err(e);
        },
    };
    let mac = Mac { bytes: [m0, m1, m2, m3, m4, m5] };
    proof {
        assert forall|g: int| 0 <= g < 6 implies #[trigger] group_valid(b, g) by {
            assert(g == 0 || g == 1 || g == 2 || g == 3 || g == 4 || g == 5);
        }
        assert(mac.bytes@ =~= mac_of_text(b));
    }
    Ok(mac)
}

/// An address as a string: the characters of its text form.
pub open spec fn mac_chars(mac: Seq<u8>) -> Seq<char> {
    Seq::new(17, |i: int| mac_text(mac)[i] as char)
}

impl Mac {
    /// The address as text, in bytes.
    pub fn to_text(&self) -> (text: Vec<u8>)
        ensures
            text@ == mac_text(self.bytes@),
    {
        let mut text: Vec<u8> = Vec::new();
        push_mac_text(&mut text, self);
        assert(text@ =~= mac_text(self.bytes@));
        text
    }

    /// The address as a string, such as `AA:BB:CC:DD:EE:FF`.
    pub fn to_string(&self) -> (s: String)
        ensures
            s@ == mac_chars(self.bytes@),
    {
        let text = self.to_text();
        proof {
            broadcast use
                vstd::utf8::is_ascii_chars_encode_utf8,
                vstd::utf8::encode_utf8_valid_utf8,
                vstd::utf8::encode_utf8_decode_utf8,
            ;

            let chars = mac_chars(self.bytes@);
            assert forall|i: int| 0 <= i < chars.len() implies '\0' <= #[trigger] chars[i]
                <= '\u{7f}' by {
                assert(mac_text(self.bytes@)[i] < 128);
            }
            assert(vstd::utf8::is_ascii_chars(chars));
            assert(encode_utf8(chars) =~= text@) by {
                assert forall|i: int| 0 <= i < chars.len() implies encode_utf8(chars)[i]
                    == text@[i] by {
                    assert(chars[i] as u8 == encode_utf8(chars)[i]);
                }
            }
            assert(valid_utf8(encode_utf8(chars)));
            assert(decode_utf8(encode_utf8(chars)) == chars);
        }
        match string_from_utf8(text) {
            Some(s) => s,
            None => String::new(),
        }
    }
}

/// Appends the text form of an address.
fn push_mac_text(out: &mut Vec<u8>, mac: &Mac)
    ensures
        final(out)@ == old(out)@ + mac_text(mac.bytes@),
{
    let m = &mac.bytes;
    let mut text: Vec<u8> = Vec::new();
    let mut g: usize = 0;
    while g < 6
        invariant
            g <= 6,
            text@.len() == 3 * g,
            forall|i: int| 0 <= i < text@.len() && i < 17 ==> text@[i] == mac_text(m@)[i],
        decreases 6 - g,
    {
        text.push(upper_digit(m[g] / 16));
        text.push(upper_digit(m[g] % 16));
        text.push(0x3au8);
        g += 1;
    }
    text.pop();
    assert(text@ =~= mac_text(m@));
    push_all(out, text.as_slice());
}

/// The records of a list with one more device at its end are the records
/// of the list, then the record of that device.
pub proof fn lemma_records_push(ds: Seq<DeviceView>, d: DeviceView)
    ensures
        records_bytes(ds.push(d)) == records_bytes(ds) + record_bytes(d),
    decreases ds.len(),
{
    if ds.len() == 0 {
        assert(ds.push(d).drop_first() =~= Seq::<DeviceView>::empty());
        assert(ds.push(d).first() == d);
        assert(records_bytes(ds.push(d).drop_first()) =~= Seq::<u8>::empty());
        assert(records_bytes(ds) =~= Seq::<u8>::empty());
        assert(records_bytes(ds.push(d)) =~= records_bytes(ds) + record_bytes(d));
    } else {
        let head = record_bytes(ds.first());
        let tail = records_bytes(ds.drop_first());
        assert(ds.push(d).drop_first() =~= ds.drop_first().push(d));
        assert(ds.push(d).first() == ds.first());
        lemma_records_push(ds.drop_first(), d);
        assert(records_bytes(ds.push(d)) == head + (tail + record_bytes(d)));
        assert(head + (tail + record_bytes(d)) =~= (head + tail) + record_bytes(d));
    }
}

/// A record followed by more records parses as its device followed by
/// what the rest parses as.
pub proof fn lemma_record_parses(d: DeviceView, rest: Seq<u8>)
    requires
        device_encodable(d),
    ensures
        parse_records(record_bytes(d) + rest) == match parse_records(rest) {
            Err(e) => Err::<Seq<DeviceView>, ErrorKind>(e),
            Ok(r) => Ok::<Seq<DeviceView>, ErrorKind>(seq![d] + r),
        },
{
    broadcast use vstd::utf8::encode_utf8_valid_utf8, vstd::utf8::encode_utf8_decode_utf8;

    let name = encode_utf8(d.name);
    let n = name.len() as int;
    let b = record_bytes(d) + rest;
    assert(b.len() == 19 + n + rest.len());
    assert(b[18] == n as u8);
    assert(b.subrange(19, 19 + n) =~= name);
    assert(b.subrange(19 + n, b.len() as int) =~= rest);
    assert forall|g: int| 0 <= g < 6 implies #[trigger] group_valid(b, g) && hex_pair(
        b[3 * g],
        b[3 * g + 1],
    ) == d.mac[g] by {
        assert(b[3 * g] == mac_text(d.mac)[3 * g]);
        assert(b[3 * g + 1] == mac_text(d.mac)[3 * g + 1]);
        lemma_hex_round_trip(d.mac[g]);
    }
    assert(mac_of_text(b) =~= d.mac);
}

/// Parsing the payload written for a list of devices gives the list back,
/// in the same order.
pub proof fn lemma_registry_round_trip(ds: Seq<DeviceView>)
    requires
        registry_encodable(ds),
    ensures
        parse_records(records_bytes(ds)) == Ok::<Seq<DeviceView>, ErrorKind>(ds),
        parse_registry(registry_bytes(ds)) == Ok::<Seq<DeviceView>, ErrorKind>(ds),
    decreases ds.len(),
{
    if ds.len() == 0 {
        assert(parse_records(records_bytes(ds)) == Ok::<Seq<DeviceView>, ErrorKind>(ds)) by {
            assert(ds =~= Seq::<DeviceView>::empty());
        }
    } else {
        let rest = ds.drop_first();
        assert forall|k: int| 0 <= k < rest.len() implies device_encodable(#[trigger] rest[k]) by {
            assert(rest[k] == ds[k + 1]);
        }
        lemma_registry_round_trip(rest);
        lemma_record_parses(ds.first(), records_bytes(rest));
        assert(seq![ds.first()] + rest =~= ds);
    }
    let b = registry_bytes(ds);
    assert(b.subrange(3, b.len() as int) =~= records_bytes(ds));
}

impl RegisteredDevices {
    /// Parses a registry payload.
    pub fn try_from(bytes: &[u8]) -> (r: Result<RegisteredDevices, Error>)
        ensures
            r matches Ok(reg) ==> parse_registry(bytes@) == Ok::<Seq<DeviceView>, ErrorKind>(reg@),
            r matches Err(e) ==> parse_registry(bytes@) == Err::<Seq<DeviceView>, ErrorKind>(
                e.kind,
            ),
    {
        let len = bytes.len();
        if len < 3 {
            return Err(Error::new(ErrorKind::MalformedFrame, "registry payload shorter than its header".to_owned()));
        }
        let mut devices: Vec<Device> = Vec::new();
        let mut i: usize = 3;
        proof {
            assert(devices.deep_view() =~= Seq::<DeviceView>::empty());
            match parse_records(bytes@.subrange(3, len as int)) {
                Ok(rest) => {
                    assert(devices.deep_view() + rest =~= rest);
                },
                Err(_) => {},
            }
        }
        while i < len
            invariant
                3 <= i <= len,
                len == bytes@.len(),
                parse_registry(bytes@) == match parse_records(bytes@.subrange(i as int, len as int)) {
                    Ok(rest) => Ok::<Seq<DeviceView>, ErrorKind>(devices.deep_view() + rest),
                    Err(e) => Err::<Seq<DeviceView>, ErrorKind>(e),
                },
            decreases len - i,
        {
            let ghost b = bytes@.subrange(i as int, len as int);
            if len - i < 19 {
                return Err(Error::new(ErrorKind::MalformedFrame, "registry record cut short".to_owned()));
            }
            let name_len: usize = bytes[i + 18] as usize;
            assert(b[18] == bytes@[i + 18]);
            if len - i < 19 + name_len {
                return Err(Error::new(ErrorKind::MalformedFrame, "registry name cut short".to_owned()));
            }
            let raw = copy_range(bytes, i + 19, i + 19 + name_len);
            assert(raw@ =~= b.subrange(19, 19 + b[18]));
            let mac = match read_mac(bytes, i) {
                Ok(m) => m,
                Err(e) => {
                    return Err(e);
                },
            };
            let name = match string_from_utf8(raw) {
                Some(s) => s,
                None => {
                    return Err(Error::new(ErrorKind::InvalidFieldValue, "registry name is not UTF-8".to_owned()));
                },
            };
            let ghost before = devices.deep_view();
            let device = Device { mac, name };
            let ghost d = device@;
            devices.push(device);
            let ghost next = (i + 19 + name_len) as int;
            proof {
                assert(devices.deep_view() =~= before.push(d));
                assert(bytes@.subrange(next, len as int) =~= b.subrange(19 + b[18], b.len() as int));
                match parse_records(bytes@.subrange(next, len as int)) {
                    Ok(rest) => {
                        assert(before + (seq![d] + rest) =~= before.push(d) + rest);
                    },
                    Err(_) => {},
                }
            }
            i = i + 19 + name_len;
        }
        proof {
            assert(bytes@.subrange(i as int, len as int) =~= Seq::<u8>::empty());
            assert(devices.deep_view() + Seq::<DeviceView>::empty() =~= devices.deep_view());
        }
        Ok(RegisteredDevices { devices })
    }

    /// Serializes the registry. Fails, with an invalid field value, exactly
    /// when some name is longer than 255 bytes.
    pub fn try_into(self) -> (r: Result<Vec<u8>, Error>)
        ensures
            r is Ok <==> registry_encodable(self@),
            r matches Ok(v) ==> v@ == registry_bytes(self@),
            r matches Err(e) ==> e.kind == ErrorKind::InvalidFieldValue,
    {
        let mut out: Vec<u8> = Vec::new();
        out.push(0x00u8);
        out.push(0x01u8);
        out.push(0x11u8);
        let mut k: usize = 0;
        assert(self@.subrange(0, 0) =~= Seq::<DeviceView>::empty());
        assert(out@ =~= registry_header() + records_bytes(self@.subrange(0, 0)));
        while k < self.devices.len()
            invariant
                k <= self.devices@.len(),
                self@.len() == self.devices@.len(),
                out@ == registry_header() + records_bytes(self@.subrange(0, k as int)),
                forall|j: int| 0 <= j < k ==> device_encodable(#[trigger] self@[j]),
            decreases self.devices@.len() - k,
        {
            let device = &self.devices[k];
            assert(device@ == self@[k as int]);
            let name = device.name.as_str().as_bytes();
            if name.len() > 255 {
                assert(!device_encodable(self@[k as int]));
                return Err(Error::new(ErrorKind::InvalidFieldValue, "device name longer than 255 bytes".to_owned()));
            }
            let ghost before = out@;
            push_mac_text(&mut out, &device.mac);
            out.push(0x00u8);
            out.push(name.len() as u8);
            push_all(&mut out, name);
            proof {
                assert(out@ =~= before + record_bytes(device@));
                lemma_records_push(self@.subrange(0, k as int), device@);
                assert(self@.subrange(0, k + 1) =~= self@.subrange(0, k as int).push(device@));
            }
            k += 1;
        }
        assert(self@.subrange(0, k as int) =~= self@);
        Ok(out)
    }
}

} // verus!
