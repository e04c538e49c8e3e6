//! The error type shared by every layer of the protocol stack.

use vstd::prelude::*;

verus! {

/// What went wrong, in a form that callers can match on.
#[derive(Debug, Clone, Copy, PartialEq, Eq, Structural)]
pub enum ErrorKind {
    /// The buffer or payload is too short for what it announces, or a frame
    /// delimiter is not where the layout puts it.
    MalformedFrame,
    /// The checksum recomputed over the frame differs from the one it carries.
    ChecksumMismatch { computed: u8, received: u8 },
    /// The data-type byte is none of the known codes.
    UnsupportedDataType { code: u8 },
    /// The two-byte message code is none of the known codes.
    UnsupportedMessageCode { message_code: u16 },
    /// A field holds a value outside its range, or one that cannot be
    /// written down in the space the layout gives it.
    InvalidFieldValue,
    /// Every attempt went unanswered.
    NoAcknowledgement,
    /// The underlying stream failed.
    TransportFailure,
}

/// An error with its kind, a short text for people, and the bytes it is
/// about (empty where there are none).
#[derive(Debug)]
pub struct Error {
    pub kind: ErrorKind,
    pub message: String,
    pub data: Vec<u8>,
}

impl Error {
    /// An error without attached bytes.
    pub fn new(kind: ErrorKind, message: String) -> (e: Error)
        ensures
            e.kind == kind,
            e.message == message,
            e.data@ == Seq::<u8>::empty(),
    {
        Error { kind, message, data: Vec::new() }
    }

    /// An error that carries the offending bytes.
    pub fn with_data(kind: ErrorKind, message: String, data: Vec<u8>) -> (e: Error)
        ensures
            e.kind == kind,
            e.message == message,
            e.data == data,
    {
        Error { kind, message, data }
    }
}

/// Copies `bytes[start..end]` into a fresh vector.
pub fn copy_range(bytes: &[u8], start: usize, end: usize) -> (out: Vec<u8>)
    requires
        start <= end <= bytes@.len(),
    ensures
        out@ == bytes@.subrange(start as int, end as int),
{
    let mut out: Vec<u8> = Vec::new();
    let mut i: usize = start;
    while i < end
        invariant
            start <= i <= end <= bytes@.len(),
            out@ == bytes@.subrange(start as int, i as int),
        decreases end - i,
    {
        out.push(bytes[i]);
        i += 1;
        assert(out@ =~= bytes@.subrange(start as int, i as int));
    }
    out
}

/// Appends every byte of `tail` to `out`.
pub fn push_all(out: &mut Vec<u8>, tail: &[u8])
    ensures
        final(out)@ == old(out)@ + tail@,
{
    let mut i: usize = 0;
    while i < tail.len()
        invariant
            i <= tail@.len(),
            out@ == old(out)@ + tail@.subrange(0, i as int),
        decreases tail@.len() - i,
    {
        out.push(tail[i]);
        i += 1;
        assert(out@ =~= old(out)@ + tail@.subrange(0, i as int));
    }
    assert(tail@.subrange(0, tail@.len() as int) =~= tail@);
}

} // verus!
