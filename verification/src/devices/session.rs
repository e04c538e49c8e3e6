//! The decisions of the acknowledgement protocol. The caller performs each
//! action on the stream and reports what happened as the next event.

use vstd::prelude::*;

use crate::common::{Error, ErrorKind};
use crate::devices::wf1000xm4::{decode, decoded_message};
use crate::devices::{same_message, DeviceMessage};
use crate::{parse_frame, DataType, FrameView, SonyCommand};

verus! {

/// How often a request is written before the sender gives up.
pub const MAX_ATTEMPTS: u8 = 3;

/// How long the sender waits for an acknowledgement, in milliseconds.
pub const ACK_TIMEOUT_MS: u64 = 1000;

/// Where a request stands.
#[derive(Debug, Clone, Copy, PartialEq, Eq, Structural)]
pub enum Phase {
    /// Nothing was written yet.
    Idle,
    /// The request is being written.
    Sent,
    /// The request was written and the reply is awaited.
    AwaitingAck,
    /// The request was acknowledged and the state of the device is being
    /// read back.
    AwaitingState,
    /// Finished: acknowledged by the device.
    Acked,
    /// Finished: acknowledged, and the state read back is the one requested.
    Confirmed,
    /// Finished: acknowledged, but the state read back differs.
    Mismatch,
    /// Finished: never acknowledged, and taken as delivered all the same.
    Assumed,
    /// Finished with an error.
    Failed(ErrorKind),
}

/// A request in flight: its phase, and how often it was written so far.
#[derive(Debug, Clone, Copy, PartialEq, Eq, Structural)]
pub struct SendState {
    pub phase: Phase,
    pub attempts: u8,
}

/// What the caller observed on the stream.
#[derive(Debug, Clone, Copy, PartialEq, Eq, Structural)]
pub enum Event {
    /// The caller wants the request sent.
    Begin,
    /// The write went through.
    Written,
    /// The write failed.
    WriteFailed,
    /// The reply is an acknowledgement.
    Acknowledged,
    /// The reply is a frame of another kind, or fails its checksum, or has
    /// an unknown data type.
    NotAcknowledged,
    /// The reply is no frame at all.
    Malformed,
    /// No reply came within the timeout.
    TimedOut,
    /// The read failed.
    ReadFailed,
    /// The state of the device was read back, and is or is not the one
    /// requested.
    StateRead { matches: bool },
    /// What was read back in place of the state could not be decoded.
    Rejected { kind: ErrorKind },
}

/// What the caller is to do next.
#[derive(Debug, Clone, Copy, PartialEq, Eq, Structural)]
pub enum Action {
    /// Write the request to the stream.
    Write,
    /// Wait for a reply, up to the timeout.
    AwaitReply,
    /// Read the state of the device.
    ReadState,
    /// Nothing more to do: the request is finished.
    Stop,
    /// The event was not expected in this phase and changes nothing.
    Ignore,
}

/// What the caller chose for this request.
#[derive(Debug, Clone, Copy, PartialEq, Eq, Structural)]
pub struct Policy {
    /// When every attempt went unacknowledged, take the request as
    /// delivered instead of failing.
    pub best_effort: bool,
    /// After the acknowledgement, read the state of the device back.
    pub confirm: bool,
    /// Give every further attempt the next sequence number, instead of
    /// repeating the first one.
    pub bump_sequence: bool,
}

impl Phase {
    /// The request is finished, one way or the other.
    pub open spec fn finished(self) -> bool {
        self is Acked || self is Confirmed || self is Mismatch || self is Assumed || self is Failed
    }
}

impl SendState {
    /// The state of a request that was not sent yet.
    pub fn new() -> (s: SendState)
        ensures
            s == (SendState { phase: Phase::Idle, attempts: 0 }),
    {
        SendState { phase: Phase::Idle, attempts: 0 }
    }

    /// The next state after an attempt failed for the reason `kind`: one
    /// more write while attempts are left; after the last one, the request
    /// fails with `kind`, or, when only the acknowledgement is missing and
    /// the policy allows it, counts as delivered.
    pub open spec fn after_failure(self, policy: Policy, kind: ErrorKind) -> (SendState, Action) {
        if self.attempts < MAX_ATTEMPTS {
            (SendState { phase: Phase::Sent, attempts: (self.attempts + 1) as u8 }, Action::Write)
        } else if policy.best_effort && kind == ErrorKind::NoAcknowledgement {
            (SendState { phase: Phase::Assumed, attempts: self.attempts }, Action::Stop)
        } else {
            (SendState { phase: Phase::Failed(kind), attempts: self.attempts }, Action::Stop)
        }
    }

    /// The transition function. A missing acknowledgement and a failed
    /// write are retried; a reply that is no frame, and a failed read, end
    /// the request at once. While the state is read back nothing is
    /// retried: whatever comes ends the request.
    pub open spec fn next(self, policy: Policy, event: Event) -> (SendState, Action) {
        let stop = |phase: Phase| (SendState { phase, attempts: self.attempts }, Action::Stop);
        match (self.phase, event) {
            (Phase::Idle, Event::Begin) => self.after_failure(policy, ErrorKind::NoAcknowledgement),
            (Phase::Sent, Event::Written) => (
                SendState { phase: Phase::AwaitingAck, attempts: self.attempts },
                Action::AwaitReply,
            ),
            (Phase::Sent, Event::WriteFailed) => self.after_failure(
                policy,
                ErrorKind::TransportFailure,
            ),
            (Phase::AwaitingAck, Event::Acknowledged) => if policy.confirm {
                (SendState { phase: Phase::AwaitingState, attempts: self.attempts }, Action::ReadState)
            } else {
                stop(Phase::Acked)
            },
            (Phase::AwaitingAck, Event::NotAcknowledged) => self.after_failure(
                policy,
                ErrorKind::NoAcknowledgement,
            ),
            (Phase::AwaitingAck, Event::TimedOut) => self.after_failure(
                policy,
                ErrorKind::NoAcknowledgement,
            ),
            (Phase::AwaitingAck, Event::Malformed) => stop(Phase::Failed(ErrorKind::MalformedFrame)),
            (Phase::AwaitingAck, Event::ReadFailed) => stop(
                Phase::Failed(ErrorKind::TransportFailure),
            ),
            (Phase::AwaitingState, Event::StateRead { matches }) => if matches {
                stop(Phase::Confirmed)
            } else {
                stop(Phase::Mismatch)
            },
            (Phase::AwaitingState, Event::Rejected { kind }) => stop(Phase::Failed(kind)),
            (Phase::AwaitingState, Event::ReadFailed) => stop(
                Phase::Failed(ErrorKind::TransportFailure),
            ),
            (Phase::AwaitingState, Event::TimedOut) => stop(
                Phase::Failed(ErrorKind::NoAcknowledgement),
            ),
            _ => (self, Action::Ignore),
        }
    }

    /// The sequence number under which the attempt in progress is written:
    /// the first one, or, where the policy asks for it, the first one plus
    /// the number of attempts before this one, wrapping around.
    pub open spec fn spec_sequence(self, policy: Policy, first: u32) -> u32 {
        if policy.bump_sequence && self.attempts > 0 {
            ((first + self.attempts - 1) % 0x1_0000_0000) as u32
        } else {
            first
        }
    }

    #[verifier::when_used_as_spec(spec_sequence)]
    pub fn sequence(self, policy: Policy, first: u32) -> (seq_number: u32)
        ensures
            seq_number == self.spec_sequence(policy, first),
    {
        if policy.bump_sequence && self.attempts > 0 {
            ((first as u64 + (self.attempts - 1) as u64) % 0x1_0000_0000) as u32
        } else {
            first
        }
    }

    fn after_failure_exec(self, policy: Policy, kind: ErrorKind) -> (r: (SendState, Action))
        ensures
            r == self.after_failure(policy, kind),
    {
        if self.attempts < MAX_ATTEMPTS {
            (SendState { phase: Phase::Sent, attempts: self.attempts + 1 }, Action::Write)
        } else if policy.best_effort && kind == ErrorKind::NoAcknowledgement {
            (SendState { phase: Phase::Assumed, attempts: self.attempts }, Action::Stop)
        } else {
            (SendState { phase: Phase::Failed(kind), attempts: self.attempts }, Action::Stop)
        }
    }

    /// Takes one event and says what state follows and what to do next.
    pub fn step(self, policy: Policy, event: Event) -> (r: (SendState, Action))
        ensures
            r == self.next(policy, event),
    {
        let attempts = self.attempts;
        match (self.phase, event) {
            (Phase::Idle, Event::Begin) => self.after_failure_exec(
                policy,
                ErrorKind::NoAcknowledgement,
            ),
            (Phase::Sent, Event::Written) => (
                SendState { phase: Phase::AwaitingAck, attempts },
                Action::AwaitReply,
            ),
            (Phase::Sent, Event::WriteFailed) => self.after_failure_exec(
                policy,
                ErrorKind::TransportFailure,
            ),
            (Phase::AwaitingAck, Event::Acknowledged) => if policy.confirm {
                (SendState { phase: Phase::AwaitingState, attempts }, Action::ReadState)
            } else {
                (SendState { phase: Phase::Acked, attempts }, Action::Stop)
            },
            (Phase::AwaitingAck, Event::NotAcknowledged) => self.after_failure_exec(
                policy,
                ErrorKind::NoAcknowledgement,
            ),
            (Phase::AwaitingAck, Event::TimedOut) => self.after_failure_exec(
                policy,
                ErrorKind::NoAcknowledgement,
            ),
            (Phase::AwaitingAck, Event::Malformed) => (
                SendState { phase: Phase::Failed(ErrorKind::MalformedFrame), attempts },
                Action::Stop,
            ),
            (Phase::AwaitingAck, Event::ReadFailed) => (
                SendState { phase: Phase::Failed(ErrorKind::TransportFailure), attempts },
                Action::Stop,
            ),
            (Phase::AwaitingState, Event::StateRead { matches }) => if matches {
                (SendState { phase: Phase::Confirmed, attempts }, Action::Stop)
            } else {
                (SendState { phase: Phase::Mismatch, attempts }, Action::Stop)
            },
            (Phase::AwaitingState, Event::Rejected { kind }) => (
                SendState { phase: Phase::Failed(kind), attempts },
                Action::Stop,
            ),
            (Phase::AwaitingState, Event::ReadFailed) => (
                SendState { phase: Phase::Failed(ErrorKind::TransportFailure), attempts },
                Action::Stop,
            ),
            (Phase::AwaitingState, Event::TimedOut) => (
                SendState { phase: Phase::Failed(ErrorKind::NoAcknowledgement), attempts },
                Action::Stop,
            ),
            _ => (self, Action::Ignore),
        }
    }

    /// The state after a run of events.
    pub open spec fn run(self, policy: Policy, events: Seq<Event>) -> SendState
        decreases events.len(),
    {
        if events.len() == 0 {
            self
        } else {
            self.next(policy, events.first()).0.run(policy, events.drop_first())
        }
    }

    /// How many writes a run of events asks for.
    pub open spec fn writes(self, policy: Policy, events: Seq<Event>) -> nat
        decreases events.len(),
    {
        if events.len() == 0 {
            0
        } else {
            let (state, action) = self.next(policy, events.first());
            let one: nat = if action == Action::Write {
                1
            } else {
                0
            };
            one + state.writes(policy, events.drop_first())
        }
    }

    /// Whatever the stream does, a request is written at most three times:
    /// every write is counted, and the count never passes the bound.
    pub proof fn lemma_writes_bounded(self, policy: Policy, events: Seq<Event>)
        requires
            self.attempts <= MAX_ATTEMPTS,
        ensures
            self.run(policy, events).attempts == self.attempts + self.writes(policy, events),
            self.run(policy, events).attempts <= MAX_ATTEMPTS,
        decreases events.len(),
    {
        if events.len() > 0 {
            let state = self.next(policy, events.first()).0;
            state.lemma_writes_bounded(policy, events.drop_first());
        }
    }

    /// A finished request stays as it is, whatever is reported afterwards.
    pub proof fn lemma_finished_is_final(self, policy: Policy, event: Event)
        requires
            self.phase.finished(),
        ensures
            self.next(policy, event) == (self, Action::Ignore),
    {
    }

    /// Against a stream that takes every write and never replies, a request
    /// that is awaiting its acknowledgement is written again while attempts
    /// are left; after the third attempt it ends without acknowledgement,
    /// as a failure or, under the best-effort policy, as assumed.
    pub proof fn lemma_silent_stream(self, policy: Policy)
        requires
            self.phase == Phase::AwaitingAck,
            self.attempts <= MAX_ATTEMPTS,
        ensures
            self.attempts < MAX_ATTEMPTS ==> self.next(policy, Event::TimedOut) == (
                SendState { phase: Phase::Sent, attempts: (self.attempts + 1) as u8 },
                Action::Write,
            ),
            self.attempts == MAX_ATTEMPTS && !policy.best_effort ==> self.next(
                policy,
                Event::TimedOut,
            ) == (
                SendState {
                    phase: Phase::Failed(ErrorKind::NoAcknowledgement),
                    attempts: self.attempts,
                },
                Action::Stop,
            ),
            self.attempts == MAX_ATTEMPTS && policy.best_effort ==> self.next(
                policy,
                Event::TimedOut,
            ) == (SendState { phase: Phase::Assumed, attempts: self.attempts }, Action::Stop),
    {
    }
}

/// The event that a buffer read in reply amounts to.
pub open spec fn reply_of(bytes: Seq<u8>) -> Event {
    match parse_frame(bytes) {
        Ok(frame) => if frame.data_type == DataType::Ack {
            Event::Acknowledged
        } else {
            Event::NotAcknowledged
        },
        Err(ErrorKind::MalformedFrame) => Event::Malformed,
        Err(_) => Event::NotAcknowledged,
    }
}

/// Classifies the bytes read in reply to a request.
pub fn reply_event(bytes: &[u8]) -> (event: Event)
    ensures
        event == reply_of(bytes@),
{
    match SonyCommand::try_from(bytes) {
        Ok(frame) => match frame.data_type {
            DataType::Ack => Event::Acknowledged,
            _ => Event::NotAcknowledged,
        },
        Err(e) => match e.kind {
            ErrorKind::MalformedFrame => Event::Malformed,
            _ => Event::NotAcknowledged,
        },
    }
}

/// The event that a buffer read in place of the state amounts to: the
/// message it carries is compared with the one requested, and a buffer
/// that carries none is rejected for the reason found.
pub open spec fn state_of(requested: crate::devices::MessageView, bytes: Seq<u8>) -> Event {
    match parse_frame(bytes) {
        Err(kind) => Event::Rejected { kind },
        Ok(frame) => match decoded_message(frame) {
            Err(kind) => Event::Rejected { kind },
            Ok(message) => Event::StateRead { matches: message == requested },
        },
    }
}

/// Classifies the bytes read back after an acknowledged request.
pub fn state_event(requested: &DeviceMessage, bytes: &[u8]) -> (event: Event)
    ensures
        event == state_of(requested@, bytes@),
{
    let frame = match SonyCommand::try_from(bytes) {
        Ok(f) => f,
        Err(e) => {
            return Event::Rejected { kind: e.kind };
        },
    };
    match decode(frame) {
        Ok(message) => Event::StateRead { matches: same_message(&message, requested) },
        Err(e) => Event::Rejected { kind: e.kind },
    }
}

/// The frame that acknowledges whatever was received.
pub fn ack_frame() -> (frame: SonyCommand)
    ensures
        frame@ == (FrameView {
            data_type: DataType::Ack,
            seq_number: 0,
            payload_size: 0,
            payload: Seq::empty(),
            checksum: 0,
        }),
{
    SonyCommand {
        data_type: DataType::Ack,
        seq_number: 0,
        payload_size: 0,
        payload: Vec::new(),
        checksum: 0,
    }
}

/// The frame that asks the device for its registry: the registry layout
/// under the request code, with no records.
pub fn registry_request() -> (frame: SonyCommand)
    ensures
        frame@ == (FrameView {
            data_type: DataType::DataMdr2,
            seq_number: 0,
            payload_size: 3,
            payload: seq![0x00u8, 0x00u8, 0x11u8],
            checksum: 0,
        }),
{
    let mut payload: Vec<u8> = Vec::new();
    payload.push(0x00u8);
    payload.push(0x00u8);
    payload.push(0x11u8);
    assert(payload@ =~= seq![0x00u8, 0x00u8, 0x11u8]);
    SonyCommand { data_type: DataType::DataMdr2, seq_number: 0, payload_size: 3, payload, checksum: 0 }
}

/// A frame around raw payload bytes, for sending them as they are. Fails,
/// with an invalid field value, exactly when there are more than 255.
pub fn raw_frame(data_type: DataType, payload: Vec<u8>) -> (r: Result<SonyCommand, Error>)
    ensures
        r is Ok <==> payload@.len() <= 255,
        r matches Ok(frame) ==> frame@ == (FrameView {
            data_type,
            seq_number: 0,
            payload_size: payload@.len() as u8,
            payload: payload@,
            checksum: 0,
        }),
        r matches Err(e) ==> e.kind == ErrorKind::InvalidFieldValue,
{
    if payload.len() > 255 {
        return Err(Error::new(ErrorKind::InvalidFieldValue, "payload longer than 255 bytes".to_owned()));
    }
    Ok(
        SonyCommand {
            data_type,
            seq_number: 0,
            payload_size: payload.len() as u8,
            payload,
            checksum: 0,
        },
    )
}

} // verus!
