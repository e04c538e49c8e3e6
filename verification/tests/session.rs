use sony_headphone_ctl::commands::mdr2::registered_devices::Device;
use sony_headphone_ctl::devices::session::{
    ack_frame, raw_frame, registry_request, reply_event, state_event, Action, Event, Phase, Policy,
    SendState, ACK_TIMEOUT_MS, MAX_ATTEMPTS,
};
use sony_headphone_ctl::devices::wf1000xm4::encode as encode_message;
use sony_headphone_ctl::devices::{same_bytes, same_device, same_devices, same_message, Anc, DeviceMessage};
use sony_headphone_ctl::Mac;
use sony_headphone_ctl::{encode, DataType, ErrorKind};

const STRICT: Policy = Policy { best_effort: false, confirm: false, bump_sequence: false };
const BEST_EFFORT: Policy = Policy { best_effort: true, confirm: false, bump_sequence: false };
const CONFIRM: Policy = Policy { best_effort: false, confirm: true, bump_sequence: true };

/// Runs a request against a stream that answers each wait with the next
/// reply of `replies` and takes every write; returns the end state and the
/// number of writes.
fn drive(policy: Policy, replies: &[Event]) -> (SendState, usize) {
    let mut writes = 0;
    let mut next = 0;
    let (mut state, mut action) = SendState::new().step(policy, Event::Begin);
    loop {
        let event = match action {
            Action::Write => {
                writes += 1;
                Event::Written
            }
            Action::AwaitReply | Action::ReadState => {
                let e = replies.get(next).copied().unwrap_or(Event::TimedOut);
                next += 1;
                e
            }
            Action::Stop | Action::Ignore => return (state, writes),
        };
        let (s, a) = state.step(policy, event);
        state = s;
        action = a;
    }
}

#[test]
fn silent_transport_gets_three_attempts() {
    let (state, writes) = drive(STRICT, &[]);
    assert_eq!(writes, 3);
    assert_eq!(state.attempts, MAX_ATTEMPTS);
    assert_eq!(state.phase, Phase::Failed(ErrorKind::NoAcknowledgement));
}

#[test]
fn silent_transport_under_best_effort_is_assumed() {
    let (state, writes) = drive(BEST_EFFORT, &[]);
    assert_eq!(writes, 3);
    assert_eq!(state.phase, Phase::Assumed);
}

#[test]
fn acknowledgement_ends_the_request() {
    let (state, writes) = drive(STRICT, &[Event::Acknowledged]);
    assert_eq!(writes, 1);
    assert_eq!(state, SendState { phase: Phase::Acked, attempts: 1 });
    let (state, writes) = drive(STRICT, &[Event::TimedOut, Event::NotAcknowledged, Event::Acknowledged]);
    assert_eq!(writes, 3);
    assert_eq!(state.phase, Phase::Acked);
}

#[test]
fn malformed_reply_aborts_without_retry() {
    let (state, writes) = drive(BEST_EFFORT, &[Event::Malformed]);
    assert_eq!(writes, 1);
    assert_eq!(state.phase, Phase::Failed(ErrorKind::MalformedFrame));
    let (state, writes) = drive(STRICT, &[Event::ReadFailed]);
    assert_eq!(writes, 1);
    assert_eq!(state.phase, Phase::Failed(ErrorKind::TransportFailure));
}

#[test]
fn failed_writes_are_retried() {
    let mut state = SendState::new();
    let mut action;
    (state, action) = state.step(STRICT, Event::Begin);
    assert_eq!(action, Action::Write);
    (state, action) = state.step(STRICT, Event::WriteFailed);
    assert_eq!((state.attempts, action), (2, Action::Write));
    (state, action) = state.step(STRICT, Event::WriteFailed);
    assert_eq!((state.attempts, action), (3, Action::Write));
    (state, action) = state.step(BEST_EFFORT, Event::WriteFailed);
    assert_eq!(action, Action::Stop);
    assert_eq!(state.phase, Phase::Failed(ErrorKind::TransportFailure));
}

#[test]
fn confirmation_reads_the_state_back() {
    let (state, _) = drive(CONFIRM, &[Event::Acknowledged, Event::StateRead { matches: true }]);
    assert_eq!(state.phase, Phase::Confirmed);
    let (state, writes) = drive(CONFIRM, &[Event::Acknowledged, Event::StateRead { matches: false }]);
    assert_eq!(state.phase, Phase::Mismatch);
    assert_eq!(writes, 1);
    let (state, _) = drive(CONFIRM, &[Event::Acknowledged]);
    assert_eq!(state.phase, Phase::Failed(ErrorKind::NoAcknowledgement));
    let rejected = Event::Rejected { kind: ErrorKind::MalformedFrame };
    let (state, _) = drive(CONFIRM, &[Event::Acknowledged, rejected]);
    assert_eq!(state.phase, Phase::Failed(ErrorKind::MalformedFrame));
    let (state, _) = drive(CONFIRM, &[Event::Acknowledged, Event::ReadFailed]);
    assert_eq!(state.phase, Phase::Failed(ErrorKind::TransportFailure));
}

#[test]
fn unexpected_events_change_nothing() {
    let idle = SendState::new();
    assert_eq!(idle.step(STRICT, Event::Acknowledged), (idle, Action::Ignore));
    let done = SendState { phase: Phase::Acked, attempts: 1 };
    for event in [Event::Begin, Event::Written, Event::TimedOut, Event::Acknowledged] {
        assert_eq!(done.step(STRICT, event), (done, Action::Ignore));
    }
}

#[test]
fn replies_are_classified() {
    let ack = encode(DataType::Ack, 0, &[]).unwrap();
    assert_eq!(reply_event(&ack), Event::Acknowledged);
    let other = encode(DataType::DataMdr, 0, &[0xe9, 0x01, 0x01]).unwrap();
    assert_eq!(reply_event(&other), Event::NotAcknowledged);
    let mut corrupt = ack.clone();
    corrupt[7] ^= 1;
    assert_eq!(reply_event(&corrupt), Event::NotAcknowledged);
    assert_eq!(reply_event(&ack[..5]), Event::Malformed);
    assert_eq!(reply_event(&[]), Event::Malformed);
}

#[test]
fn reference_values() {
    assert_eq!(MAX_ATTEMPTS, 3);
    assert_eq!(ACK_TIMEOUT_MS, 1000);
}

#[test]
fn acknowledgement_frame() {
    let bytes = ack_frame().try_into().unwrap();
    assert_eq!(bytes, vec![0x3e, 0x01, 0, 0, 0, 0, 0, 0x01, 0x3c]);
}

#[test]
fn raw_frames() {
    let frame = raw_frame(DataType::DataMdr, vec![1, 2]).unwrap();
    assert_eq!(frame.payload_size, 2);
    assert_eq!(frame.payload, vec![1, 2]);
    assert_eq!(raw_frame(DataType::Data, vec![0; 256]).unwrap_err().kind, ErrorKind::InvalidFieldValue);
}

#[test]
fn state_read_back_is_compared() {
    let requested = DeviceMessage::Anc(Anc::NoiseCanceling { wind: true });
    let same = encode_message(requested.clone()).unwrap().try_into().unwrap();
    assert_eq!(state_event(&requested, &same), Event::StateRead { matches: true });
    let other = encode_message(DeviceMessage::Anc(Anc::Off)).unwrap().try_into().unwrap();
    assert_eq!(state_event(&requested, &other), Event::StateRead { matches: false });
    assert_eq!(
        state_event(&requested, &same[..6]),
        Event::Rejected { kind: ErrorKind::MalformedFrame }
    );
    let unknown = encode(DataType::DataMdr, 0, &[0x12, 0x34, 0x00]).unwrap();
    assert_eq!(
        state_event(&requested, &unknown),
        Event::Rejected { kind: ErrorKind::UnsupportedMessageCode { message_code: 0x1234 } }
    );
}

#[test]
fn messages_are_compared_by_content() {
    let device = |name: &str, last: u8| Device { mac: Mac { bytes: [1, 2, 3, 4, 5, last] }, name: name.to_string() };
    assert!(same_device(&device("a", 1), &device("a", 1)));
    assert!(!same_device(&device("a", 1), &device("b", 1)));
    assert!(!same_device(&device("a", 1), &device("a", 2)));
    assert!(same_devices(&vec![device("a", 1), device("b", 2)], &vec![device("a", 1), device("b", 2)]));
    assert!(!same_devices(&vec![device("a", 1), device("b", 2)], &vec![device("b", 2), device("a", 1)]));
    assert!(!same_devices(&vec![device("a", 1)], &vec![]));
    assert!(same_bytes(&[1, 2], &[1, 2]));
    assert!(!same_bytes(&[1, 2], &[1, 3]));
    assert!(!same_bytes(&[1, 2], &[1]));
    assert!(same_message(&DeviceMessage::Dsee(true), &DeviceMessage::Dsee(true)));
    assert!(!same_message(&DeviceMessage::Dsee(true), &DeviceMessage::Dsee(false)));
    assert!(!same_message(&DeviceMessage::Dsee(true), &DeviceMessage::WearDetection(true)));
    assert!(same_message(&DeviceMessage::Ack(), &DeviceMessage::Ack()));
    assert!(same_message(&DeviceMessage::Unknown(vec![1]), &DeviceMessage::Unknown(vec![1])));
    assert!(same_message(
        &DeviceMessage::RegisteredDevices(vec![device("a", 1)]),
        &DeviceMessage::RegisteredDevices(vec![device("a", 1)])
    ));
}

#[test]
fn registry_request_frame() {
    let bytes = registry_request().try_into().unwrap();
    assert_eq!(bytes, vec![0x3e, 0x0e, 0, 0, 0, 0, 3, 0x00, 0x00, 0x11, 0x22, 0x3c]);
}

#[test]
fn sequence_numbers_per_attempt() {
    let third = SendState { phase: Phase::Sent, attempts: 3 };
    assert_eq!(third.sequence(STRICT, 40), 40);
    assert_eq!(third.sequence(CONFIRM, 40), 42);
    assert_eq!(third.sequence(CONFIRM, u32::MAX), 1);
    assert_eq!(SendState::new().sequence(CONFIRM, 40), 40);
    let first = SendState { phase: Phase::Sent, attempts: 1 };
    assert_eq!(first.sequence(CONFIRM, 40), 40);
}
