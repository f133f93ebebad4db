use bluenrg::transfer::{transfer_len, Phase, Reply, Step};
use bluenrg::write::WriteTransaction;
use bluenrg::{Error, Pending};

type Outcome = Result<(), Pending<Error<u8, ()>>>;

/// What the bus saw during one write.
struct Wire {
    trace: Vec<&'static str>,
    chip_low: bool,
    times_low: usize,
    exchanged: Vec<[u8; 5]>,
    sent: Vec<Vec<u8>>,
    sent_while_high: bool,
}

/// Runs one write against a radio that answers the handshake with
/// `handshake` and fails the write-only transfer number `fail_send`, if any.
fn run_write(
    header: &[u8],
    payload: &[u8],
    handshake: Result<[u8; 5], u8>,
    fail_send: Option<usize>,
) -> (Outcome, Wire) {
    let mut wire = Wire {
        trace: Vec::new(),
        chip_low: false,
        times_low: 0,
        exchanged: Vec::new(),
        sent: Vec::new(),
        sent_while_high: false,
    };
    let (mut txn, mut step) = WriteTransaction::<u8, ()>::begin(header, payload);
    assert_eq!(txn.current_phase(), Phase::Selecting);
    loop {
        let reply = match step {
            Step::Select => {
                wire.trace.push("select");
                if !wire.chip_low {
                    wire.times_low += 1;
                }
                wire.chip_low = true;
                Reply::Done
            }
            Step::Exchange(request) => {
                wire.trace.push("exchange");
                wire.sent_while_high |= !wire.chip_low;
                wire.exchanged.push(request);
                match handshake {
                    Ok(reply) => Reply::Exchanged(reply),
                    Err(e) => Reply::Fault(e),
                }
            }
            Step::Send(bytes) => {
                wire.trace.push("send");
                wire.sent_while_high |= !wire.chip_low;
                if fail_send == Some(wire.sent.len()) {
                    wire.sent.push(Vec::new());
                    Reply::Fault(0xEE)
                } else {
                    wire.sent.push(bytes.to_vec());
                    Reply::Done
                }
            }
            Step::Release => {
                wire.trace.push("release");
                wire.chip_low = false;
                Reply::Done
            }
            Step::Finished(outcome) => {
                wire.trace.push("finished");
                assert_eq!(txn.current_phase(), Phase::Finished);
                return (outcome, wire);
            }
            Step::Sample | Step::Receive(_) | Step::Decode(_) => {
                panic!("not a step of a write")
            }
        };
        step = txn.advance(reply);
    }
}

#[test]
fn write_of_eight_bytes_into_capacity_ten_succeeds() {
    let header = [0x01, 0x03, 0x0C];
    let payload = [1, 2, 3, 4, 5];
    let (outcome, wire) = run_write(&header, &payload, Ok([0x02, 0x0A, 0x00, 0x00, 0x00]), None);
    assert!(matches!(outcome, Ok(())));
    assert_eq!(wire.trace, ["select", "exchange", "send", "send", "release", "finished"]);
    assert_eq!(wire.exchanged, [[0x0A, 0, 0, 0, 0]]);
    assert_eq!(wire.sent, [header.to_vec(), payload.to_vec()]);
    assert_eq!(wire.times_low, 1);
    assert!(!wire.chip_low);
    assert!(!wire.sent_while_high);
}

#[test]
fn write_into_exactly_enough_capacity_succeeds() {
    let (outcome, wire) = run_write(&[1, 2, 3], &[4, 5], Ok([0x02, 0x05, 0x00, 0x00, 0x00]), None);
    assert!(matches!(outcome, Ok(())));
    assert_eq!(wire.sent, [vec![1, 2, 3], vec![4, 5]]);
}

#[test]
fn write_into_short_capacity_is_not_ready_and_sends_nothing() {
    let (outcome, wire) = run_write(&[1, 2, 3], &[4, 5], Ok([0x02, 0x04, 0x00, 0xFF, 0xFF]), None);
    assert!(matches!(outcome, Err(Pending::NotReady)));
    assert_eq!(wire.trace, ["select", "exchange", "release", "finished"]);
    assert!(wire.sent.is_empty());
    assert_eq!(wire.times_low, 1);
    assert!(!wire.chip_low);
}

#[test]
fn write_capacity_counts_its_high_byte() {
    let payload = [0u8; 300];
    let (outcome, wire) = run_write(&[1, 2, 3], &payload, Ok([0x02, 0x2F, 0x01, 0, 0]), None);
    assert!(matches!(outcome, Ok(())));
    assert_eq!(wire.sent.len(), 2);
    assert_eq!(wire.sent[1].len(), 300);
    let (outcome, wire) = run_write(&[1, 2, 3], &payload, Ok([0x02, 0x2E, 0x01, 0, 0]), None);
    assert!(matches!(outcome, Err(Pending::NotReady)));
    assert!(wire.sent.is_empty());
}

#[test]
fn write_to_a_radio_that_is_not_ready_is_not_ready() {
    for status in [0x00u8, 0x01, 0x03, 0x0A, 0xFF] {
        let reply = [status, 0xFF, 0xFF, 0xFF, 0xFF];
        let (outcome, wire) = run_write(&[1, 2, 3], &[4], Ok(reply), None);
        assert!(matches!(outcome, Err(Pending::NotReady)));
        assert_eq!(wire.trace, ["select", "exchange", "release", "finished"]);
        assert!(wire.sent.is_empty());
    }
}

#[test]
fn write_of_nothing_needs_no_capacity() {
    let (outcome, wire) = run_write(&[], &[], Ok([0x02, 0x00, 0x00, 0x00, 0x00]), None);
    assert!(matches!(outcome, Ok(())));
    assert_eq!(wire.trace, ["select", "exchange", "send", "send", "release", "finished"]);
    assert_eq!(wire.sent, [Vec::<u8>::new(), Vec::<u8>::new()]);
}

#[test]
fn failed_handshake_is_a_communication_error() {
    let (outcome, wire) = run_write(&[1, 2, 3], &[4], Err(0x42), None);
    assert!(matches!(outcome, Err(Pending::Failed(Error::Comm(0x42)))));
    assert_eq!(wire.trace, ["select", "exchange", "release", "finished"]);
    assert!(wire.sent.is_empty());
    assert_eq!(wire.times_low, 1);
    assert!(!wire.chip_low);
}

#[test]
fn failed_header_transfer_skips_the_payload() {
    let (outcome, wire) = run_write(&[1, 2, 3], &[4], Ok([0x02, 0x10, 0, 0, 0]), Some(0));
    assert!(matches!(outcome, Err(Pending::Failed(Error::Comm(0xEE)))));
    assert_eq!(wire.trace, ["select", "exchange", "send", "release", "finished"]);
    assert_eq!(wire.times_low, 1);
    assert!(!wire.chip_low);
}

#[test]
fn failed_payload_transfer_is_a_communication_error() {
    let (outcome, wire) = run_write(&[1, 2, 3], &[4], Ok([0x02, 0x10, 0, 0, 0]), Some(1));
    assert!(matches!(outcome, Err(Pending::Failed(Error::Comm(0xEE)))));
    assert_eq!(wire.trace, ["select", "exchange", "send", "send", "release", "finished"]);
    assert_eq!(wire.times_low, 1);
    assert!(!wire.chip_low);
}

#[test]
fn write_phases_follow_the_steps() {
    let header = [1u8, 2, 3];
    let payload = [4u8];
    let (mut txn, step) = WriteTransaction::<u8, ()>::begin(&header, &payload);
    assert!(matches!(step, Step::Select));
    assert_eq!(txn.current_phase(), Phase::Selecting);
    assert!(matches!(txn.advance(Reply::Done), Step::Exchange([0x0A, 0, 0, 0, 0])));
    assert_eq!(txn.current_phase(), Phase::Exchanging);
    assert!(matches!(txn.advance(Reply::Exchanged([0x02, 4, 0, 0, 0])), Step::Send([1, 2, 3])));
    assert_eq!(txn.current_phase(), Phase::SendingHeader);
    assert!(matches!(txn.advance(Reply::Done), Step::Send([4])));
    assert_eq!(txn.current_phase(), Phase::SendingPayload);
    assert!(matches!(txn.advance(Reply::Done), Step::Release));
    assert_eq!(txn.current_phase(), Phase::Releasing);
    assert!(matches!(txn.advance(Reply::Done), Step::Finished(Ok(()))));
    assert_eq!(txn.current_phase(), Phase::Finished);
}

#[test]
fn finished_write_stays_finished() {
    let (mut txn, _) = WriteTransaction::<u8, ()>::begin(&[1], &[2]);
    txn.advance(Reply::Done);
    txn.advance(Reply::Exchanged([0x02, 2, 0, 0, 0]));
    txn.advance(Reply::Done);
    txn.advance(Reply::Done);
    assert!(matches!(txn.advance(Reply::Done), Step::Finished(Ok(()))));
    assert!(matches!(txn.advance(Reply::Done), Step::Finished(Err(Pending::NotReady))));
    assert!(matches!(txn.advance(Reply::Fault(1)), Step::Finished(Err(Pending::NotReady))));
    assert_eq!(txn.current_phase(), Phase::Finished);
}

#[test]
fn reply_that_answers_nothing_abandons_the_write() {
    let (mut txn, _) = WriteTransaction::<u8, ()>::begin(&[1], &[2]);
    txn.advance(Reply::Done);
    // A line level is no answer to a handshake.
    assert!(matches!(txn.advance(Reply::Line(true)), Step::Release));
    assert!(matches!(txn.advance(Reply::Done), Step::Finished(Err(Pending::NotReady))));

    let (mut txn, _) = WriteTransaction::<u8, ()>::begin(&[1], &[2]);
    assert!(matches!(txn.advance(Reply::Exchanged([0x02, 9, 0, 0, 0])), Step::Release));
    assert!(matches!(txn.advance(Reply::Done), Step::Finished(Err(Pending::NotReady))));
}

#[test]
fn transfer_len_is_the_smaller_of_the_two() {
    assert_eq!(transfer_len(5, 12), 5);
    assert_eq!(transfer_len(12, 5), 5);
    assert_eq!(transfer_len(7, 7), 7);
    assert_eq!(transfer_len(0, 9), 0);
    assert_eq!(transfer_len(9, 0), 0);
    assert_eq!(transfer_len(usize::MAX, 1), 1);
}
