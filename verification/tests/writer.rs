use serial_link::queue::OutgoingQueue;
use serial_link::supervisor::greeting;
use serial_link::writer::{Writer, WriterAction, WriterTrace};
use std::io::{Error, ErrorKind, Write};

/// The write side of a device that records every call and fails the calls
/// whose numbers it was given.
struct FakePort {
    calls: Vec<Vec<u8>>,
    failing: Vec<usize>,
}

impl FakePort {
    fn new() -> FakePort {
        FakePort { calls: Vec::new(), failing: Vec::new() }
    }

    fn failing_on(calls: &[usize]) -> FakePort {
        FakePort { calls: Vec::new(), failing: calls.to_vec() }
    }

    fn received(&self) -> Vec<u8> {
        self.calls.concat()
    }
}

impl Write for FakePort {
    fn write(&mut self, bytes: &[u8]) -> std::io::Result<usize> {
        let call = self.calls.len();
        self.calls.push(bytes.to_vec());
        if self.failing.contains(&call) {
            Err(Error::new(ErrorKind::BrokenPipe, "scripted failure"))
        } else {
            Ok(bytes.len())
        }
    }

    fn flush(&mut self) -> std::io::Result<()> {
        Ok(())
    }
}

/// The driver's loop, up to the first action that is not a write.
fn serve(writer: &mut Writer, queue: &mut OutgoingQueue, port: &mut FakePort)
    -> (Vec<WriterTrace>, WriterAction) {
    let mut traces = Vec::new();
    loop {
        match writer.next_action(queue) {
            WriterAction::Write(payload) => {
                let written = port.write_all(&payload).is_ok();
                traces.push(writer.on_write(payload, written));
            }
            other => return (traces, other),
        }
    }
}

fn serving_writer() -> Writer {
    let mut writer = Writer::new();
    writer.on_open(true);
    writer
}

#[test]
fn a_new_writer_asks_to_open() {
    let mut writer = Writer::new();
    let mut queue = OutgoingQueue::new();
    assert_eq!(queue.enqueue(vec![1]), Ok(()));
    assert_eq!(writer, Writer::Opening);
    assert_eq!(writer.next_action(&mut queue), WriterAction::Open);
    assert_eq!(writer, Writer::Opening);
    assert_eq!(queue.len(), 1);
}

#[test]
fn writer_aborts_when_the_device_does_not_open() {
    let mut writer = Writer::new();
    let mut queue = OutgoingQueue::new();
    assert_eq!(queue.enqueue(vec![1, 2]), Ok(()));
    writer.on_open(false);
    assert_eq!(writer, Writer::Aborted);
    // An aborted writer never writes: the payload stays where it is.
    assert_eq!(writer.next_action(&mut queue), WriterAction::Abort);
    assert_eq!(writer.next_action(&mut queue), WriterAction::Abort);
    assert_eq!(queue.len(), 1);
    assert_eq!(writer.on_write(vec![1, 2], true), WriterTrace::Nothing);
    writer.on_open(true);
    assert_eq!(writer, Writer::Aborted);
}

#[test]
fn an_opened_writer_waits_on_an_empty_queue() {
    let mut writer = serving_writer();
    let mut queue = OutgoingQueue::new();
    assert_eq!(writer, Writer::Serving);
    assert_eq!(writer.next_action(&mut queue), WriterAction::Wait);
    assert_eq!(writer.next_action(&mut queue), WriterAction::Wait);
    assert_eq!(writer, Writer::Serving);
}

#[test]
fn a_late_open_report_leaves_the_writer_serving() {
    let mut writer = serving_writer();
    writer.on_open(false);
    assert_eq!(writer, Writer::Serving);
}

#[test]
fn the_writer_takes_one_payload_at_a_time() {
    let mut writer = serving_writer();
    let mut queue = OutgoingQueue::new();
    assert_eq!(queue.enqueue(vec![1, 2]), Ok(()));
    assert_eq!(queue.enqueue(vec![3]), Ok(()));
    assert_eq!(writer.next_action(&mut queue), WriterAction::Write(vec![1, 2]));
    assert_eq!(queue.len(), 1);
    assert_eq!(writer.next_action(&mut queue), WriterAction::Write(vec![3]));
    assert_eq!(queue.len(), 0);
    assert_eq!(writer.next_action(&mut queue), WriterAction::Wait);
}

#[test]
fn a_write_that_went_through_is_shown_as_sent() {
    let writer = serving_writer();
    assert_eq!(writer.on_write(vec![0x41, 0x42], true), WriterTrace::Sent(vec![0x41, 0x42]));
    assert_eq!(writer.on_write(Vec::new(), true), WriterTrace::Sent(Vec::new()));
}

#[test]
fn a_write_that_failed_is_shown_as_an_error() {
    let writer = serving_writer();
    assert_eq!(writer.on_write(vec![0x41, 0x42], false), WriterTrace::WriteError);
    assert_eq!(writer, Writer::Serving);
}

#[test]
fn a_write_report_before_opening_is_ignored() {
    let writer = Writer::new();
    assert_eq!(writer.on_write(vec![1], true), WriterTrace::Nothing);
    assert_eq!(writer.on_write(vec![1], false), WriterTrace::Nothing);
}

#[test]
fn payloads_reach_the_device_in_queue_order() {
    let payloads: Vec<Vec<u8>> =
        vec![vec![1, 2, 3], vec![], vec![4], vec![5, 6, 7, 8, 9], vec![1, 2, 3]];
    let mut writer = serving_writer();
    let mut queue = OutgoingQueue::new();
    let mut port = FakePort::new();
    // The writer is blocked on the empty queue while the payloads come in.
    assert_eq!(writer.next_action(&mut queue), WriterAction::Wait);
    for payload in &payloads {
        assert_eq!(queue.enqueue(payload.clone()), Ok(()));
    }
    let (traces, last) = serve(&mut writer, &mut queue, &mut port);
    assert_eq!(last, WriterAction::Wait);
    let expected: Vec<WriterTrace> = payloads.iter().cloned().map(WriterTrace::Sent).collect();
    assert_eq!(traces, expected);
    // An empty payload makes no write call of its own, so compare the bytes
    // and the calls that carry bytes.
    assert_eq!(port.received(), vec![1, 2, 3, 4, 5, 6, 7, 8, 9, 1, 2, 3]);
    assert_eq!(port.calls, vec![vec![1, 2, 3], vec![4], vec![5, 6, 7, 8, 9], vec![1, 2, 3]]);
    assert!(queue.is_empty());
    assert_eq!(writer, Writer::Serving);
}

#[test]
fn a_failed_write_does_not_hold_up_the_next() {
    let mut writer = serving_writer();
    let mut queue = OutgoingQueue::new();
    let mut port = FakePort::failing_on(&[1]);
    assert_eq!(queue.enqueue(vec![1]), Ok(()));
    assert_eq!(queue.enqueue(vec![2, 2]), Ok(()));
    assert_eq!(queue.enqueue(vec![3, 3, 3]), Ok(()));
    let (traces, last) = serve(&mut writer, &mut queue, &mut port);
    assert_eq!(
        traces,
        vec![
            WriterTrace::Sent(vec![1]),
            WriterTrace::WriteError,
            WriterTrace::Sent(vec![3, 3, 3]),
        ]
    );
    // Every payload was tried once, in order; the failed one was not tried
    // again and did not go back on the queue.
    assert_eq!(port.calls, vec![vec![1], vec![2, 2], vec![3, 3, 3]]);
    assert_eq!(last, WriterAction::Wait);
    assert!(queue.is_empty());
    assert_eq!(writer, Writer::Serving);
}

#[test]
fn the_writer_serves_on_when_every_write_fails() {
    let mut writer = serving_writer();
    let mut queue = OutgoingQueue::new();
    let mut port = FakePort::failing_on(&[0, 1, 2]);
    for payload in [vec![1], vec![2], vec![3]] {
        assert_eq!(queue.enqueue(payload), Ok(()));
    }
    let (traces, last) = serve(&mut writer, &mut queue, &mut port);
    assert_eq!(traces, vec![WriterTrace::WriteError; 3]);
    assert_eq!(port.calls, vec![vec![1], vec![2], vec![3]]);
    assert_eq!(last, WriterAction::Wait);
    assert_eq!(writer, Writer::Serving);
    // A payload that comes later is served like any other.
    assert_eq!(queue.enqueue(vec![4]), Ok(()));
    let (traces, _) = serve(&mut writer, &mut queue, &mut port);
    assert_eq!(traces, vec![WriterTrace::Sent(vec![4])]);
}

#[test]
fn the_greeting_is_written_once_and_whole() {
    let mut writer = Writer::new();
    let mut queue = OutgoingQueue::new();
    let mut port = FakePort::new();
    assert_eq!(writer.next_action(&mut queue), WriterAction::Open);
    writer.on_open(true);
    assert_eq!(writer.next_action(&mut queue), WriterAction::Wait);
    assert_eq!(queue.enqueue(vec![0x41, 0x42, 0x43]), Ok(()));
    let (traces, last) = serve(&mut writer, &mut queue, &mut port);
    assert_eq!(port.calls, vec![vec![0x41, 0x42, 0x43]]);
    assert_eq!(traces, vec![WriterTrace::Sent(vec![0x41, 0x42, 0x43])]);
    assert_eq!(last, WriterAction::Wait);
    assert_eq!(greeting(), vec![0x41, 0x42, 0x43]);
}

#[test]
fn a_closed_queue_is_drained_before_the_writer_stops() {
    let mut writer = serving_writer();
    let mut queue = OutgoingQueue::new();
    let mut port = FakePort::new();
    assert_eq!(queue.enqueue(vec![1]), Ok(()));
    assert_eq!(queue.enqueue(vec![2]), Ok(()));
    queue.close();
    let (traces, last) = serve(&mut writer, &mut queue, &mut port);
    assert_eq!(traces, vec![WriterTrace::Sent(vec![1]), WriterTrace::Sent(vec![2])]);
    assert_eq!(last, WriterAction::Stop);
    assert_eq!(writer, Writer::Stopped);
    assert_eq!(port.calls, vec![vec![1], vec![2]]);
}

#[test]
fn a_stopped_writer_stays_stopped() {
    let mut writer = serving_writer();
    let mut queue = OutgoingQueue::new();
    queue.close();
    assert_eq!(writer.next_action(&mut queue), WriterAction::Stop);
    assert_eq!(writer, Writer::Stopped);
    // Even if payloads turned up in another queue, a stopped writer leaves
    // them alone.
    let mut other = OutgoingQueue::new();
    assert_eq!(other.enqueue(vec![1]), Ok(()));
    assert_eq!(writer.next_action(&mut other), WriterAction::Stop);
    assert_eq!(other.len(), 1);
    assert_eq!(writer.on_write(vec![1], true), WriterTrace::Nothing);
    writer.on_open(true);
    assert_eq!(writer, Writer::Stopped);
}
