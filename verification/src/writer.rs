//! The writer activity: takes payloads off the outgoing queue and has each
//! one written to the device in full.
//!
//! The driver owns the port handle. It asks the [`Writer`] what to do, does
//! it, and reports what came of it.

use crate::queue::{lemma_push_all_appends, OutgoingQueue, QueueView};
use vstd::prelude::*;

verus! {

/// What the driver of a writer has to do next.
#[derive(Clone, Debug, PartialEq, Eq)]
pub enum WriterAction {
    /// Open the device for writing and report with [`Writer::on_open`].
    Open,
    /// Write all of these bytes to the device in one go, blocking until it is
    /// done or has failed, and report with [`Writer::on_write`].
    Write(Vec<u8>),
    /// Block until the queue has changed, then ask again.
    Wait,
    /// End the activity: the queue is closed and drained.
    Stop,
    /// Give up for good: the device could not be opened.
    Abort,
}

/// A [`WriterAction`] with its bytes as a sequence.
pub enum WriterActionView {
    Open,
    Write(Seq<u8>),
    Wait,
    Stop,
    Abort,
}

impl View for WriterAction {
    type V = WriterActionView;

    open spec fn view(&self) -> WriterActionView {
        match self {
            WriterAction::Open => WriterActionView::Open,
            WriterAction::Write(bytes) => WriterActionView::Write(bytes@),
            WriterAction::Wait => WriterActionView::Wait,
            WriterAction::Stop => WriterActionView::Stop,
            WriterAction::Abort => WriterActionView::Abort,
        }
    }
}

/// What the driver has to put on the console after a write.
#[derive(Clone, Debug, PartialEq, Eq)]
pub enum WriterTrace {
    /// An informational line that shows these bytes as sent.
    Sent(Vec<u8>),
    /// An error line for a failed write. The payload is lost: it is neither
    /// tried again nor put back on the queue.
    WriteError,
    /// No line at all.
    Nothing,
}

/// A [`WriterTrace`] with its bytes as a sequence.
pub enum WriterTraceView {
    Sent(Seq<u8>),
    WriteError,
    Nothing,
}

impl View for WriterTrace {
    type V = WriterTraceView;

    open spec fn view(&self) -> WriterTraceView {
        match self {
            WriterTrace::Sent(bytes) => WriterTraceView::Sent(bytes@),
            WriterTrace::WriteError => WriterTraceView::WriteError,
            WriterTrace::Nothing => WriterTraceView::Nothing,
        }
    }
}

/// The writer activity, by the stage it is in.
#[derive(Clone, Copy, Debug, PartialEq, Eq, Structural)]
pub enum Writer {
    /// The device has not been opened yet.
    Opening,
    /// The device is open and payloads are served as they come.
    Serving,
    /// The queue was closed and has been drained. Nothing more will be
    /// written.
    Stopped,
    /// The device could not be opened. Nothing will ever be written.
    Aborted,
}

/// One decision of a writer: the stage it moves to, the queue it leaves
/// behind, and what it asks of the driver.
pub struct WriterStep {
    pub writer: Writer,
    pub queue: QueueView,
    pub action: WriterActionView,
}

/// The decision that a writer in stage `writer` takes when it sees `queue`.
///
/// A serving writer takes the oldest payload off the queue, whole, and asks
/// for it to be written. Where nothing waits it asks the driver to wait, or,
/// once the queue is closed, stops. Outside the serving stage the queue is
/// not touched.
pub open spec fn step(writer: Writer, queue: QueueView) -> WriterStep {
    match writer {
        Writer::Opening => WriterStep { writer, queue, action: WriterActionView::Open },
        Writer::Aborted => WriterStep { writer, queue, action: WriterActionView::Abort },
        Writer::Stopped => WriterStep { writer, queue, action: WriterActionView::Stop },
        Writer::Serving => if queue.pending.len() > 0 {
            WriterStep {
                writer,
                queue: queue.pop(),
                action: WriterActionView::Write(queue.pending[0]),
            }
        } else if queue.closed {
            WriterStep { writer: Writer::Stopped, queue, action: WriterActionView::Stop }
        } else {
            WriterStep { writer, queue, action: WriterActionView::Wait }
        },
    }
}

/// What goes on the console after a writer in stage `writer` has been told
/// how the write of `payload` ended.
pub open spec fn trace_of_write(writer: Writer, payload: Seq<u8>, written: bool)
    -> WriterTraceView {
    match writer {
        Writer::Serving => if written {
            WriterTraceView::Sent(payload)
        } else {
            WriterTraceView::WriteError
        },
        _ => WriterTraceView::Nothing,
    }
}

impl Writer {
    /// A writer that has yet to open its device.
    pub fn new() -> (writer: Self)
        ensures
            writer == Writer::Opening,
    {
        Writer::Opening
    }

    /// The stage that follows the attempt to open the device.
    pub open spec fn after_open(self, opened: bool) -> Writer {
        match self {
            Writer::Opening => if opened {
                Writer::Serving
            } else {
                Writer::Aborted
            },
            _ => self,
        }
    }

    /// Takes note of how the attempt to open the device ended.
    ///
    /// A writer that waits for its device starts serving if it was opened
    /// and aborts for good if it was not. In any other stage the report is
    /// out of place and changes nothing.
    pub fn on_open(&mut self, opened: bool)
        ensures
            *final(self) == old(self).after_open(opened),
    {
        match *self {
            Writer::Opening => {
                if opened {
                    *self = Writer::Serving;
                } else {
                    *self = Writer::Aborted;
                }
            },
            _ => {},
        }
    }

    /// Decides what the driver has to do next, taking the oldest payload off
    /// `queue` where one is due to be written.
    pub fn next_action(&mut self, queue: &mut OutgoingQueue) -> (action: WriterAction)
        ensures
            *final(self) == step(*old(self), old(queue)@).writer,
            final(queue)@ == step(*old(self), old(queue)@).queue,
            action@ == step(*old(self), old(queue)@).action,
    {
        match *self {
            Writer::Opening => WriterAction::Open,
            Writer::Aborted => WriterAction::Abort,
            Writer::Stopped => WriterAction::Stop,
            Writer::Serving => match queue.dequeue() {
                Some(payload) => WriterAction::Write(payload),
                None => {
                    if queue.is_closed() {
                        *self = Writer::Stopped;
                        WriterAction::Stop
                    } else {
                        WriterAction::Wait
                    }
                },
            },
        }
    }

    /// Takes note of how the write of `payload` ended.
    ///
    /// For a serving writer a write that went through asks for an
    /// informational line that shows the bytes sent, and one that failed for
    /// an error line. Either way the writer and the queue are as they were:
    /// a failed payload is dropped and the next one is served as if nothing
    /// had happened. In any other stage the report is out of place and no
    /// line is asked for.
    pub fn on_write(&self, payload: Vec<u8>, written: bool) -> (trace: WriterTrace)
        ensures
            trace@ == trace_of_write(*self, payload@, written),
    {
        match self {
            Writer::Serving => {
                if written {
                    WriterTrace::Sent(payload)
                } else {
                    WriterTrace::WriteError
                }
            },
            _ => WriterTrace::Nothing,
        }
    }
}

/// Where a writer stands after a number of rounds: its stage, the queue it
/// leaves behind, the payloads it has handed to the device, one entry for each
/// write in the order of the writes, and the lines it has asked for.
pub struct WriterRun {
    pub writer: Writer,
    pub queue: QueueView,
    pub writes: Seq<Seq<u8>>,
    pub traces: Seq<WriterTraceView>,
}

/// The run of a writer that starts in stage `writer` with `queue` and goes
/// through one round for each entry of `outcomes`.
///
/// In a round the writer takes one decision. Where that asks for a write, the
/// driver makes it, and the entry says whether it went through; in a round
/// without a write the entry is not looked at. Nobody else touches the queue
/// during the run.
pub open spec fn run(writer: Writer, queue: QueueView, outcomes: Seq<bool>) -> WriterRun
    decreases outcomes.len(),
{
    if outcomes.len() == 0 {
        WriterRun { writer, queue, writes: Seq::empty(), traces: Seq::empty() }
    } else {
        let before = run(writer, queue, outcomes.drop_last());
        let decision = step(before.writer, before.queue);
        match decision.action {
            WriterActionView::Write(payload) => WriterRun {
                writer: decision.writer,
                queue: decision.queue,
                writes: before.writes.push(payload),
                traces: before.traces.push(
                    trace_of_write(decision.writer, payload, outcomes.last()),
                ),
            },
            _ => WriterRun {
                writer: decision.writer,
                queue: decision.queue,
                writes: before.writes,
                traces: before.traces,
            },
        }
    }
}

/// A serving writer hands the queue to the device from the front: after `n`
/// rounds on a queue that holds at least `n` payloads, the writes are the
/// first `n` payloads, each one whole and on its own, in the order in which
/// they were queued, and the rest still waits. How the writes end plays no
/// part in this; it shows only in the lines, one for each write.
pub proof fn lemma_writes_follow_queue(queue: QueueView, outcomes: Seq<bool>)
    requires
        outcomes.len() <= queue.pending.len(),
    ensures
        run(Writer::Serving, queue, outcomes).writer == Writer::Serving,
        run(Writer::Serving, queue, outcomes).writes == queue.pending.take(outcomes.len() as int),
        run(Writer::Serving, queue, outcomes).queue.pending == queue.pending.skip(
            outcomes.len() as int,
        ),
        run(Writer::Serving, queue, outcomes).queue.closed == queue.closed,
        run(Writer::Serving, queue, outcomes).traces == Seq::new(
            outcomes.len(),
            |i: int| trace_of_write(Writer::Serving, queue.pending[i], outcomes[i]),
        ),
    decreases outcomes.len(),
{
    let n = outcomes.len() as int;
    let lines = Seq::new(
        outcomes.len(),
        |i: int| trace_of_write(Writer::Serving, queue.pending[i], outcomes[i]),
    );
    if n == 0 {
        assert(queue.pending.take(0) =~= Seq::<Seq<u8>>::empty());
        assert(queue.pending.skip(0) =~= queue.pending);
        assert(lines =~= Seq::<WriterTraceView>::empty());
    } else {
        lemma_writes_follow_queue(queue, outcomes.drop_last());
        let before = run(Writer::Serving, queue, outcomes.drop_last());
        assert(before.queue.pending.len() > 0);
        assert(before.queue.pending[0] == queue.pending[n - 1]);
        assert(before.queue.pop().pending =~= queue.pending.skip(n));
        assert(before.writes.push(queue.pending[n - 1]) =~= queue.pending.take(n));
        assert(before.traces.push(
            trace_of_write(Writer::Serving, queue.pending[n - 1], outcomes.last()),
        ) =~= lines);
    }
}

/// Payloads that are queued while the writer waits on an empty queue reach
/// the device exactly as they were queued: one write for each payload, with
/// that payload's bytes and no others, in the order of queueing. Nothing is
/// left on the queue, and the writer serves on.
pub proof fn lemma_queued_payloads_are_written_in_order(
    payloads: Seq<Seq<u8>>,
    outcomes: Seq<bool>,
)
    requires
        outcomes.len() == payloads.len(),
    ensures
        run(Writer::Serving, QueueView::empty().push_all(payloads), outcomes).writes == payloads,
        run(Writer::Serving, QueueView::empty().push_all(payloads), outcomes).queue
            == QueueView::empty(),
        run(Writer::Serving, QueueView::empty().push_all(payloads), outcomes).writer
            == Writer::Serving,
{
    let queue = QueueView::empty().push_all(payloads);
    lemma_push_all_appends(QueueView::empty(), payloads);
    assert(queue.pending =~= payloads);
    lemma_writes_follow_queue(queue, outcomes);
    assert(payloads.take(payloads.len() as int) =~= payloads);
    assert(payloads.skip(payloads.len() as int) =~= Seq::<Seq<u8>>::empty());
}

/// A write that fails is felt nowhere but in its own line on the console.
/// Take two runs from the same start whose writes end differently: in both
/// the writer goes through the same stages, hands the same payloads to the
/// device in the same order, and leaves the same queue behind.
pub proof fn lemma_write_failure_is_isolated(
    writer: Writer,
    queue: QueueView,
    outcomes: Seq<bool>,
    others: Seq<bool>,
)
    requires
        outcomes.len() == others.len(),
    ensures
        run(writer, queue, outcomes).writer == run(writer, queue, others).writer,
        run(writer, queue, outcomes).queue == run(writer, queue, others).queue,
        run(writer, queue, outcomes).writes == run(writer, queue, others).writes,
        run(writer, queue, outcomes).traces.len() == run(writer, queue, others).traces.len(),
    decreases outcomes.len(),
{
    if outcomes.len() > 0 {
        lemma_write_failure_is_isolated(writer, queue, outcomes.drop_last(), others.drop_last());
    }
}

} // verus!
