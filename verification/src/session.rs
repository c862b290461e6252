//! The session as its caller sees it: a reader to poll and a queue to write to.
//!
//! The handles of the terminal itself stay with whoever opened it. A session here
//! is the two queue ends that the caller's thread touches, and neither of its
//! operations waits: a poll takes what is there, a write only enqueues.

use crate::bridge::{Producer, WriterBridge};
use crate::channel::{send_error_text, share_sender};
use crate::message::{Message, MessageView};
use crate::reader::{first_step, grace_step, Phase, PtyReader, ReadStep, ReadStepView};
use crossbeam::channel::{unbounded, Receiver, SendError, Sender};
use vstd::prelude::*;

verus! {

/// Why a write was not accepted.
#[derive(Clone, Copy, Debug, PartialEq, Eq, Structural)]
pub enum WriteError {
    /// The writer queue is closed: the writer bridge has stopped.
    Closed,
}

impl WriteError {
    /// The error in words: the text that the queue describes a failed send with.
    pub fn message(&self) -> (text: String)
        ensures
            text@ == "sending on a disconnected channel"@,
    {
        send_error_text()
    }
}

/// What a write reports for each outcome of handing the text to the writer
/// queue: success if the queue took it, [`WriteError::Closed`] if not.
pub fn submission(sent: Result<(), SendError<String>>) -> (outcome: Result<(), WriteError>)
    ensures
        outcome is Ok <==> sent is Ok,
        outcome is Err ==> outcome == Err::<(), WriteError>(WriteError::Closed),
{
    match sent {
        Ok(()) => Ok(()),
        Err(_) => Err(WriteError::Closed),
    }
}

/// One session: the polling end of the reader queue and the submitting end of
/// the writer queue.
pub struct Pty {
    reader: PtyReader,
    tx_write: Sender<String>,
}

/// A session with the three ends that its threads work on.
pub struct Wiring {
    /// The caller's side.
    pub pty: Pty,
    /// Feeds the reader queue with what the terminal gives.
    pub reader_bridge: Producer,
    /// Feeds the same queue with the `End` that follows the child's exit.
    pub exit_watcher: Producer,
    /// Takes submitted text from the writer queue.
    pub writer_bridge: WriterBridge,
}

impl Pty {
    /// The phase of the session's own reader.
    pub closed spec fn phase_of(&self) -> Phase {
        self.reader.phase_of()
    }

    /// The queue end that the session polls.
    pub closed spec fn queue_of(&self) -> Receiver<Message> {
        self.reader.queue_of()
    }

    /// The queue end that the session submits text to.
    pub closed spec fn writer_of(&self) -> Sender<String> {
        self.tx_write
    }

    /// A session on the given queues, with a live reader.
    pub fn new(rx_read: Receiver<Message>, tx_write: Sender<String>) -> (pty: Pty)
        ensures
            pty.phase_of() == Phase::Live,
            pty.queue_of() == rx_read,
            pty.writer_of() == tx_write,
    {
        Pty { reader: PtyReader::new(rx_read), tx_write }
    }

    /// Makes the two queues of a session and hands out their four ends: a live
    /// session, two open producers on its reader queue that have handed over
    /// nothing, and a running writer bridge.
    pub fn wire() -> (wiring: Wiring)
        ensures
            wiring.pty.phase_of() == Phase::Live,
            wiring.reader_bridge.is_open(),
            wiring.reader_bridge.offered() == Seq::<MessageView>::empty(),
            wiring.exit_watcher.is_open(),
            wiring.exit_watcher.offered() == Seq::<MessageView>::empty(),
            wiring.exit_watcher.sender_of() == wiring.reader_bridge.sender_of(),
            wiring.writer_bridge.is_running(),
    {
        let (tx_read, rx_read) = unbounded::<Message>();
        let (tx_write, rx_write) = unbounded::<String>();
        let exit_watcher = Producer::new(share_sender(&tx_read));
        let reader_bridge = Producer::new(tx_read);
        Wiring {
            pty: Pty::new(rx_read, tx_write),
            reader_bridge,
            exit_watcher,
            writer_bridge: WriterBridge::new(rx_write),
        }
    }

    /// The phase of the session's own reader.
    pub fn phase(&self) -> (phase: Phase)
        ensures
            phase == self.phase_of(),
    {
        self.reader.phase()
    }

    /// Another reader on the session's output, in the phase of the session's own.
    /// The readers share one queue: text that one of them takes, the others never
    /// see.
    pub fn clone_reader(&self) -> (reader: PtyReader)
        ensures
            reader.phase_of() == self.phase_of(),
            reader.queue_of() == self.queue_of(),
    {
        self.reader.fork()
    }

    /// The first look of a poll: see [`PtyReader::begin_read`].
    pub fn begin_read(&mut self) -> (step: ReadStep)
        ensures
            old(self).phase_of() == Phase::Ended ==> step@ == ReadStepView::Ready(MessageView::End)
                && final(self).phase_of() == Phase::Ended,
            exists|first: Seq<Message>|
                (step@, final(self).phase_of()) == #[trigger] first_step(
                    old(self).phase_of(),
                    first,
                ),
            final(self).queue_of() == old(self).queue_of(),
            final(self).writer_of() == old(self).writer_of(),
    {
        self.reader.begin_read()
    }

    /// The second look of a poll: see [`PtyReader::finish_read`].
    pub fn finish_read(&mut self, held: String) -> (msg: Message)
        ensures
            old(self).phase_of() == Phase::Ended ==> msg@ == MessageView::End
                && final(self).phase_of() == Phase::Ended,
            old(self).phase_of() == Phase::Live ==> msg@ == MessageView::Data(held@)
                && final(self).phase_of() == Phase::Live,
            old(self).phase_of() == Phase::Draining ==> exists|second: Seq<Message>|
                (msg@, final(self).phase_of()) == #[trigger] grace_step(held@, second),
            final(self).queue_of() == old(self).queue_of(),
            final(self).writer_of() == old(self).writer_of(),
    {
        self.reader.finish_read(held)
    }

    /// Submits text for the terminal. The text is only enqueued; the write itself
    /// happens later, on the writer bridge. The submission fails only if the queue
    /// is closed, in which case the text is dropped.
    pub fn write(&self, data: String) -> (outcome: Result<(), WriteError>)
        ensures
            outcome is Err ==> outcome == Err::<(), WriteError>(WriteError::Closed),
    {
        submission(self.tx_write.send(data))
    }
}

} // verus!
