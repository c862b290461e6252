//! The relaying threads, as steps.
//!
//! Three threads serve a session. The reader bridge reads the terminal and feeds
//! the reader queue; the exit watcher waits for the child and feeds the same queue
//! its `End`; the writer bridge takes submitted text from the writer queue and
//! writes it to the terminal. The blocking reads, writes and waits belong to the
//! caller: each thread hands their outcome to a step here, which says what to
//! forward and whether to go on.

use crate::message::{Message, MessageView};
use crossbeam::channel::{Receiver, RecvError, Sender};
use std::string::FromUtf8Error;
use vstd::prelude::*;
use vstd::utf8::{decode_utf8, valid_utf8};

verus! {

#[verifier::external_type_specification]
#[verifier::external_body]
pub struct ExFromUtf8Error(FromUtf8Error);

/// `String::from_utf8`: succeeds exactly on bytes that are well-formed UTF-8, and
/// the string it gives is the text that those bytes encode.
pub assume_specification[ String::from_utf8 ](bytes: Vec<u8>) -> (text: Result<
    String,
    FromUtf8Error,
>)
    ensures
        text is Ok <==> valid_utf8(bytes@),
        text matches Ok(s) ==> s@ == decode_utf8(bytes@),
;

/// The size of the buffer that the reader bridge reads into, in bytes.
pub const READ_BUFFER_BYTES: usize = 8192;

/// What one blocking read of the terminal gave.
#[derive(Debug, PartialEq, Eq)]
pub enum ReadOutcome {
    /// The bytes that were read; none at the end of the file.
    Bytes(Vec<u8>),
    /// The read failed.
    Failed,
}

/// Whether the reader bridge forwards what a read gave: only a chunk that is not
/// empty and is well-formed UTF-8 as a whole.
pub open spec fn accepts(outcome: ReadOutcome) -> bool {
    outcome matches ReadOutcome::Bytes(bytes) && bytes@.len() > 0 && valid_utf8(bytes@)
}

/// The text of an accepted chunk.
pub open spec fn chunk_text(outcome: ReadOutcome) -> Seq<char>
    recommends
        accepts(outcome),
{
    decode_utf8(outcome->Bytes_0@)
}

/// Decides what the reader bridge forwards for one read: the chunk's text, or
/// nothing, which stops the bridge.
pub fn chunk_to_forward(outcome: ReadOutcome) -> (text: Option<String>)
    ensures
        text is Some <==> accepts(outcome),
        text matches Some(s) ==> s@ == chunk_text(outcome),
{
    match outcome {
        ReadOutcome::Failed => None,
        ReadOutcome::Bytes(bytes) => {
            if bytes.len() == 0 {
                return None;
            }
            match String::from_utf8(bytes) {
                Ok(s) => Some(s),
                Err(_) => None,
            }
        },
    }
}

/// One step of an open producer: the log after it, and whether the producer stays
/// open. `log` is what the producer has handed to the queue so far, `outcome`
/// what the read gave, and `taken` whether the queue took the chunk's text.
pub open spec fn relay_step(log: Seq<MessageView>, outcome: ReadOutcome, taken: bool) -> (
    Seq<MessageView>,
    bool,
) {
    if !accepts(outcome) {
        (log.push(MessageView::End), false)
    } else if taken {
        (log.push(MessageView::Data(chunk_text(outcome))), true)
    } else {
        (log.push(MessageView::Data(chunk_text(outcome))).push(MessageView::End), false)
    }
}

/// Whether a log of messages is what one producer may have handed to the queue:
/// `End` stands at most once, as the last entry, and is there exactly when the
/// producer has closed.
pub open spec fn ends_once(log: Seq<MessageView>, open: bool) -> bool {
    &&& !open ==> log.len() > 0
    &&& forall|i: int|
        0 <= i < log.len() ==> ((#[trigger] log[i]) is End <==> !open && i == log.len() - 1)
}

/// One producing end of the reader queue. It forwards text while it is open and
/// closes with a single `End`.
pub struct Producer {
    tx_read: Sender<Message>,
    state: ProducerState,
}

struct ProducerState {
    open: bool,
    offered: Ghost<Seq<MessageView>>,
}

impl Producer {
    #[verifier::type_invariant]
    spec fn inv(self) -> bool {
        ends_once(self.state.offered@, self.state.open)
    }

    /// Whether the producer still forwards.
    pub closed spec fn is_open(&self) -> bool {
        self.state.open
    }

    /// Every message that this producer has handed to the queue, in order,
    /// delivered or not.
    pub closed spec fn offered(&self) -> Seq<MessageView> {
        self.state.offered@
    }

    /// The queue end that this producer feeds.
    pub closed spec fn sender_of(&self) -> Sender<Message> {
        self.tx_read
    }

    /// An open producer on the given queue that has handed over nothing yet.
    pub fn new(tx_read: Sender<Message>) -> (producer: Producer)
        ensures
            producer.is_open(),
            producer.offered() == Seq::<MessageView>::empty(),
            producer.sender_of() == tx_read,
    {
        Producer { tx_read, state: ProducerState { open: true, offered: Ghost(Seq::empty()) } }
    }

    /// Whether the producer still forwards.
    pub fn open(&self) -> (open: bool)
        ensures
            open == self.is_open(),
    {
        self.state.open
    }

    /// The reader bridge's step for one read of the terminal. An accepted chunk
    /// goes to the queue as `Data`, and the bridge goes on if the queue took it.
    /// Anything else, or a queue that no longer takes messages, closes the
    /// producer with its `End`. A closed producer forwards nothing.
    pub fn relay(&mut self, outcome: ReadOutcome) -> (go_on: bool)
        ensures
            final(self).is_open() == go_on,
            !old(self).is_open() ==> !go_on && final(self).offered() == old(self).offered(),
            old(self).is_open() ==> (final(self).offered(), go_on) == relay_step(
                old(self).offered(),
                outcome,
                go_on,
            ),
            ends_once(final(self).offered(), final(self).is_open()),
            final(self).sender_of() == old(self).sender_of(),
    {
        proof {
            use_type_invariant(&*self);
        }
        if !self.state.open {
            return false;
        }
        let ghost before = self.state.offered@;
        match chunk_to_forward(outcome) {
            Some(text) => {
                let msg = Message::Data(text);
                self.state = ProducerState { open: true, offered: Ghost(before.push(msg@)) };
                let delivered = self.tx_read.send(msg).is_ok();
                self.settle(delivered)
            },
            None => self.settle(false),
        }
    }

    /// What becomes of the producer once the queue has answered: it goes on if it
    /// is open and the queue took the message; an open producer whose message
    /// was not taken closes with its `End`; a closed one stays as it is.
    pub fn settle(&mut self, delivered: bool) -> (go_on: bool)
        ensures
            go_on == (old(self).is_open() && delivered),
            final(self).is_open() == go_on,
            old(self).is_open() && !delivered ==> final(self).offered() == old(self).offered().push(MessageView::End),
            !(old(self).is_open() && !delivered) ==> final(self).offered() == old(self).offered(),
            ends_once(final(self).offered(), final(self).is_open()),
            final(self).sender_of() == old(self).sender_of(),
    {
        proof {
            use_type_invariant(&*self);
        }
        if !self.state.open {
            return false;
        }
        if delivered {
            return true;
        }
        let ghost before = self.state.offered@;
        let _ = self.tx_read.send(Message::End);
        self.state = ProducerState { open: false, offered: Ghost(before.push(MessageView::End)) };
        false
    }

    /// Closes the producer: an open one hands its `End` to the queue, a closed one
    /// does nothing. This is the exit watcher's whole step, once the child is gone.
    pub fn finish(&mut self)
        ensures
            !final(self).is_open(),
            old(self).is_open() ==> final(self).offered() == old(self).offered().push(
                MessageView::End,
            ),
            !old(self).is_open() ==> final(self).offered() == old(self).offered(),
            ends_once(final(self).offered(), false),
            final(self).sender_of() == old(self).sender_of(),
    {
        proof {
            use_type_invariant(&*self);
        }
        if self.state.open {
            let ghost before = self.state.offered@;
            let _ = self.tx_read.send(Message::End);
            self.state = ProducerState {
                open: false,
                offered: Ghost(before.push(MessageView::End)),
            };
        }
    }
}

/// The consuming end of the writer queue. It hands out submitted text in
/// submission order and stops for good at the first failed write.
pub struct WriterBridge {
    rx_write: Receiver<String>,
    running: bool,
}

impl WriterBridge {
    /// Whether the bridge still hands out text.
    pub closed spec fn is_running(&self) -> bool {
        self.running
    }

    /// The queue end that this bridge takes text from.
    pub closed spec fn queue_of(&self) -> Receiver<String> {
        self.rx_write
    }

    /// A running bridge on the given queue.
    pub fn new(rx_write: Receiver<String>) -> (bridge: WriterBridge)
        ensures
            bridge.is_running(),
            bridge.queue_of() == rx_write,
    {
        WriterBridge { rx_write, running: true }
    }

    /// Whether the bridge still hands out text.
    pub fn running(&self) -> (running: bool)
        ensures
            running == self.is_running(),
    {
        self.running
    }

    /// Takes what a receive on the writer queue gave: the text to write next, or
    /// nothing, which stops the bridge. A stopped bridge hands out nothing.
    pub fn accept(&mut self, got: Result<String, RecvError>) -> (text: Option<String>)
        ensures
            old(self).is_running() && got is Ok ==> text == Some(got->Ok_0) && final(self).is_running(),
            !(old(self).is_running() && got is Ok) ==> text is None && !final(self).is_running(),
            final(self).queue_of() == old(self).queue_of(),
    {
        if !self.running {
            return None;
        }
        match got {
            Ok(text) => Some(text),
            Err(_) => {
                self.running = false;
                None
            },
        }
    }

    /// Waits for the next submitted text. `None` ends the thread: the queue is
    /// closed, or the bridge has stopped. A stopped bridge does not wait.
    pub fn next(&mut self) -> (text: Option<String>)
        ensures
            !old(self).is_running() ==> text is None,
            final(self).is_running() == (text is Some),
            final(self).queue_of() == old(self).queue_of(),
    {
        if !self.running {
            return None;
        }
        let got = self.rx_write.recv();
        self.accept(got)
    }

    /// Records how the write of the last text went. A failed write stops the
    /// bridge: nothing is written after it.
    pub fn settle(&mut self, written: bool)
        ensures
            final(self).is_running() == (old(self).is_running() && written),
            final(self).queue_of() == old(self).queue_of(),
    {
        if !written {
            self.running = false;
        }
    }
}

} // verus!
