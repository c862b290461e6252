//! The polling side of the reader queue.
//!
//! A poll never waits for output. It takes what the queue holds right now and
//! hands it over as one `Data`; an idle queue gives `Data` with empty text. The
//! end of the stream is reported with care: the process may be reaped while some
//! of its output is still on its way, so a poll that meets an `End` asks for a
//! short grace interval and a second look at the queue before it decides.
//! Leftover text goes out first, and `End` is reported only by a poll that
//! finds nothing left. From then on the reader answers `End` for good.

use crate::channel::{drain, share};
use crate::message::{batch_has_end, batch_payload, has_end, payload, Message, MessageView};
use crossbeam::channel::Receiver;
use vstd::prelude::*;

verus! {

/// How long the caller waits between the two looks at the queue, in milliseconds.
pub const GRACE_MILLIS: u64 = 100;

/// Where a reader stands with respect to the end of the stream.
#[derive(Clone, Copy, Debug, PartialEq, Eq, Structural)]
pub enum Phase {
    /// No `End` has been met.
    Live,
    /// An `End` has been met, and text was still delivered afterwards: the end is
    /// known but not yet reported.
    Draining,
    /// `End` has been reported. This phase is never left.
    Ended,
}

/// What the first look at the queue asks of the caller.
#[derive(Debug, PartialEq, Eq)]
pub enum ReadStep {
    /// The poll is complete: this is its reply.
    Ready(Message),
    /// The end of the stream is in sight. The caller waits [`GRACE_MILLIS`] and
    /// completes the poll with a second look, handing back the text carried here.
    Grace(String),
}

/// The mathematical value of a [`ReadStep`].
pub enum ReadStepView {
    Ready(MessageView),
    Grace(Seq<char>),
}

impl View for ReadStep {
    type V = ReadStepView;

    open spec fn view(&self) -> ReadStepView {
        match self {
            ReadStep::Ready(msg) => ReadStepView::Ready(msg@),
            ReadStep::Grace(held) => ReadStepView::Grace(held@),
        }
    }
}

/// Whether the end of the stream is known once `first` has been drained.
pub open spec fn end_known(phase: Phase, first: Seq<Message>) -> bool {
    phase == Phase::Draining || has_end(first)
}

/// The first look: the step it yields and the phase it leaves, given the phase
/// before and the batch that was drained.
pub open spec fn first_step(phase: Phase, first: Seq<Message>) -> (ReadStepView, Phase) {
    if phase == Phase::Ended {
        (ReadStepView::Ready(MessageView::End), Phase::Ended)
    } else if end_known(phase, first) {
        (ReadStepView::Grace(payload(first)), Phase::Draining)
    } else {
        (ReadStepView::Ready(MessageView::Data(payload(first))), Phase::Live)
    }
}

/// The second look: the reply and the phase it leaves, given the text held from
/// the first look and the batch drained after the grace interval.
pub open spec fn grace_step(held: Seq<char>, second: Seq<Message>) -> (MessageView, Phase) {
    let merged = held + payload(second);
    if merged.len() > 0 {
        (MessageView::Data(merged), Phase::Draining)
    } else {
        (MessageView::End, Phase::Ended)
    }
}

/// One whole poll: the reply and the phase it leaves. `second` is what the queue
/// gives after the grace interval; it is drained only if the first look asks for it.
pub open spec fn poll(phase: Phase, first: Seq<Message>, second: Seq<Message>) -> (
    MessageView,
    Phase,
) {
    match first_step(phase, first).0 {
        ReadStepView::Ready(msg) => (msg, first_step(phase, first).1),
        ReadStepView::Grace(held) => grace_step(held, second),
    }
}

/// Decides the first look of a poll from the phase and the drained batch.
pub fn first_pass(phase: Phase, batch: Vec<Message>) -> (out: (ReadStep, Phase))
    ensures
        (out.0@, out.1) == first_step(phase, batch@),
{
    if phase == Phase::Ended {
        return (ReadStep::Ready(Message::End), Phase::Ended);
    }
    let ended = phase == Phase::Draining || batch_has_end(&batch);
    let text = batch_payload(&batch);
    if ended {
        (ReadStep::Grace(text), Phase::Draining)
    } else {
        (ReadStep::Ready(Message::Data(text)), Phase::Live)
    }
}

/// Decides the second look of a poll from the held text and the batch drained
/// after the grace interval.
pub fn grace_pass(held: String, batch: Vec<Message>) -> (out: (Message, Phase))
    ensures
        (out.0@, out.1) == grace_step(held@, batch@),
{
    let mut merged = held;
    let late = batch_payload(&batch);
    merged.append(late.as_str());
    if merged.as_str().is_empty() {
        (Message::End, Phase::Ended)
    } else {
        (Message::Data(merged), Phase::Draining)
    }
}

/// The polling end of the reader queue, with its own memory of the stream's end.
pub struct PtyReader {
    rx_read: Receiver<Message>,
    phase: Phase,
}

impl PtyReader {
    /// The phase this reader is in.
    pub closed spec fn phase_of(&self) -> Phase {
        self.phase
    }

    /// The queue end that this reader polls.
    pub closed spec fn queue_of(&self) -> Receiver<Message> {
        self.rx_read
    }

    /// A live reader on the given queue.
    pub fn new(rx_read: Receiver<Message>) -> (reader: PtyReader)
        ensures
            reader.phase_of() == Phase::Live,
            reader.queue_of() == rx_read,
    {
        PtyReader { rx_read, phase: Phase::Live }
    }

    /// The phase this reader is in.
    pub fn phase(&self) -> (phase: Phase)
        ensures
            phase == self.phase_of(),
    {
        self.phase
    }

    /// The first look of a poll. An ended reader answers `End` without touching
    /// the queue; any other drains what is ready and decides by [`first_step`].
    pub fn begin_read(&mut self) -> (step: ReadStep)
        ensures
            old(self).phase_of() == Phase::Ended ==> step@ == ReadStepView::Ready(MessageView::End)
                && final(self).phase_of() == Phase::Ended,
            exists|first: Seq<Message>|
                (step@, final(self).phase_of()) == #[trigger] first_step(
                    old(self).phase_of(),
                    first,
                ),
            final(self).queue_of() == old(self).queue_of(),
    {
        if self.phase == Phase::Ended {
            assert((ReadStepView::Ready(MessageView::End), Phase::Ended) == first_step(
                Phase::Ended,
                Seq::<Message>::empty(),
            ));
            return ReadStep::Ready(Message::End);
        }
        let batch = drain(&self.rx_read);
        let ghost first = batch@;
        let (step, phase) = first_pass(self.phase, batch);
        assert((step@, phase) == first_step(old(self).phase_of(), first));
        self.phase = phase;
        step
    }

    /// The second look of a poll, for the caller that was handed
    /// [`ReadStep::Grace`] and has waited. A reader that knows of the end drains
    /// what has arrived meanwhile and decides by [`grace_step`]. An ended reader
    /// answers `End`. A live reader has met no `End`, so no second look is due:
    /// it hands back the text it is given and touches neither the queue nor its
    /// phase.
    pub fn finish_read(&mut self, held: String) -> (msg: Message)
        ensures
            old(self).phase_of() == Phase::Ended ==> msg@ == MessageView::End
                && final(self).phase_of() == Phase::Ended,
            old(self).phase_of() == Phase::Live ==> msg@ == MessageView::Data(held@)
                && final(self).phase_of() == Phase::Live,
            old(self).phase_of() == Phase::Draining ==> exists|second: Seq<Message>|
                (msg@, final(self).phase_of()) == #[trigger] grace_step(held@, second),
            final(self).queue_of() == old(self).queue_of(),
    {
        match self.phase {
            Phase::Ended => Message::End,
            Phase::Live => Message::Data(held),
            Phase::Draining => {
                let batch = drain(&self.rx_read);
                let ghost second = batch@;
                let (msg, phase) = grace_pass(held, batch);
                assert((msg@, phase) == grace_step(held@, second));
                self.phase = phase;
                msg
            },
        }
    }

    /// A second reader on the same queue. It starts in this reader's phase and
    /// keeps its own from then on; each message goes to one reader only.
    pub fn fork(&self) -> (other: PtyReader)
        ensures
            other.phase_of() == self.phase_of(),
            other.queue_of() == self.queue_of(),
    {
        PtyReader { rx_read: share(&self.rx_read), phase: self.phase }
    }
}

} // verus!
