//! The messages that travel from the terminal to the polling reader.

use vstd::prelude::*;

verus! {

/// One entry of the reader queue: a chunk of terminal output, or the mark that
/// the stream has ended.
#[derive(Debug, PartialEq, Eq)]
pub enum Message {
    Data(String),
    End,
}

/// The mathematical value of a [`Message`].
pub enum MessageView {
    Data(Seq<char>),
    End,
}

impl View for Message {
    type V = MessageView;

    open spec fn view(&self) -> MessageView {
        match self {
            Message::Data(text) => MessageView::Data(text@),
            Message::End => MessageView::End,
        }
    }
}

impl MessageView {
    /// The text that the message carries; `End` carries none.
    pub open spec fn text(self) -> Seq<char> {
        match self {
            MessageView::Data(text) => text,
            MessageView::End => Seq::empty(),
        }
    }
}

/// Whether a batch of messages holds an `End`.
pub open spec fn has_end(batch: Seq<Message>) -> bool {
    exists|i: int| 0 <= i < batch.len() && #[trigger] batch[i]@ is End
}

/// The text of a batch: the payloads of its `Data` messages, in order, joined.
pub open spec fn payload(batch: Seq<Message>) -> Seq<char>
    decreases batch.len(),
{
    if batch.len() == 0 {
        Seq::empty()
    } else {
        payload(batch.drop_last()) + batch.last()@.text()
    }
}

/// The text of two batches laid end to end is the text of the first followed by
/// the text of the second.
pub proof fn lemma_payload_concat(a: Seq<Message>, b: Seq<Message>)
    ensures
        payload(a + b) == payload(a) + payload(b),
    decreases b.len(),
{
    if b.len() == 0 {
        assert(a + b =~= a);
    } else {
        lemma_payload_concat(a, b.drop_last());
        assert((a + b).drop_last() =~= a + b.drop_last());
        assert((a + b).last() == b.last());
    }
}

/// A batch holds an `End` exactly if one of its two parts does.
pub proof fn lemma_has_end_concat(a: Seq<Message>, b: Seq<Message>)
    ensures
        has_end(a + b) <==> has_end(a) || has_end(b),
{
    if has_end(a) {
        let i = choose|i: int| 0 <= i < a.len() && #[trigger] a[i]@ is End;
        assert((a + b)[i] == a[i]);
    }
    if has_end(b) {
        let i = choose|i: int| 0 <= i < b.len() && #[trigger] b[i]@ is End;
        assert((a + b)[a.len() + i] == b[i]);
    }
    if has_end(a + b) {
        let i = choose|i: int| 0 <= i < (a + b).len() && #[trigger] (a + b)[i]@ is End;
        if i < a.len() {
            assert(a[i] == (a + b)[i]);
        } else {
            assert(b[i - a.len()] == (a + b)[i]);
        }
    }
}

impl Clone for Message {
    fn clone(&self) -> (copy: Message)
        ensures
            copy@ == self@,
    {
        match self {
            Message::Data(text) => Message::Data(text.clone()),
            Message::End => Message::End,
        }
    }
}

impl Message {
    /// Whether this is the end mark.
    pub fn is_end(&self) -> (end: bool)
        ensures
            end == (self@ is End),
    {
        match self {
            Message::Data(_) => false,
            Message::End => true,
        }
    }
}

/// Whether a batch holds an `End`.
pub fn batch_has_end(batch: &Vec<Message>) -> (found: bool)
    ensures
        found == has_end(batch@),
{
    let mut i: usize = 0;
    while i < batch.len()
        invariant
            i <= batch.len(),
            forall|j: int| 0 <= j < i ==> !(#[trigger] batch@[j]@ is End),
        decreases batch.len() - i,
    {
        if batch[i].is_end() {
            return true;
        }
        i += 1;
    }
    false
}

/// Joins the payloads of a batch's `Data` messages in arrival order.
pub fn batch_payload(batch: &Vec<Message>) -> (text: String)
    ensures
        text@ == payload(batch@),
{
    let mut text = String::new();
    let mut i: usize = 0;
    while i < batch.len()
        invariant
            i <= batch.len(),
            text@ == payload(batch@.take(i as int)),
        decreases batch.len() - i,
    {
        proof {
            assert(batch@.take(i + 1).drop_last() =~= batch@.take(i as int));
            assert(batch@.take(i + 1).last() == batch@[i as int]);
        }
        match &batch[i] {
            Message::Data(chunk) => {
                text.append(chunk.as_str());
            },
            Message::End => {
                assert(text@ + Seq::<char>::empty() =~= text@);
            },
        }
        i += 1;
    }
    assert(batch@.take(batch.len() as int) =~= batch@);
    text
}

} // verus!
