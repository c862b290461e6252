//! What holds of every run of polls, and of every series of reads that the
//! reader bridge relays.
//!
//! A run is a series of polls on one reader. Each poll has its own pair of
//! batches: what the queue gave at the first look, and what it gave after the
//! grace interval (read only when the first look asked for it).

use crate::bridge::{accepts, chunk_text, relay_step, ReadOutcome};
use crate::message::{
    has_end, lemma_has_end_concat, lemma_payload_concat, payload, Message, MessageView,
};
use crate::reader::{end_known, poll, Phase};
use vstd::prelude::*;
use vstd::utf8::{
    decode_utf8, decode_utf8_encode_utf8, encode_utf8, encode_utf8_decode_utf8, valid_utf8,
    valid_utf8_concat,
};

verus! {

/// What the queue gives to one poll.
pub struct Drains {
    pub first: Seq<Message>,
    pub second: Seq<Message>,
}

/// The text that one poll takes from the queue: nothing once ended, the first
/// batch otherwise, and the second batch too when the end is known.
pub open spec fn consumed(phase: Phase, d: Drains) -> Seq<char> {
    if phase == Phase::Ended {
        Seq::empty()
    } else if end_known(phase, d.first) {
        payload(d.first) + payload(d.second)
    } else {
        payload(d.first)
    }
}

/// The replies of a run of polls that starts in `phase`.
pub open spec fn run_replies(phase: Phase, run: Seq<Drains>) -> Seq<MessageView>
    decreases run.len(),
{
    if run.len() == 0 {
        Seq::empty()
    } else {
        let step = poll(phase, run[0].first, run[0].second);
        seq![step.0] + run_replies(step.1, run.drop_first())
    }
}

/// The phase in which a run of polls leaves the reader.
pub open spec fn run_phase(phase: Phase, run: Seq<Drains>) -> Phase
    decreases run.len(),
{
    if run.len() == 0 {
        phase
    } else {
        run_phase(poll(phase, run[0].first, run[0].second).1, run.drop_first())
    }
}

/// The text that a run of polls takes from the queue.
pub open spec fn run_consumed(phase: Phase, run: Seq<Drains>) -> Seq<char>
    decreases run.len(),
{
    if run.len() == 0 {
        Seq::empty()
    } else {
        consumed(phase, run[0]) + run_consumed(
            poll(phase, run[0].first, run[0].second).1,
            run.drop_first(),
        )
    }
}

/// The text of a series of replies, joined in order.
pub open spec fn replies_text(replies: Seq<MessageView>) -> Seq<char>
    decreases replies.len(),
{
    if replies.len() == 0 {
        Seq::empty()
    } else {
        replies[0].text() + replies_text(replies.drop_first())
    }
}

/// A poll hands over exactly the text it took from the queue: nothing is lost,
/// nothing is repeated, and the order is kept.
pub proof fn law_poll_delivers_what_it_takes(phase: Phase, d: Drains)
    ensures
        poll(phase, d.first, d.second).0.text() == consumed(phase, d),
{
}

/// Over any run of polls, the text of the replies, joined, is the text that the
/// polls took from the queue, in order.
pub proof fn law_run_delivers_what_it_takes(phase: Phase, run: Seq<Drains>)
    ensures
        replies_text(run_replies(phase, run)) == run_consumed(phase, run),
        run_replies(phase, run).len() == run.len(),
    decreases run.len(),
{
    if run.len() > 0 {
        let step = poll(phase, run[0].first, run[0].second);
        let rest = run_replies(step.1, run.drop_first());
        law_run_delivers_what_it_takes(step.1, run.drop_first());
        law_poll_delivers_what_it_takes(phase, run[0]);
        let all = seq![step.0] + rest;
        assert(all[0] == step.0);
        assert(all.drop_first() =~= rest);
    }
}

/// A poll replies `End` exactly when it leaves the reader ended, and an ended
/// reader replies `End` whatever the queue holds.
pub proof fn law_end_latches(phase: Phase, d: Drains)
    ensures
        poll(phase, d.first, d.second).0 is End <==> poll(phase, d.first, d.second).1
            == Phase::Ended,
        phase == Phase::Ended ==> poll(phase, d.first, d.second) == (
            MessageView::End,
            Phase::Ended,
        ),
{
}

/// A run that starts ended replies `End` throughout and stays ended.
pub proof fn law_ended_run(run: Seq<Drains>, i: int)
    requires
        0 <= i < run.len(),
    ensures
        run_replies(Phase::Ended, run).len() == run.len(),
        run_replies(Phase::Ended, run)[i] is End,
        run_phase(Phase::Ended, run) == Phase::Ended,
    decreases run.len(),
{
    let tail = run.drop_first();
    let rest = run_replies(Phase::Ended, tail);
    law_run_delivers_what_it_takes(Phase::Ended, run);
    if i > 0 {
        law_ended_run(tail, i - 1);
        assert((seq![MessageView::End] + rest)[i] == rest[i - 1]);
    } else if run.len() > 1 {
        law_ended_run(tail, 0);
    } else {
        assert(run_phase(Phase::Ended, tail) == Phase::Ended);
    }
}

/// Once a poll of a run has replied `End`, every later poll of that run replies
/// `End`.
pub proof fn law_end_is_final(phase: Phase, run: Seq<Drains>, i: int, j: int)
    requires
        0 <= i <= j < run.len(),
        run_replies(phase, run)[i] is End,
    ensures
        run_replies(phase, run)[j] is End,
    decreases run.len(),
{
    law_run_delivers_what_it_takes(phase, run);
    let step = poll(phase, run[0].first, run[0].second);
    let rest = run_replies(step.1, run.drop_first());
    law_run_delivers_what_it_takes(step.1, run.drop_first());
    assert(forall|k: int| 0 < k < run.len() ==> (seq![step.0] + rest)[k] == rest[k - 1]);
    if i == 0 {
        law_end_latches(phase, run[0]);
        if j > 0 {
            law_ended_run(run.drop_first(), j - 1);
        }
    } else {
        law_end_is_final(step.1, run.drop_first(), i - 1, j - 1);
    }
}

/// While no `End` reaches a live reader, every poll replies `Data` with the text
/// of its batch and the reader stays live. With an idle queue that text is empty.
pub proof fn law_live_poll(d: Drains)
    requires
        !has_end(d.first),
    ensures
        poll(Phase::Live, d.first, d.second) == (
            MessageView::Data(payload(d.first)),
            Phase::Live,
        ),
        d.first.len() == 0 ==> poll(Phase::Live, d.first, d.second).0 == MessageView::Data(
            Seq::empty(),
        ),
{
}

/// How the queue's content falls into polls does not matter: while no `End` is
/// met, one poll that takes two batches at once replies with the text that two
/// polls would have given, one after the other.
pub proof fn law_polls_coalesce(a: Seq<Message>, b: Seq<Message>, d: Drains)
    requires
        !has_end(a),
        !has_end(b),
    ensures
        poll(Phase::Live, a + b, d.second) == (
            MessageView::Data(
                poll(Phase::Live, a, d.second).0.text() + poll(Phase::Live, b, d.second).0.text(),
            ),
            Phase::Live,
        ),
{
    lemma_payload_concat(a, b);
    lemma_has_end_concat(a, b);
}

/// However long a live reader is polled on a queue that brings no `End`, no poll
/// replies `End` and the reader stays live.
pub proof fn law_live_run(run: Seq<Drains>, i: int)
    requires
        forall|k: int| 0 <= k < run.len() ==> !has_end(#[trigger] run[k].first),
        0 <= i < run.len(),
    ensures
        run_replies(Phase::Live, run).len() == run.len(),
        run_replies(Phase::Live, run)[i] == MessageView::Data(payload(run[i].first)),
        run_phase(Phase::Live, run) == Phase::Live,
    decreases run.len(),
{
    let tail = run.drop_first();
    let rest = run_replies(Phase::Live, tail);
    law_run_delivers_what_it_takes(Phase::Live, run);
    law_live_poll(run[0]);
    assert forall|k: int| 0 <= k < tail.len() implies !has_end(#[trigger] tail[k].first) by {
        assert(tail[k] == run[k + 1]);
    }
    if i > 0 {
        law_live_run(tail, i - 1);
        assert((seq![MessageView::Data(payload(run[0].first))] + rest)[i] == rest[i - 1]);
        assert(tail[i - 1] == run[i]);
    } else if run.len() > 1 {
        law_live_run(tail, 0);
    } else {
        assert(run_phase(Phase::Live, tail) == Phase::Live);
    }
}

/// The exit notice may overtake the last output. A poll that meets `End` first
/// and the text only after the grace interval still replies with that text and
/// keeps the end for later; the next poll that finds no text replies `End` and
/// ends the reader.
pub proof fn law_end_overtakes_output(phase: Phase, early: Drains, late: Drains)
    requires
        phase != Phase::Ended,
        end_known(phase, early.first),
        (payload(early.first) + payload(early.second)).len() > 0,
        payload(late.first).len() == 0,
        payload(late.second).len() == 0,
    ensures
        poll(phase, early.first, early.second) == (
            MessageView::Data(payload(early.first) + payload(early.second)),
            Phase::Draining,
        ),
        run_replies(phase, seq![early, late]) == seq![
            MessageView::Data(payload(early.first) + payload(early.second)),
            MessageView::End,
        ],
        run_phase(phase, seq![early, late]) == Phase::Ended,
{
    let run = seq![early, late];
    let tail = run.drop_first();
    assert(tail =~= seq![late]);
    assert(tail.drop_first() =~= Seq::<Drains>::empty());
    assert(payload(late.first) + payload(late.second) =~= Seq::<char>::empty());
    assert(poll(Phase::Draining, late.first, late.second) == (MessageView::End, Phase::Ended));
    assert(run_replies(Phase::Ended, tail.drop_first()) =~= Seq::<MessageView>::empty());
    assert(run_replies(Phase::Draining, tail) =~= seq![MessageView::End]);
    assert(run_phase(Phase::Ended, tail.drop_first()) == Phase::Ended);
    assert(run_phase(Phase::Draining, tail) == Phase::Ended);
    assert(run_replies(phase, run) =~= seq![
        MessageView::Data(payload(early.first) + payload(early.second)),
        MessageView::End,
    ]);
}

/// Once the end is known, a run in which every poll but the last finds text, and
/// the last finds none, replies with each poll's text in turn and then with
/// `End`, which ends the reader.
pub proof fn law_draining_run_ends(run: Seq<Drains>, i: int)
    requires
        run.len() > 0,
        0 <= i < run.len(),
        forall|k: int|
            0 <= k < run.len() - 1 ==> (payload((#[trigger] run[k]).first) + payload(
                run[k].second,
            )).len() > 0,
        (payload(run.last().first) + payload(run.last().second)).len() == 0,
    ensures
        run_replies(Phase::Draining, run).len() == run.len(),
        i < run.len() - 1 ==> run_replies(Phase::Draining, run)[i] == MessageView::Data(
            payload(run[i].first) + payload(run[i].second),
        ),
        i == run.len() - 1 ==> run_replies(Phase::Draining, run)[i] is End,
        run_phase(Phase::Draining, run) == Phase::Ended,
    decreases run.len(),
{
    let step = poll(Phase::Draining, run[0].first, run[0].second);
    let tail = run.drop_first();
    let rest = run_replies(step.1, tail);
    law_run_delivers_what_it_takes(Phase::Draining, run);
    law_run_delivers_what_it_takes(step.1, tail);
    if run.len() == 1 {
        assert(run.last() == run[0]);
        assert(rest =~= Seq::<MessageView>::empty());
        assert(run_phase(Phase::Ended, tail) == Phase::Ended);
    } else {
        assert(step.1 == Phase::Draining);
        assert(tail.last() == run.last());
        assert forall|k: int| 0 <= k < tail.len() - 1 implies (payload(
            (#[trigger] tail[k]).first,
        ) + payload(tail[k].second)).len() > 0 by {
            assert(tail[k] == run[k + 1]);
        }
        if i > 0 {
            law_draining_run_ends(tail, i - 1);
            assert((seq![step.0] + rest)[i] == rest[i - 1]);
            assert(tail[i - 1] == run[i]);
        } else {
            law_draining_run_ends(tail, 0);
        }
    }
}

/// The log of an open producer after a series of reads, each handled by
/// [`relay_step`], while the queue takes every message: the reads are handled in
/// turn until one closes the producer.
pub open spec fn relay_log(log: Seq<MessageView>, reads: Seq<ReadOutcome>) -> Seq<MessageView>
    decreases reads.len(),
{
    if reads.len() == 0 {
        log
    } else {
        let next = relay_step(log, reads[0], true);
        if next.1 {
            relay_log(next.0, reads.drop_first())
        } else {
            next.0
        }
    }
}

/// The bytes of the chunks that the reader bridge forwards for a series of reads:
/// those before the first read that it does not accept, laid end to end.
pub open spec fn accepted_bytes(reads: Seq<ReadOutcome>) -> Seq<u8>
    decreases reads.len(),
{
    if reads.len() == 0 || !accepts(reads[0]) {
        Seq::empty()
    } else {
        reads[0]->Bytes_0@ + accepted_bytes(reads.drop_first())
    }
}

/// Encoding a text piece by piece gives the encoding of the whole.
pub proof fn lemma_encode_concat(a: Seq<char>, b: Seq<char>)
    ensures
        encode_utf8(a + b) == encode_utf8(a) + encode_utf8(b),
    decreases a.len(),
{
    if a.len() == 0 {
        assert(a + b =~= b);
        assert(encode_utf8(a) + encode_utf8(b) =~= encode_utf8(b));
    } else {
        lemma_encode_concat(a.drop_first(), b);
        assert((a + b).drop_first() =~= a.drop_first() + b);
        assert((a + b)[0] == a[0]);
        assert(encode_utf8(a + b) =~= encode_utf8(a) + encode_utf8(b));
    }
}

/// Two well-formed chunks laid end to end are well formed, and decode to the
/// text of the first followed by the text of the second.
pub proof fn lemma_decode_concat(a: Seq<u8>, b: Seq<u8>)
    requires
        valid_utf8(a),
        valid_utf8(b),
    ensures
        valid_utf8(a + b),
        decode_utf8(a + b) == decode_utf8(a) + decode_utf8(b),
{
    valid_utf8_concat(a, b);
    decode_utf8_encode_utf8(a);
    decode_utf8_encode_utf8(b);
    lemma_encode_concat(decode_utf8(a), decode_utf8(b));
    encode_utf8_decode_utf8(decode_utf8(a) + decode_utf8(b));
}

/// The text of a log grows by the text of each message that is added to it.
pub proof fn lemma_replies_text_push(log: Seq<MessageView>, msg: MessageView)
    ensures
        replies_text(log.push(msg)) == replies_text(log) + msg.text(),
    decreases log.len(),
{
    if log.len() == 0 {
        let one = log.push(msg);
        assert(one.drop_first() =~= Seq::<MessageView>::empty());
        assert(one[0] == msg);
        assert(replies_text(one.drop_first()) =~= Seq::<char>::empty());
        assert(replies_text(one) =~= msg.text());
        assert(replies_text(log) + msg.text() =~= msg.text());
    } else {
        lemma_replies_text_push(log.drop_first(), msg);
        assert(log.push(msg).drop_first() =~= log.drop_first().push(msg));
        assert(log.push(msg)[0] == log[0]);
        assert(replies_text(log.push(msg)) =~= replies_text(log) + msg.text());
    }
}

/// Chunk by chunk, the reader bridge forwards exactly the text that the accepted
/// bytes encode as a whole: cutting the stream into chunks loses nothing and
/// reorders nothing.
pub proof fn law_relay_keeps_the_text(log: Seq<MessageView>, reads: Seq<ReadOutcome>)
    ensures
        valid_utf8(accepted_bytes(reads)),
        replies_text(relay_log(log, reads)) == replies_text(log) + decode_utf8(
            accepted_bytes(reads),
        ),
    decreases reads.len(),
{
    if reads.len() == 0 {
        assert(replies_text(log) + Seq::<char>::empty() =~= replies_text(log));
    } else if !accepts(reads[0]) {
        lemma_replies_text_push(log, MessageView::End);
        assert(replies_text(log) + Seq::<char>::empty() =~= replies_text(log));
    } else {
        let tail = reads.drop_first();
        let head = MessageView::Data(chunk_text(reads[0]));
        lemma_replies_text_push(log, head);
        law_relay_keeps_the_text(log.push(head), tail);
        lemma_decode_concat(reads[0]->Bytes_0@, accepted_bytes(tail));
        assert(replies_text(log) + chunk_text(reads[0]) + decode_utf8(accepted_bytes(tail))
            =~= replies_text(log) + (chunk_text(reads[0]) + decode_utf8(accepted_bytes(tail))));
    }
}

} // verus!
