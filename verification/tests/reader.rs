use crossbeam::channel::unbounded;
use pty_bridge::reader::{first_pass, grace_pass};
use pty_bridge::{Message, Phase, PtyReader, ReadStep, GRACE_MILLIS};

fn data(text: &str) -> Message {
    Message::Data(text.to_string())
}

#[test]
fn grace_interval_is_a_tenth_of_a_second() {
    assert_eq!(GRACE_MILLIS, 100);
}

#[test]
fn first_pass_on_empty_batch_gives_empty_data() {
    let (step, phase) = first_pass(Phase::Live, vec![]);
    assert_eq!(step, ReadStep::Ready(data("")));
    assert_eq!(phase, Phase::Live);
}

#[test]
fn first_pass_joins_chunks_in_order() {
    let (step, phase) = first_pass(Phase::Live, vec![data("ab"), data("cd"), data("e")]);
    assert_eq!(step, ReadStep::Ready(data("abcde")));
    assert_eq!(phase, Phase::Live);
}

#[test]
fn first_pass_with_end_asks_for_grace_and_holds_the_text() {
    let (step, phase) = first_pass(Phase::Live, vec![data("ab"), Message::End, data("cd")]);
    assert_eq!(step, ReadStep::Grace("abcd".to_string()));
    assert_eq!(phase, Phase::Draining);
}

#[test]
fn first_pass_with_end_alone_asks_for_grace() {
    let (step, phase) = first_pass(Phase::Live, vec![Message::End]);
    assert_eq!(step, ReadStep::Grace(String::new()));
    assert_eq!(phase, Phase::Draining);
}

#[test]
fn first_pass_while_draining_asks_for_grace_without_a_new_end() {
    let (step, phase) = first_pass(Phase::Draining, vec![data("xy")]);
    assert_eq!(step, ReadStep::Grace("xy".to_string()));
    assert_eq!(phase, Phase::Draining);

    let (step, phase) = first_pass(Phase::Draining, vec![]);
    assert_eq!(step, ReadStep::Grace(String::new()));
    assert_eq!(phase, Phase::Draining);
}

#[test]
fn first_pass_when_ended_ignores_the_batch() {
    let (step, phase) = first_pass(Phase::Ended, vec![data("late")]);
    assert_eq!(step, ReadStep::Ready(Message::End));
    assert_eq!(phase, Phase::Ended);
}

#[test]
fn grace_pass_without_text_ends() {
    let (msg, phase) = grace_pass(String::new(), vec![]);
    assert_eq!(msg, Message::End);
    assert_eq!(phase, Phase::Ended);

    let (msg, phase) = grace_pass(String::new(), vec![Message::End, Message::End]);
    assert_eq!(msg, Message::End);
    assert_eq!(phase, Phase::Ended);
}

#[test]
fn grace_pass_with_held_text_delivers_it_and_does_not_end() {
    let (msg, phase) = grace_pass("ab".to_string(), vec![]);
    assert_eq!(msg, data("ab"));
    assert_eq!(phase, Phase::Draining);
}

#[test]
fn grace_pass_merges_held_text_before_late_text() {
    let (msg, phase) = grace_pass("ab".to_string(), vec![data("cd"), Message::End, data("ef")]);
    assert_eq!(msg, data("abcdef"));
    assert_eq!(phase, Phase::Draining);
}

#[test]
fn grace_pass_with_only_empty_chunks_ends() {
    let (msg, phase) = grace_pass(String::new(), vec![data(""), data("")]);
    assert_eq!(msg, Message::End);
    assert_eq!(phase, Phase::Ended);
}

#[test]
fn new_reader_is_live() {
    let (_tx, rx) = unbounded::<Message>();
    let reader = PtyReader::new(rx);
    assert_eq!(reader.phase(), Phase::Live);
}

#[test]
fn idle_queue_gives_empty_data_again_and_again() {
    let (_tx, rx) = unbounded::<Message>();
    let mut reader = PtyReader::new(rx);
    for _ in 0..50 {
        assert_eq!(reader.begin_read(), ReadStep::Ready(data("")));
        assert_eq!(reader.phase(), Phase::Live);
    }
}

#[test]
fn poll_drains_everything_that_is_ready() {
    let (tx, rx) = unbounded::<Message>();
    let mut reader = PtyReader::new(rx);
    tx.send(data("one ")).unwrap();
    tx.send(data("two ")).unwrap();
    tx.send(data("three")).unwrap();
    assert_eq!(reader.begin_read(), ReadStep::Ready(data("one two three")));
    assert_eq!(reader.begin_read(), ReadStep::Ready(data("")));
}

#[test]
fn polls_deliver_every_byte_once_and_in_order() {
    let (tx, rx) = unbounded::<Message>();
    let mut reader = PtyReader::new(rx);
    let mut seen = String::new();
    for round in 0..10 {
        for part in 0..round {
            tx.send(data(&format!("{round}.{part};"))).unwrap();
        }
        match reader.begin_read() {
            ReadStep::Ready(Message::Data(text)) => seen.push_str(&text),
            other => panic!("unexpected step {other:?}"),
        }
    }
    let mut expected = String::new();
    for round in 0..10 {
        for part in 0..round {
            expected.push_str(&format!("{round}.{part};"));
        }
    }
    assert_eq!(seen, expected);
}

#[test]
fn end_with_nothing_left_is_reported_and_latched() {
    let (tx, rx) = unbounded::<Message>();
    let mut reader = PtyReader::new(rx);
    tx.send(Message::End).unwrap();
    let held = match reader.begin_read() {
        ReadStep::Grace(held) => held,
        other => panic!("unexpected step {other:?}"),
    };
    assert_eq!(held, "");
    assert_eq!(reader.finish_read(held), Message::End);
    assert_eq!(reader.phase(), Phase::Ended);

    tx.send(data("too late")).unwrap();
    for _ in 0..5 {
        assert_eq!(reader.begin_read(), ReadStep::Ready(Message::End));
        assert_eq!(reader.phase(), Phase::Ended);
    }
    assert_eq!(reader.finish_read("x".to_string()), Message::End);
    assert_eq!(reader.phase(), Phase::Ended);
}

#[test]
fn output_that_the_exit_notice_overtook_is_not_lost() {
    let (tx, rx) = unbounded::<Message>();
    let mut reader = PtyReader::new(rx);

    // The exit notice arrives first.
    tx.send(Message::End).unwrap();
    let held = match reader.begin_read() {
        ReadStep::Grace(held) => held,
        other => panic!("unexpected step {other:?}"),
    };
    // The last output arrives during the grace interval.
    tx.send(data("last ")).unwrap();
    tx.send(data("words")).unwrap();
    assert_eq!(reader.finish_read(held), data("last words"));
    assert_eq!(reader.phase(), Phase::Draining);

    // The next poll finds nothing left and reports the end.
    let held = match reader.begin_read() {
        ReadStep::Grace(held) => held,
        other => panic!("unexpected step {other:?}"),
    };
    assert_eq!(reader.finish_read(held), Message::End);
    assert_eq!(reader.phase(), Phase::Ended);
    assert_eq!(reader.begin_read(), ReadStep::Ready(Message::End));
}

#[test]
fn text_before_the_end_goes_out_before_the_end() {
    let (tx, rx) = unbounded::<Message>();
    let mut reader = PtyReader::new(rx);
    tx.send(data("hi\r\n")).unwrap();
    tx.send(Message::End).unwrap();
    tx.send(Message::End).unwrap();

    let held = match reader.begin_read() {
        ReadStep::Grace(held) => held,
        other => panic!("unexpected step {other:?}"),
    };
    assert_eq!(held, "hi\r\n");
    assert_eq!(reader.finish_read(held), data("hi\r\n"));

    let held = match reader.begin_read() {
        ReadStep::Grace(held) => held,
        other => panic!("unexpected step {other:?}"),
    };
    assert_eq!(reader.finish_read(held), Message::End);
}

#[test]
fn forked_reader_keeps_its_own_latch_on_a_shared_queue() {
    let (tx, rx) = unbounded::<Message>();
    let mut first = PtyReader::new(rx);
    let mut second = first.fork();
    assert_eq!(second.phase(), Phase::Live);

    tx.send(data("shared")).unwrap();
    assert_eq!(first.begin_read(), ReadStep::Ready(data("shared")));
    // The text was taken by the first reader; the second sees none of it.
    assert_eq!(second.begin_read(), ReadStep::Ready(data("")));

    tx.send(Message::End).unwrap();
    let held = match first.begin_read() {
        ReadStep::Grace(held) => held,
        other => panic!("unexpected step {other:?}"),
    };
    assert_eq!(first.finish_read(held), Message::End);
    assert_eq!(first.phase(), Phase::Ended);
    assert_eq!(second.phase(), Phase::Live);
    assert_eq!(second.begin_read(), ReadStep::Ready(data("")));

    let third = first.fork();
    assert_eq!(third.phase(), Phase::Ended);
}

#[test]
fn second_look_on_a_live_reader_hands_the_text_back() {
    let (tx, rx) = unbounded::<Message>();
    let mut reader = PtyReader::new(rx);
    tx.send(data("queued")).unwrap();
    tx.send(Message::End).unwrap();
    // No first look asked for it: the queue and the phase are left alone.
    assert_eq!(reader.finish_read("held".to_string()), data("held"));
    assert_eq!(reader.phase(), Phase::Live);
    assert_eq!(reader.finish_read(String::new()), data(""));
    assert_eq!(reader.phase(), Phase::Live);
    assert_eq!(reader.begin_read(), ReadStep::Grace("queued".to_string()));
    assert_eq!(reader.phase(), Phase::Draining);
}

#[test]
fn text_with_a_zero_byte_is_polled_whole() {
    let (tx, rx) = unbounded::<Message>();
    let mut reader = PtyReader::new(rx);
    tx.send(data("a\0b")).unwrap();
    assert_eq!(reader.begin_read(), ReadStep::Ready(data("a\0b")));
}
