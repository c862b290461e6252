use std::io::Read;

use crossbeam::channel::unbounded;
use portable_pty::{native_pty_system, PtyPair};
use pty_bridge::{
    build_command, Command, Message, Producer, Pty, ReadOutcome, ReadStep, TerminalSize,
    WriterBridge, READ_BUFFER_BYTES,
};

// These run a real child in a real terminal, on the test's own thread: every
// blocking call is made only when it is known to return.

fn open_terminal() -> PtyPair {
    native_pty_system().openpty(TerminalSize::initial().to_provider()).unwrap()
}

fn echo_hi() -> Command {
    Command { cmd: "echo".to_string(), args: Some(vec!["hi".to_string()]), env: None, cwd: None }
}

fn poll(pty: &mut Pty) -> Message {
    match pty.begin_read() {
        ReadStep::Ready(msg) => msg,
        ReadStep::Grace(held) => pty.finish_read(held),
    }
}

#[test]
fn echo_in_a_terminal_is_seen_and_then_the_end() {
    let pair = open_terminal();
    let builder = build_command(&echo_hi(), "/usr/local/bin:/usr/bin:/bin", "/");
    let mut child = pair.slave.spawn_command(builder).unwrap();
    let mut reader = pair.master.try_clone_reader().unwrap();

    let (tx_read, rx_read) = unbounded::<Message>();
    let (tx_write, _rx_write) = unbounded::<String>();
    let mut pty = Pty::new(rx_read, tx_write);
    let mut watcher = Producer::new(tx_read.clone());
    let mut bridge = Producer::new(tx_read);

    // Nothing has been relayed yet: the session is alive and has nothing new.
    assert_eq!(poll(&mut pty), Message::Data(String::new()));

    // The exit notice overtakes the output, which is still in the terminal.
    child.wait().unwrap();
    watcher.finish();
    let mut buf = vec![0u8; READ_BUFFER_BYTES];
    let n = reader.read(&mut buf).unwrap();
    assert!(bridge.relay(ReadOutcome::Bytes(buf[..n].to_vec())));

    match poll(&mut pty) {
        Message::Data(text) => assert!(text.contains("hi"), "saw {text:?}"),
        Message::End => panic!("the stream ended before its output was seen"),
    }
    assert_eq!(poll(&mut pty), Message::End);
    assert_eq!(poll(&mut pty), Message::End);
}

#[test]
fn unknown_program_is_refused() {
    let pair = open_terminal();
    let command = Command {
        cmd: "pty-bridge-test-no-such-program".to_string(),
        args: None,
        env: None,
        cwd: None,
    };
    let builder = build_command(&command, "/usr/local/bin:/usr/bin:/bin", "/");
    assert!(pair.slave.spawn_command(builder).is_err());
}

#[test]
fn terminal_reports_the_size_it_was_given() {
    let pair = open_terminal();
    let size = pair.master.get_size().map(TerminalSize::from_provider).unwrap();
    assert_eq!(size, TerminalSize { rows: 24, cols: 80, pixel_width: 0, pixel_height: 0 });

    let wanted = TerminalSize { rows: 50, cols: 120, pixel_width: 1, pixel_height: 1 };
    pair.master.resize(wanted.to_provider()).unwrap();
    let size = pair.master.get_size().map(TerminalSize::from_provider).unwrap();
    assert_eq!(size, wanted);
}

#[test]
fn write_after_the_child_is_gone_is_still_accepted() {
    let pair = open_terminal();
    let builder = build_command(&echo_hi(), "/usr/local/bin:/usr/bin:/bin", "/");
    let mut child = pair.slave.spawn_command(builder).unwrap();
    let mut writer = pair.master.take_writer().unwrap();

    let (tx_read, rx_read) = unbounded::<Message>();
    let (tx_write, rx_write) = unbounded::<String>();
    let mut pty = Pty::new(rx_read, tx_write);
    let mut watcher = Producer::new(tx_read);
    let mut writer_bridge = WriterBridge::new(rx_write);

    child.wait().unwrap();
    watcher.finish();
    assert_eq!(poll(&mut pty), Message::End);

    // The submission only enqueues: it succeeds whatever became of the child.
    assert_eq!(pty.write("too late\n".to_string()), Ok(()));
    let text = writer_bridge.next().unwrap();
    assert_eq!(text, "too late\n");
    let written = writer.write_all(text.as_bytes()).is_ok();
    writer_bridge.settle(written);
    // While the writer queue is open a later submission succeeds too.
    assert_eq!(pty.write("still accepted\n".to_string()), Ok(()));
}

#[test]
fn command_runs_in_its_directory_with_its_variables() {
    let pair = open_terminal();
    let command = Command {
        cmd: "sh".to_string(),
        args: Some(vec!["-c".to_string(), "echo $PTY_BRIDGE_TEST_VALUE in $PWD".to_string()]),
        env: Some(vec![("PTY_BRIDGE_TEST_VALUE".to_string(), "42".to_string())]),
        cwd: Some("/tmp".to_string()),
    };
    let builder = build_command(&command, "/usr/local/bin:/usr/bin:/bin", "/");
    let mut child = pair.slave.spawn_command(builder).unwrap();
    let mut reader = pair.master.try_clone_reader().unwrap();
    child.wait().unwrap();
    let mut buf = vec![0u8; READ_BUFFER_BYTES];
    let n = reader.read(&mut buf).unwrap();
    let text = String::from_utf8(buf[..n].to_vec()).unwrap();
    assert!(text.contains("42 in /tmp"), "saw {text:?}");
}
