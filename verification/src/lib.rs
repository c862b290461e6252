//! A bridge between a pseudo-terminal session and a caller that must never block.
//!
//! Bytes that the child process writes travel through a queue of [`Message`]s to a
//! polling reader; text that the caller submits travels through a second queue to
//! the terminal. This crate holds the rules of that traffic: how a poll coalesces
//! what the queue holds, when the end of the stream is reported, what the relaying
//! threads forward, and how a command is prepared for launch.

pub mod boundary;
pub mod bridge;
pub mod channel;
pub mod command;
pub mod laws;
pub mod message;
pub mod reader;
pub mod session;
pub mod size;

pub use boundary::{read_reply, ReadReply, STATUS_END, STATUS_ERROR, STATUS_OK};
pub use bridge::{Producer, ReadOutcome, WriterBridge, READ_BUFFER_BYTES};
pub use command::{build_command, Command};
pub use message::{Message, MessageView};
pub use reader::{Phase, PtyReader, ReadStep, ReadStepView, GRACE_MILLIS};
pub use session::{Pty, Wiring, WriteError};
pub use size::TerminalSize;
