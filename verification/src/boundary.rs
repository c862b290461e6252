//! What a poll's reply becomes at the call boundary.
//!
//! A foreign caller gets a status code and, with `Data`, the text itself. The
//! text crosses whole, whatever it holds: a zero byte is a character like any
//! other, so the text is handed over with its length, not as a string that ends
//! at the first zero byte.

use crate::message::{Message, MessageView};
use vstd::prelude::*;

verus! {

/// The call succeeded.
pub const STATUS_OK: i8 = 0;

/// The call failed; an error text goes with this status.
pub const STATUS_ERROR: i8 = -1;

/// The stream has ended: there is no more output, now or later.
pub const STATUS_END: i8 = 99;

/// A poll's reply as the boundary hands it on.
#[derive(Debug, PartialEq, Eq)]
pub enum ReadReply {
    /// Output, possibly empty: nothing new has arrived, and the session lives.
    Text(String),
    /// The end of the stream.
    End,
}

/// Whether `reply` is what `msg` becomes at the boundary: `End` stays `End`, and
/// `Data` hands over its whole text.
pub open spec fn reply_fits(msg: MessageView, reply: ReadReply) -> bool {
    match msg {
        MessageView::End => reply is End,
        MessageView::Data(text) => reply matches ReadReply::Text(out) && out@ == text,
    }
}

/// The status code that goes with a reply.
pub open spec fn status_of(reply: ReadReply) -> i8 {
    match reply {
        ReadReply::Text(_) => STATUS_OK,
        ReadReply::End => STATUS_END,
    }
}

/// Turns a poll's reply into what crosses the boundary. No reply is an error,
/// and no text is cut or refused.
pub fn read_reply(msg: Message) -> (reply: ReadReply)
    ensures
        reply_fits(msg@, reply),
{
    match msg {
        Message::End => ReadReply::End,
        Message::Data(text) => ReadReply::Text(text),
    }
}

impl ReadReply {
    /// The status code that goes with the reply.
    pub fn status(&self) -> (code: i8)
        ensures
            code == status_of(*self),
    {
        match self {
            ReadReply::Text(_) => STATUS_OK,
            ReadReply::End => STATUS_END,
        }
    }
}

} // verus!
