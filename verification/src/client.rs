//! The text service's end of the pipe: whether it is connected, and the
//! exchange of one message with the input method (write, wait, read, wait),
//! each step decided here and performed by the caller.
use vstd::prelude::*;
use vstd::string::StrSliceExecFns;
use crate::protocol::PIPE_BUFFER_SIZE;

verus! {

/// How long the text service waits for a write or a read to complete, in
/// milliseconds.
pub const PIPE_TIMEOUT_MS: u32 = 500;

/// The text service's connection to the pipe: the open pipe's handle, if
/// any.
pub struct PipeClient {
    handle: Option<isize>,
}

/// What `connect` asks for.
#[derive(PartialEq, Eq, Structural, Clone, Copy, Debug)]
pub enum ConnectStep {
    /// The pipe is open already: connecting succeeds at once.
    Connected,
    /// Wait for the pipe (whatever the wait gives), open it, and report the
    /// handle with `on_open`.
    Open,
}

impl PipeClient {
    /// The open pipe's handle, if any.
    pub closed spec fn handle(&self) -> Option<isize> {
        self.handle
    }

    /// A client that is not connected.
    pub fn new() -> (c: PipeClient)
        ensures
            c.handle() is None,
    {
        PipeClient { handle: None }
    }

    /// The open pipe's handle, if any, for the calls of an exchange.
    pub fn pipe_handle(&self) -> (h: Option<isize>)
        ensures
            h == self.handle(),
    {
        self.handle
    }

    /// `connect`: nothing to do when the pipe is open; otherwise it is to be
    /// opened.
    pub fn connect(&self) -> (step: ConnectStep)
        ensures
            step == (if self.handle() is Some {
                ConnectStep::Connected
            } else {
                ConnectStep::Open
            }),
    {
        if self.handle.is_some() {
            ConnectStep::Connected
        } else {
            ConnectStep::Open
        }
    }

    /// Reports the opening of the pipe: its handle, or `None` when it could
    /// not be opened, which fails the connection.
    pub fn on_open(&mut self, opened: Option<isize>) -> (r: Result<(), String>)
        ensures
            match opened {
                Some(h) => r is Ok && final(self).handle() == Some(h),
                None => (r matches Err(e) && e@ == "Failed to open pipe"@) && final(self).handle()
                    == old(self).handle(),
            },
    {
        match opened {
            Some(h) => {
                self.handle = Some(h);
                Ok(())
            },
            None => Err("Failed to open pipe".to_owned()),
        }
    }

    /// `disconnect`: forgets the pipe and hands back its handle, to be
    /// closed, if it was open.
    pub fn disconnect(&mut self) -> (h: Option<isize>)
        ensures
            h == old(self).handle(),
            final(self).handle() is None,
    {
        let h = self.handle;
        self.handle = None;
        h
    }

    /// `send_message`: begins the exchange of `message` over the open pipe;
    /// without one it fails at once.
    pub fn send(&self, message: &str) -> (r: (SendExchange, SendStep))
        ensures
            r.0.message() == message@,
            self.handle() is None ==> r.0.phase() == SendPhase::Done && r.1@ == SendStepView::Finish(
                Err("Pipe not connected"@),
            ),
            self.handle() matches Some(h) ==> r.0.phase() == SendPhase::CreatingWriteEvent
                && r.1@ == SendStepView::Call(SendCallView::CreateEvent),
    {
        let exchange = SendExchange { message: message.to_owned(), phase: SendPhase::Done };
        match self.handle {
            None => (exchange, SendStep::Finish(Err("Pipe not connected".to_owned()))),
            Some(_) => (
                SendExchange { phase: SendPhase::CreatingWriteEvent, ..exchange },
                SendStep::Call(SendCall::CreateEvent),
            ),
        }
    }
}

/// A call the text service makes while it exchanges a message.
pub enum SendCall {
    /// Create an event; reply `Created`.
    CreateEvent,
    /// Start writing these bytes to the pipe, signalling the event; reply
    /// `Started`.
    Write(Vec<u8>),
    /// Start reading at most `capacity` bytes into the read buffer,
    /// signalling the event; reply `Started`.
    Read { capacity: usize },
    /// Wait for the event at most `timeout_ms` milliseconds; reply
    /// `Signalled`.
    Wait { timeout_ms: u32 },
    /// Ask how many bytes the read brought; reply `Transferred`.
    QueryRead,
    /// Close the event; reply `Closed`.
    CloseEvent,
}

/// The value of a `SendCall`.
pub enum SendCallView {
    CreateEvent,
    Write(Seq<u8>),
    Read { capacity: usize },
    Wait { timeout_ms: u32 },
    QueryRead,
    CloseEvent,
}

impl View for SendCall {
    type V = SendCallView;

    open spec fn view(&self) -> SendCallView {
        match self {
            SendCall::CreateEvent => SendCallView::CreateEvent,
            SendCall::Write(b) => SendCallView::Write(b@),
            SendCall::Read { capacity } => SendCallView::Read { capacity: *capacity },
            SendCall::Wait { timeout_ms } => SendCallView::Wait { timeout_ms: *timeout_ms },
            SendCall::QueryRead => SendCallView::QueryRead,
            SendCall::CloseEvent => SendCallView::CloseEvent,
        }
    }
}

/// The caller's report of a call.
#[derive(PartialEq, Eq, Structural, Clone, Copy, Debug)]
pub enum SendReply {
    /// Whether the event was created.
    Created(bool),
    /// Whether the write or read was started (completed at once or still
    /// pending), and the byte count it reported at once.
    Started { ok: bool, count: u32 },
    /// Whether the event was signalled before the timeout.
    Signalled(bool),
    /// The byte count of the completed read, `None` when it could not be
    /// read.
    Transferred(Option<u32>),
    /// The event was closed.
    Closed,
}

/// What the exchange asks for next: a call, or its end. `Ok(n)` says that the
/// first `n` bytes of the read buffer are the answer (no answer when `n` is
/// 0).
pub enum SendStep {
    Call(SendCall),
    Finish(Result<u32, String>),
}

/// The value of a `SendStep`.
pub enum SendStepView {
    Call(SendCallView),
    Finish(Result<u32, Seq<char>>),
}

impl View for SendStep {
    type V = SendStepView;

    open spec fn view(&self) -> SendStepView {
        match self {
            SendStep::Call(c) => SendStepView::Call(c@),
            SendStep::Finish(Ok(n)) => SendStepView::Finish(Ok(*n)),
            SendStep::Finish(Err(e)) => SendStepView::Finish(Err(e@)),
        }
    }
}

/// Where an exchange stands: which reply it awaits, with the byte count of
/// the read once it is known.
#[derive(PartialEq, Eq, Structural, Clone, Copy, Debug)]
pub enum SendPhase {
    CreatingWriteEvent,
    Writing,
    WaitingWrite,
    /// Closing the write event; whether the write completed in time.
    ClosingWriteEvent(bool),
    CreatingReadEvent,
    Reading,
    WaitingRead(u32),
    QueryingRead(u32),
    ClosingReadEvent(u32),
    /// The exchange is over.
    Done,
}

/// Whether `r` is the kind of reply that phase `p` waits for.
pub open spec fn send_expects(p: SendPhase, r: SendReply) -> bool {
    match p {
        SendPhase::CreatingWriteEvent | SendPhase::CreatingReadEvent => r is Created,
        SendPhase::Writing | SendPhase::Reading => r is Started,
        SendPhase::WaitingWrite | SendPhase::WaitingRead(_) => r is Signalled,
        SendPhase::QueryingRead(_) => r is Transferred,
        SendPhase::ClosingWriteEvent(_) | SendPhase::ClosingReadEvent(_) => r is Closed,
        SendPhase::Done => false,
    }
}

/// Ends the exchange with an error message.
pub open spec fn send_fail(msg: Seq<char>) -> (SendPhase, SendStepView) {
    (SendPhase::Done, SendStepView::Finish(Err(msg)))
}

/// What the exchange of `message` does with the reply to its last call: the
/// message is written and waited for, the event closed; a timed-out write
/// fails; then an answer is read into the whole buffer and waited for, the
/// count of the completed read replacing the one reported at once; the event
/// is closed and the count is the result. A failure to create an event or to
/// start a transfer ends the exchange at once.
pub open spec fn send_next(message: Seq<char>, p: SendPhase, r: SendReply) -> (SendPhase, SendStepView) {
    match p {
        SendPhase::CreatingWriteEvent => match r {
            SendReply::Created(true) => (
                SendPhase::Writing,
                SendStepView::Call(SendCallView::Write(vstd::utf8::encode_utf8(message))),
            ),
            _ => send_fail("Failed to create write event"@),
        },
        SendPhase::Writing => match r {
            SendReply::Started { ok: true, count: _ } => (
                SendPhase::WaitingWrite,
                SendStepView::Call(SendCallView::Wait { timeout_ms: PIPE_TIMEOUT_MS }),
            ),
            _ => send_fail("Pipe write failed"@),
        },
        SendPhase::WaitingWrite => (
            SendPhase::ClosingWriteEvent(r == SendReply::Signalled(true)),
            SendStepView::Call(SendCallView::CloseEvent),
        ),
        SendPhase::ClosingWriteEvent(completed) => if completed {
            (SendPhase::CreatingReadEvent, SendStepView::Call(SendCallView::CreateEvent))
        } else {
            send_fail("Pipe write timed out"@)
        },
        SendPhase::CreatingReadEvent => match r {
            SendReply::Created(true) => (
                SendPhase::Reading,
                SendStepView::Call(SendCallView::Read { capacity: PIPE_BUFFER_SIZE }),
            ),
            _ => send_fail("Failed to create read event"@),
        },
        SendPhase::Reading => match r {
            SendReply::Started { ok: true, count } => (
                SendPhase::WaitingRead(count),
                SendStepView::Call(SendCallView::Wait { timeout_ms: PIPE_TIMEOUT_MS }),
            ),
            _ => send_fail("Pipe read failed"@),
        },
        SendPhase::WaitingRead(count) => if r == SendReply::Signalled(true) {
            (SendPhase::QueryingRead(count), SendStepView::Call(SendCallView::QueryRead))
        } else {
            (SendPhase::ClosingReadEvent(count), SendStepView::Call(SendCallView::CloseEvent))
        },
        SendPhase::QueryingRead(count) => (
            SendPhase::ClosingReadEvent(
                match r {
                    SendReply::Transferred(Some(n)) => n,
                    _ => count,
                },
            ),
            SendStepView::Call(SendCallView::CloseEvent),
        ),
        SendPhase::ClosingReadEvent(count) => (SendPhase::Done, SendStepView::Finish(Ok(count))),
        SendPhase::Done => send_fail(Seq::empty()),
    }
}

/// An exchange in progress: the message and where the exchange stands.
pub struct SendExchange {
    message: String,
    phase: SendPhase,
}

impl SendExchange {
    /// The message being sent.
    pub closed spec fn message(&self) -> Seq<char> {
        self.message@
    }

    /// Where the exchange stands.
    pub closed spec fn phase(&self) -> SendPhase {
        self.phase
    }

    fn finish_err(&mut self, msg: &str) -> (step: SendStep)
        ensures
            final(self).message() == old(self).message(),
            (final(self).phase(), step@) == send_fail(msg@),
    {
        self.phase = SendPhase::Done;
        SendStep::Finish(Err(msg.to_owned()))
    }

    fn call(&mut self, p: SendPhase, c: SendCall) -> (step: SendStep)
        ensures
            final(self).message() == old(self).message(),
            final(self).phase() == p,
            step@ == SendStepView::Call(c@),
    {
        self.phase = p;
        SendStep::Call(c)
    }

    /// Continues the exchange with the reply to its last call (see
    /// `send_next`). The reply must be of the kind the call asks for.
    pub fn resume(&mut self, reply: SendReply) -> (step: SendStep)
        requires
            send_expects(old(self).phase(), reply),
        ensures
            final(self).message() == old(self).message(),
            (final(self).phase(), step@) == send_next(old(self).message(), old(self).phase(), reply),
    {
        match self.phase {
            SendPhase::CreatingWriteEvent => match reply {
                SendReply::Created(true) => {
                    let bytes = self.message.as_str().as_bytes_vec();
                    self.call(SendPhase::Writing, SendCall::Write(bytes))
                },
                _ => self.finish_err("Failed to create write event"),
            },
            SendPhase::Writing => match reply {
                SendReply::Started { ok: true, count: _ } => self.call(
                    SendPhase::WaitingWrite,
                    SendCall::Wait { timeout_ms: PIPE_TIMEOUT_MS },
                ),
                _ => self.finish_err("Pipe write failed"),
            },
            SendPhase::WaitingWrite => {
                let completed = reply == SendReply::Signalled(true);
                self.call(SendPhase::ClosingWriteEvent(completed), SendCall::CloseEvent)
            },
            SendPhase::ClosingWriteEvent(completed) => if completed {
                self.call(SendPhase::CreatingReadEvent, SendCall::CreateEvent)
            } else {
                self.finish_err("Pipe write timed out")
            },
            SendPhase::CreatingReadEvent => match reply {
                SendReply::Created(true) => self.call(
                    SendPhase::Reading,
                    SendCall::Read { capacity: PIPE_BUFFER_SIZE },
                ),
                _ => self.finish_err("Failed to create read event"),
            },
            SendPhase::Reading => match reply {
                SendReply::Started { ok: true, count } => self.call(
                    SendPhase::WaitingRead(count),
                    SendCall::Wait { timeout_ms: PIPE_TIMEOUT_MS },
                ),
                _ => self.finish_err("Pipe read failed"),
            },
            SendPhase::WaitingRead(count) => if reply == SendReply::Signalled(true) {
                self.call(SendPhase::QueryingRead(count), SendCall::QueryRead)
            } else {
                self.call(SendPhase::ClosingReadEvent(count), SendCall::CloseEvent)
            },
            SendPhase::QueryingRead(count) => {
                let n = match reply {
                    SendReply::Transferred(Some(n)) => n,
                    _ => count,
                };
                self.call(SendPhase::ClosingReadEvent(n), SendCall::CloseEvent)
            },
            SendPhase::ClosingReadEvent(count) => {
                self.phase = SendPhase::Done;
                SendStep::Finish(Ok(count))
            },
            SendPhase::Done => self.finish_err(""),
        }
    }
}

/// How many more replies an exchange can need in a phase, at most.
pub open spec fn send_rank(p: SendPhase) -> nat {
    match p {
        SendPhase::CreatingWriteEvent => 9,
        SendPhase::Writing => 8,
        SendPhase::WaitingWrite => 7,
        SendPhase::ClosingWriteEvent(_) => 6,
        SendPhase::CreatingReadEvent => 5,
        SendPhase::Reading => 4,
        SendPhase::WaitingRead(_) => 3,
        SendPhase::QueryingRead(_) => 2,
        SendPhase::ClosingReadEvent(_) => 1,
        SendPhase::Done => 0,
    }
}

/// Every reply moves an exchange closer to its end, so an exchange ends
/// after at most nine replies; it has ended exactly when it is done.
pub proof fn lemma_exchange_progress(message: Seq<char>, p: SendPhase, r: SendReply)
    requires
        p != SendPhase::Done,
    ensures
        send_rank(send_next(message, p, r).0) < send_rank(p),
        (send_next(message, p, r).1 is Finish) == (send_next(message, p, r).0 == SendPhase::Done),
{
}

/// The message is written whole, as its UTF-8 bytes, and only once the write
/// event exists; the answer is read only after the write completed in time,
/// into the whole buffer.
pub proof fn lemma_exchange_order(message: Seq<char>, p: SendPhase, r: SendReply)
    ensures
        send_next(message, p, r).1 matches SendStepView::Call(SendCallView::Write(b)) ==> (b
            == vstd::utf8::encode_utf8(message) && p == SendPhase::CreatingWriteEvent && r
            == SendReply::Created(true)),
        send_next(message, p, r).1 matches SendStepView::Call(SendCallView::Read { capacity }) ==> (
        capacity == PIPE_BUFFER_SIZE && p == SendPhase::CreatingReadEvent),
        send_next(message, p, r).0 == SendPhase::CreatingReadEvent ==> p == SendPhase::ClosingWriteEvent(
            true,
        ),
        send_next(message, p, r).0 matches SendPhase::ClosingWriteEvent(completed) ==> (p
            == SendPhase::WaitingWrite && completed == (r == SendReply::Signalled(true))),
{
}

} // verus!
