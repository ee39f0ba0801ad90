//! The routing state of one connection to the engine: which identifier the
//! next request gets, which requests are outstanding, and what is done with
//! each frame that the engine sends.
//!
//! The state is plain data. Whoever shares it between threads holds it under
//! one lock, so that each operation below runs as a whole.

use crate::frame::{Frame, Reply};
use crate::input::{payload_text, Call, CallModel};
use crate::keymap::CallMode;
use crate::pending::{lemma_without, without, PendingTable};
use vstd::prelude::*;

verus! {

/// The routing state as a mathematical value.
pub ghost struct SessionModel {
    /// The outstanding identifiers, oldest first.
    pub pending: Seq<u64>,
    /// The identifier that the next request gets.
    pub next_id: u64,
    /// Whether the connection is still usable.
    pub open: bool,
}

/// Why a call could not be turned into a frame.
#[derive(Clone, Copy, Debug, PartialEq, Eq, Structural)]
pub enum SendError {
    /// The connection has ended.
    ConnectionClosed,
    /// The identifier that the request would get is still outstanding.
    IdentifierCollision,
}

/// What the event loop does with one incoming frame.
#[derive(Debug, PartialEq, Eq)]
pub enum LoopAction {
    /// Hand `reply` to the caller that waits on `id`.
    Deliver { id: u64, reply: Reply },
    /// Call the notification handler, and wait until it returns.
    Dispatch { method: String, params: String },
    /// Log the response, whose identifier no outstanding request has, and
    /// go on.
    Discard { id: u64 },
    /// Answer the engine's request `id` with an error, and go on: this
    /// client serves no requests.
    Refuse { id: u64, method: String },
}

/// The routing state of one connection.
pub struct Session {
    pending: PendingTable,
    next_id: u64,
    open: bool,
}

impl SessionModel {
    /// No identifier is outstanding twice.
    pub open spec fn wf(self) -> bool {
        self.pending.no_duplicates()
    }

    /// The state of a connection on which nothing has happened.
    pub open spec fn fresh() -> SessionModel {
        SessionModel { pending: Seq::empty(), next_id: 0, open: true }
    }

    /// Whether a request made now gets a frame.
    pub open spec fn accepts_request(self) -> bool {
        self.open && !self.pending.contains(self.next_id)
    }

    /// What a request made now returns.
    pub open spec fn request_result(self, method: String, params: String) -> Result<
        Frame,
        SendError,
    > {
        if !self.open {
            Err(SendError::ConnectionClosed)
        } else if self.pending.contains(self.next_id) {
            Err(SendError::IdentifierCollision)
        } else {
            Ok(Frame::Request { id: self.next_id, method, params })
        }
    }

    /// The state after a request was made.
    pub open spec fn after_request(self) -> SessionModel {
        if self.accepts_request() {
            SessionModel {
                pending: self.pending.push(self.next_id),
                next_id: if self.next_id == u64::MAX {
                    0
                } else {
                    (self.next_id + 1) as u64
                },
                open: true,
            }
        } else {
            self
        }
    }

    /// What the event loop does with `frame`.
    pub open spec fn react(self, frame: Frame) -> LoopAction {
        match frame {
            Frame::Response { id, reply } => if self.pending.contains(id) {
                LoopAction::Deliver { id, reply }
            } else {
                LoopAction::Discard { id }
            },
            Frame::Notification { method, params } => LoopAction::Dispatch { method, params },
            Frame::Request { id, method, .. } => LoopAction::Refuse { id, method },
        }
    }

    /// The state after the event loop has dealt with `frame`.
    pub open spec fn after_frame(self, frame: Frame) -> SessionModel {
        match frame {
            Frame::Response { id, .. } => SessionModel {
                pending: without(self.pending, id),
                ..self
            },
            _ => self,
        }
    }

    /// The state after the connection has ended.
    pub open spec fn closed(self) -> SessionModel {
        SessionModel { pending: Seq::empty(), next_id: self.next_id, open: false }
    }
}

/// Whether `frame` is what `call` puts on the wire in state `m`: a request
/// under the next identifier or a notification, as the call's mode says,
/// with the call's method and payload.
pub open spec fn carries(m: SessionModel, frame: Frame, call: CallModel) -> bool {
    match frame {
        Frame::Request { id, method, params } => {
            &&& call.mode is Request
            &&& id == m.next_id
            &&& method@ == call.params.method()
            &&& params@ == payload_text(call.params)
        },
        Frame::Notification { method, params } => {
            &&& call.mode is Notification
            &&& method@ == call.params.method()
            &&& params@ == payload_text(call.params)
        },
        Frame::Response { .. } => false,
    }
}

impl Session {
    /// The routing state as a mathematical value.
    pub closed spec fn view(&self) -> SessionModel {
        SessionModel { pending: self.pending.ids(), next_id: self.next_id, open: self.open }
    }

    /// The state of a connection on which nothing has happened: open, no
    /// request outstanding, identifiers starting at zero.
    pub fn new() -> (session: Self)
        ensures
            session@ == SessionModel::fresh(),
            session@.wf(),
    {
        Session { pending: PendingTable::new(), next_id: 0, open: true }
    }

    /// Whether the connection is still usable.
    pub fn is_open(&self) -> (open: bool)
        ensures
            open == self@.open,
    {
        self.open
    }

    /// How many requests are outstanding.
    pub fn outstanding(&self) -> (n: usize)
        ensures
            n == self@.pending.len(),
    {
        self.pending.len()
    }

    /// Whether the request with this identifier is outstanding.
    pub fn is_pending(&self, id: u64) -> (found: bool)
        ensures
            found == self@.pending.contains(id),
    {
        self.pending.contains(id)
    }

    /// Makes the frame of a notification. Nothing is registered: no answer
    /// will come. Fails once the connection has ended.
    pub fn send_notification(&self, method: String, params: String) -> (frame: Result<
        Frame,
        SendError,
    >)
        ensures
            frame == if self@.open {
                Ok::<Frame, SendError>(Frame::Notification { method, params })
            } else {
                Err::<Frame, SendError>(SendError::ConnectionClosed)
            },
    {
        if self.open {
            Ok(Frame::Notification { method, params })
        } else {
            Err(SendError::ConnectionClosed)
        }
    }

    /// Makes the frame of a request and registers its identifier as
    /// outstanding. The identifier is one that no outstanding request has.
    /// Fails, and changes nothing, once the connection has ended or where
    /// the next identifier is still outstanding.
    pub fn send_request(&mut self, method: String, params: String) -> (frame: Result<
        Frame,
        SendError,
    >)
        requires
            old(self)@.wf(),
        ensures
            frame == old(self)@.request_result(method, params),
            final(self)@ == old(self)@.after_request(),
            final(self)@.wf(),
    {
        if !self.open {
            return Err(SendError::ConnectionClosed);
        }
        let id = self.next_id;
        if !self.pending.register(id) {
            return Err(SendError::IdentifierCollision);
        }
        self.next_id = if id == u64::MAX {
            0
        } else {
            id + 1
        };
        Ok(Frame::Request { id, method, params })
    }

    /// Makes the frame of a call, in the mode that the call names: a
    /// notification registers nothing, a request registers its identifier
    /// as outstanding. Fails, and changes nothing, once the connection has
    /// ended, or where a request's identifier is still outstanding.
    pub fn send(&mut self, call: &Call) -> (frame: Result<Frame, SendError>)
        requires
            old(self)@.wf(),
        ensures
            final(self)@.wf(),
            final(self)@ == if call@.mode is Request {
                old(self)@.after_request()
            } else {
                old(self)@
            },
            match frame {
                Ok(frame) => carries(old(self)@, frame, call@) && old(self)@.open && (call@.mode
                    is Request ==> old(self)@.accepts_request()),
                Err(SendError::ConnectionClosed) => !old(self)@.open,
                Err(SendError::IdentifierCollision) => old(self)@.open && call@.mode is Request
                    && !old(self)@.accepts_request(),
            },
    {
        let method = call.method().to_owned();
        let params = call.payload();
        match call.mode {
            CallMode::Request => self.send_request(method, params),
            CallMode::Notification => self.send_notification(method, params),
        }
    }

    /// Decides what the event loop does with one frame from the engine. A
    /// response goes to the caller that waits on its identifier, which is
    /// then no longer outstanding; a response that nobody waits for is
    /// dropped; a request is refused; a notification goes to the handler.
    /// The connection stays as usable as it was.
    pub fn on_frame(&mut self, frame: Frame) -> (action: LoopAction)
        requires
            old(self)@.wf(),
        ensures
            action == old(self)@.react(frame),
            final(self)@ == old(self)@.after_frame(frame),
            final(self)@.wf(),
    {
        match frame {
            Frame::Response { id, reply } => {
                proof {
                    lemma_without(self.pending.ids(), id);
                }
                if self.pending.resolve(id) {
                    LoopAction::Deliver { id, reply }
                } else {
                    LoopAction::Discard { id }
                }
            },
            Frame::Notification { method, params } => LoopAction::Dispatch { method, params },
            Frame::Request { id, method, .. } => LoopAction::Refuse { id, method },
        }
    }

    /// Ends the connection: the engine's output has ended, or a read or a
    /// write on the transport failed. Returns the identifiers that were
    /// outstanding, oldest first and each once; each of their callers is
    /// owed a connection-closed failure. Nothing is outstanding afterwards.
    pub fn close(&mut self) -> (abandoned: Vec<u64>)
        ensures
            abandoned@ == old(self)@.pending,
            final(self)@ == old(self)@.closed(),
            final(self)@.wf(),
    {
        self.open = false;
        self.pending.drain()
    }

    /// Ends the connection because the frame of request `id` could not be
    /// written. Returns the other identifiers that were outstanding, oldest
    /// first and each once; each of their callers is owed a
    /// connection-closed failure, while the caller of `id` is owed the write
    /// failure.
    pub fn write_failed(&mut self, id: u64) -> (others: Vec<u64>)
        requires
            old(self)@.wf(),
        ensures
            others@ == without(old(self)@.pending, id),
            final(self)@ == old(self)@.closed(),
            final(self)@.wf(),
    {
        self.open = false;
        self.pending.resolve(id);
        self.pending.drain()
    }
}

} // verus!
