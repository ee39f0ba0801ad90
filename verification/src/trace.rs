//! What holds of a connection over any sequence of requests and incoming
//! frames.

use crate::frame::Frame;
use crate::pending::lemma_without;
use crate::session::{LoopAction, SessionModel};
use vstd::prelude::*;

verus! {

/// One thing that happens to a connection while it is open.
pub enum Step {
    /// A caller makes a request.
    Request { method: String, params: String },
    /// The event loop reads a frame from the engine.
    Arrival(Frame),
}

impl SessionModel {
    /// The state after one step.
    pub open spec fn step(self, step: Step) -> SessionModel {
        match step {
            Step::Request { .. } => self.after_request(),
            Step::Arrival(frame) => self.after_frame(frame),
        }
    }

    /// The state after a sequence of steps.
    pub open spec fn run(self, steps: Seq<Step>) -> SessionModel
        decreases steps.len(),
    {
        if steps.len() == 0 {
            self
        } else {
            self.step(steps.first()).run(steps.drop_first())
        }
    }

    /// Whether `step`, taken in this state, registers a request under `id`.
    pub open spec fn registers(self, step: Step, id: u64) -> bool {
        step is Request && self.accepts_request() && self.next_id == id
    }

    /// Whether `step`, taken in this state, hands a reply to the caller
    /// that waits on `id`.
    pub open spec fn delivers(self, step: Step, id: u64) -> bool {
        match step {
            Step::Arrival(Frame::Response { id: got, .. }) => got == id && self.pending.contains(
                id,
            ),
            _ => false,
        }
    }

    /// How many requests are outstanding under `id`: one or none.
    pub open spec fn waiting(self, id: u64) -> nat {
        if self.pending.contains(id) {
            1
        } else {
            0
        }
    }

    /// How many requests the steps register under `id`.
    pub open spec fn registrations(self, steps: Seq<Step>, id: u64) -> nat
        decreases steps.len(),
    {
        if steps.len() == 0 {
            0
        } else {
            let here: nat = if self.registers(steps.first(), id) {
                1
            } else {
                0
            };
            here + self.step(steps.first()).registrations(steps.drop_first(), id)
        }
    }

    /// How many replies the steps hand to callers that wait on `id`.
    pub open spec fn deliveries(self, steps: Seq<Step>, id: u64) -> nat
        decreases steps.len(),
    {
        if steps.len() == 0 {
            0
        } else {
            let here: nat = if self.delivers(steps.first(), id) {
                1
            } else {
                0
            };
            here + self.step(steps.first()).deliveries(steps.drop_first(), id)
        }
    }

    /// What the event loop does, in order, over a sequence of steps: one
    /// action for each frame that arrives.
    pub open spec fn actions(self, steps: Seq<Step>) -> Seq<LoopAction>
        decreases steps.len(),
    {
        if steps.len() == 0 {
            Seq::empty()
        } else {
            let rest = self.step(steps.first()).actions(steps.drop_first());
            match steps.first() {
                Step::Arrival(frame) => seq![self.react(frame)] + rest,
                Step::Request { .. } => rest,
            }
        }
    }
}

/// The notifications that the handler is called with, in order.
pub open spec fn dispatched(actions: Seq<LoopAction>) -> Seq<(String, String)>
    decreases actions.len(),
{
    if actions.len() == 0 {
        Seq::empty()
    } else {
        let rest = dispatched(actions.drop_first());
        match actions.first() {
            LoopAction::Dispatch { method, params } => seq![(method, params)] + rest,
            _ => rest,
        }
    }
}

/// The notifications among the frames that arrive, in order.
pub open spec fn notifications(steps: Seq<Step>) -> Seq<(String, String)>
    decreases steps.len(),
{
    if steps.len() == 0 {
        Seq::empty()
    } else {
        let rest = notifications(steps.drop_first());
        match steps.first() {
            Step::Arrival(Frame::Notification { method, params }) => seq![(method, params)] + rest,
            _ => rest,
        }
    }
}

/// One step keeps the table free of duplicates, and balances the books of
/// every identifier: what it delivers or leaves waiting is what it
/// registered or found waiting.
pub proof fn lemma_step_balance(m: SessionModel, step: Step, id: u64)
    requires
        m.wf(),
    ensures
        m.step(step).wf(),
        m.step(step).open == m.open,
        (if m.delivers(step, id) {
            1nat
        } else {
            0nat
        }) + m.step(step).waiting(id) == (if m.registers(step, id) {
            1nat
        } else {
            0nat
        }) + m.waiting(id),
{
    match step {
        Step::Request { .. } => {
            if m.accepts_request() {
                let grown = m.pending.push(m.next_id);
                assert(grown.contains(id) <==> (m.pending.contains(id) || id == m.next_id)) by {
                    if m.pending.contains(id) {
                        let i = choose|i: int| 0 <= i < m.pending.len() && m.pending[i] == id;
                        assert(grown[i] == id);
                    }
                    if id == m.next_id {
                        assert(grown[m.pending.len() as int] == id);
                    }
                }
            }
        },
        Step::Arrival(frame) => {
            match frame {
                Frame::Response { id: got, .. } => {
                    lemma_without(m.pending, got);
                },
                _ => {},
            }
        },
    }
}

/// Each request gets at most one reply, handed to its own caller. Over any
/// steps, and for every identifier, the replies handed out under it and
/// the request still waiting under it add up to the requests registered
/// under it and the one that waited at the start. So no request is
/// answered twice, and none is answered that was not made.
pub proof fn law_one_reply_per_request(m: SessionModel, steps: Seq<Step>, id: u64)
    requires
        m.wf(),
    ensures
        m.run(steps).wf(),
        m.deliveries(steps, id) + m.run(steps).waiting(id) == m.registrations(steps, id)
            + m.waiting(id),
        m.deliveries(steps, id) <= m.registrations(steps, id) + m.waiting(id),
    decreases steps.len(),
{
    if steps.len() > 0 {
        lemma_step_balance(m, steps.first(), id);
        law_one_reply_per_request(m.step(steps.first()), steps.drop_first(), id);
    }
}

/// The identifier of a new request is one that no outstanding request
/// has, and the frame that is made carries it.
pub proof fn law_fresh_identifier(m: SessionModel, method: String, params: String)
    requires
        m.wf(),
    ensures
        m.request_result(method, params) is Ok ==> {
            let id = m.next_id;
            &&& m.request_result(method, params) == Ok::<Frame, crate::session::SendError>(
                Frame::Request { id, method, params },
            )
            &&& !m.pending.contains(id)
            &&& m.after_request().pending.contains(id)
            &&& m.after_request().wf()
        },
{
    if m.accepts_request() {
        let grown = m.pending.push(m.next_id);
        assert(grown[m.pending.len() as int] == m.next_id);
    }
}

/// Requests and incoming frames never end the connection: only a close
/// does.
pub proof fn law_steps_keep_connection(m: SessionModel, steps: Seq<Step>)
    requires
        m.wf(),
    ensures
        m.run(steps).open == m.open,
        m.run(steps).wf(),
    decreases steps.len(),
{
    if steps.len() > 0 {
        lemma_step_balance(m, steps.first(), 0);
        law_steps_keep_connection(m.step(steps.first()), steps.drop_first());
    }
}

/// When the connection closes, every outstanding request is abandoned, and
/// that is the only outcome its caller ever sees: afterwards nothing is
/// outstanding, no request can be registered, no reply is handed out
/// whatever arrives, and closing again abandons nothing.
pub proof fn law_close_is_final(m: SessionModel, steps: Seq<Step>, id: u64)
    requires
        m.wf(),
    ensures
        m.closed().wf(),
        m.closed().pending.len() == 0,
        m.closed().closed() == m.closed(),
        m.closed().registrations(steps, id) == 0,
        m.closed().deliveries(steps, id) == 0,
        m.closed().run(steps) == m.closed(),
    decreases steps.len(),
{
    let c = m.closed();
    if steps.len() > 0 {
        let first = steps.first();
        assert(c.step(first) == c) by {
            match first {
                Step::Request { .. } => {},
                Step::Arrival(frame) => {
                    match frame {
                        Frame::Response { id: got, .. } => {
                            lemma_without(c.pending, got);
                        },
                        _ => {},
                    }
                },
            }
        }
        law_close_is_final(m, steps.drop_first(), id);
    }
}

/// The handler sees the engine's notifications in the order in which they
/// arrived: none is dropped, doubled or moved, whatever else arrives or is
/// requested in between.
pub proof fn law_notifications_in_order(m: SessionModel, steps: Seq<Step>)
    ensures
        dispatched(m.actions(steps)) == notifications(steps),
    decreases steps.len(),
{
    if steps.len() > 0 {
        let first = steps.first();
        let next = m.step(first);
        let rest = next.actions(steps.drop_first());
        law_notifications_in_order(next, steps.drop_first());
        match first {
            Step::Arrival(frame) => {
                let all = seq![m.react(frame)] + rest;
                assert(all.drop_first() =~= rest);
            },
            Step::Request { .. } => {},
        }
    }
}

/// A frame that is dropped or refused changes nothing: the loop goes on,
/// and deals with what follows exactly as if the frame had not arrived.
pub proof fn law_discard_changes_nothing(m: SessionModel, frame: Frame, rest: Seq<Step>)
    requires
        m.wf(),
        m.react(frame) is Discard || m.react(frame) is Refuse,
    ensures
        m.after_frame(frame) == m,
        m.run(seq![Step::Arrival(frame)] + rest) == m.run(rest),
        m.actions(seq![Step::Arrival(frame)] + rest) == seq![m.react(frame)] + m.actions(rest),
{
    match frame {
        Frame::Response { id, .. } => {
            lemma_without(m.pending, id);
        },
        _ => {},
    }
    let all = seq![Step::Arrival(frame)] + rest;
    assert(all.drop_first() =~= rest);
}

/// A response that cannot be read as an answer still reaches the caller
/// that waits on its identifier, and the loop goes on with what follows.
pub proof fn law_malformed_reply_is_delivered(m: SessionModel, id: u64, rest: Seq<Step>)
    requires
        m.wf(),
        m.pending.contains(id),
    ensures
        ({
            let frame = Frame::Response { id, reply: crate::frame::Reply::Malformed };
            &&& m.react(frame) == LoopAction::Deliver { id, reply: crate::frame::Reply::Malformed }
            &&& m.after_frame(frame).open == m.open
            &&& m.actions(seq![Step::Arrival(frame)] + rest) == seq![m.react(frame)]
                + m.after_frame(frame).actions(rest)
        }),
{
    let frame = Frame::Response { id, reply: crate::frame::Reply::Malformed };
    let all = seq![Step::Arrival(frame)] + rest;
    assert(all.drop_first() =~= rest);
}

} // verus!
