use vixi::frame::{CallError, Frame, Reply};
use vixi::pending::PendingTable;
use vixi::session::{LoopAction, SendError, Session};

fn request(session: &mut Session, method: &str) -> u64 {
    match session.send_request(method.to_string(), "{}".to_string()) {
        Ok(Frame::Request { id, .. }) => id,
        other => panic!("no request frame: {:?}", other),
    }
}

fn response(id: u64, text: &str) -> Frame {
    Frame::Response { id, reply: Reply::Result(text.to_string()) }
}

fn notification(method: &str) -> Frame {
    Frame::Notification { method: method.to_string(), params: "[]".to_string() }
}

#[test]
fn request_identifiers_count_up_from_zero() {
    let mut session = Session::new();
    let first = session.send_request("new_view".to_string(), "{}".to_string());
    let second = session.send_request("edit".to_string(), "[1]".to_string());
    assert_eq!(
        first,
        Ok(Frame::Request { id: 0, method: "new_view".to_string(), params: "{}".to_string() })
    );
    assert_eq!(
        second,
        Ok(Frame::Request { id: 1, method: "edit".to_string(), params: "[1]".to_string() })
    );
    assert_eq!(session.outstanding(), 2);
    assert!(session.is_pending(0));
    assert!(session.is_pending(1));
    assert!(!session.is_pending(2));
}

#[test]
fn notification_registers_nothing() {
    let session = Session::new();
    let frame = session.send_notification("client_started".to_string(), "{}".to_string());
    assert_eq!(
        frame,
        Ok(Frame::Notification { method: "client_started".to_string(), params: "{}".to_string() })
    );
    assert_eq!(session.outstanding(), 0);
}

#[test]
fn each_request_gets_at_most_one_reply() {
    let mut session = Session::new();
    let a = request(&mut session, "a");
    let b = request(&mut session, "b");
    let c = request(&mut session, "c");
    // The engine answers out of order, and answers one request twice.
    assert_eq!(
        session.on_frame(response(b, "2")),
        LoopAction::Deliver { id: b, reply: Reply::Result("2".to_string()) }
    );
    assert_eq!(
        session.on_frame(response(b, "again")),
        LoopAction::Discard { id: b }
    );
    assert_eq!(
        session.on_frame(response(a, "1")),
        LoopAction::Deliver { id: a, reply: Reply::Result("1".to_string()) }
    );
    assert!(session.is_pending(c));
    assert_eq!(session.outstanding(), 1);
}

#[test]
fn unmatched_response_is_discarded_and_the_loop_goes_on() {
    let mut session = Session::new();
    let id = request(&mut session, "new_view");
    assert_eq!(
        session.on_frame(response(7, "stray")),
        LoopAction::Discard { id: 7 }
    );
    assert!(session.is_open());
    assert_eq!(session.outstanding(), 1);
    assert_eq!(
        session.on_frame(notification("update")),
        LoopAction::Dispatch { method: "update".to_string(), params: "[]".to_string() }
    );
    assert_eq!(
        session.on_frame(response(id, "\"view-id-1\"")),
        LoopAction::Deliver { id, reply: Reply::Result("\"view-id-1\"".to_string()) }
    );
}

#[test]
fn malformed_response_reaches_its_caller() {
    let mut session = Session::new();
    let id = request(&mut session, "new_view");
    let action = session.on_frame(Frame::Response { id, reply: Reply::Malformed });
    assert_eq!(action, LoopAction::Deliver { id, reply: Reply::Malformed });
    assert!(session.is_open());
    assert_eq!(
        session.on_frame(notification("scroll_to")),
        LoopAction::Dispatch { method: "scroll_to".to_string(), params: "[]".to_string() }
    );
}

#[test]
fn request_from_the_engine_is_refused() {
    let mut session = Session::new();
    let id = request(&mut session, "new_view");
    let frame =
        Frame::Request { id: 3, method: "measure_width".to_string(), params: "[]".to_string() };
    assert_eq!(
        session.on_frame(frame),
        LoopAction::Refuse { id: 3, method: "measure_width".to_string() }
    );
    // A request under an outstanding identifier answers nothing.
    let frame = Frame::Request { id, method: "hi".to_string(), params: "[]".to_string() };
    assert_eq!(session.on_frame(frame), LoopAction::Refuse { id, method: "hi".to_string() });
    assert!(session.is_pending(id));
    assert!(session.is_open());
}

#[test]
fn notifications_are_dispatched_in_order() {
    let mut session = Session::new();
    let id = request(&mut session, "new_view");
    let frames = vec![
        notification("def_style"),
        response(id, "ok"),
        notification("update"),
        response(99, "stray"),
        notification("scroll_to"),
        notification("update"),
    ];
    let mut seen: Vec<String> = Vec::new();
    for frame in frames {
        if let LoopAction::Dispatch { method, params } = session.on_frame(frame) {
            assert_eq!(params, "[]");
            seen.push(method);
        }
    }
    assert_eq!(seen, vec!["def_style", "update", "scroll_to", "update"]);
}

#[test]
fn close_abandons_every_outstanding_request_once() {
    let mut session = Session::new();
    let a = request(&mut session, "a");
    let b = request(&mut session, "b");
    let c = request(&mut session, "c");
    session.on_frame(response(b, "done"));
    assert_eq!(session.close(), vec![a, c]);
    assert!(!session.is_open());
    assert_eq!(session.outstanding(), 0);
    assert_eq!(session.close(), Vec::<u64>::new());
    assert_eq!(
        session.on_frame(response(a, "late")),
        LoopAction::Discard { id: a }
    );
}

#[test]
fn closed_session_refuses_calls() {
    let mut session = Session::new();
    session.close();
    assert_eq!(
        session.send_request("x".to_string(), "{}".to_string()),
        Err(SendError::ConnectionClosed)
    );
    assert_eq!(
        session.send_notification("x".to_string(), "{}".to_string()),
        Err(SendError::ConnectionClosed)
    );
    assert_eq!(session.outstanding(), 0);
}

#[test]
fn write_failure_abandons_the_other_requests() {
    let mut session = Session::new();
    let a = request(&mut session, "a");
    let b = request(&mut session, "b");
    let c = request(&mut session, "c");
    assert_eq!(session.write_failed(c), vec![a, b]);
    assert!(!session.is_open());
    assert_eq!(session.outstanding(), 0);
}

#[test]
fn engine_that_exits_at_once_closes_the_first_request() {
    let mut session = Session::new();
    let id = request(&mut session, "new_view");
    let abandoned = session.close();
    assert_eq!(abandoned, vec![id]);
    let outcome: Result<String, CallError> = Err(CallError::ConnectionClosed);
    assert!(outcome.unwrap_err().is_transport_lost());
}

#[test]
fn replies_become_outcomes() {
    assert_eq!(Reply::Result("1".to_string()).into_outcome(), Ok("1".to_string()));
    assert_eq!(
        Reply::Error("no".to_string()).into_outcome(),
        Err(CallError::Refused("no".to_string()))
    );
    assert_eq!(Reply::Malformed.into_outcome(), Err(CallError::InvalidResponse));
    assert!(!CallError::Refused("no".to_string()).is_transport_lost());
    assert!(!CallError::InvalidResponse.is_transport_lost());
    assert!(CallError::WriteFailed.is_transport_lost());
    assert!(CallError::ConnectionClosed.is_transport_lost());
}

#[test]
fn call_errors_in_words() {
    assert_eq!(
        CallError::Refused("{\"code\":1}".to_string()).to_text(),
        "the engine refused the call: {\"code\":1}"
    );
    assert_eq!(CallError::InvalidResponse.to_text(), "the engine sent an invalid response");
    assert_eq!(CallError::WriteFailed.to_text(), "the call could not be written to the engine");
    assert_eq!(CallError::ConnectionClosed.to_text(), "the connection to the engine is closed");
}

#[test]
fn frames_are_told_apart_by_their_members() {
    let text = |s: &str| Some(s.to_string());
    assert_eq!(
        Frame::from_members(Some(5), None, "null".to_string(), text("\"ok\""), None),
        Some(Frame::Response { id: 5, reply: Reply::Result("\"ok\"".to_string()) })
    );
    assert_eq!(
        Frame::from_members(Some(5), None, "null".to_string(), None, text("{}")),
        Some(Frame::Response { id: 5, reply: Reply::Error("{}".to_string()) })
    );
    assert_eq!(
        Frame::from_members(Some(5), None, "null".to_string(), None, None),
        Some(Frame::Response { id: 5, reply: Reply::Malformed })
    );
    assert_eq!(
        Frame::from_members(Some(5), None, "null".to_string(), text("1"), text("2")),
        Some(Frame::Response { id: 5, reply: Reply::Malformed })
    );
    assert_eq!(
        Frame::from_members(Some(2), text("hi"), "[]".to_string(), None, None),
        Some(Frame::Request { id: 2, method: "hi".to_string(), params: "[]".to_string() })
    );
    assert_eq!(
        Frame::from_members(None, text("hi"), "[]".to_string(), None, None),
        Some(Frame::Notification { method: "hi".to_string(), params: "[]".to_string() })
    );
    assert_eq!(Frame::from_members(None, None, "[]".to_string(), text("1"), None), None);
}

#[test]
fn frame_identifiers() {
    assert_eq!(response(4, "x").id(), Some(4));
    assert_eq!(notification("update").id(), None);
}

#[test]
fn pending_table_keeps_each_identifier_once() {
    let mut table = PendingTable::new();
    assert!(table.register(3));
    assert!(table.register(1));
    assert!(!table.register(3));
    assert_eq!(table.len(), 2);
    assert!(table.contains(1));
    assert!(table.resolve(3));
    assert!(!table.resolve(3));
    assert!(!table.contains(3));
    assert!(table.register(2));
    assert_eq!(table.drain(), vec![1, 2]);
    assert_eq!(table.len(), 0);
}
