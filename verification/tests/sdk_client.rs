use warp_extension::protocol::capabilities::Capability;
use warp_extension::protocol::events::EventKind;
use warp_extension::sdk::{Arrival, Inbox, Routed};

fn event(kind: EventKind) -> Arrival<EventKind, String> {
    Arrival::Event(kind)
}

fn request() -> Arrival<EventKind, String> {
    Arrival::Request
}

fn response(request_id: &str, body: &str) -> Arrival<EventKind, String> {
    Arrival::Response { request_id: request_id.to_owned(), response: body.to_owned() }
}

#[test]
fn the_handshake_records_what_the_host_advertised() {
    let mut inbox: Inbox<EventKind> = Inbox::new();
    assert!(!inbox.supports(Capability::ExecutionV1), "nothing is assumed before the handshake");
    inbox.record_capabilities(vec![Capability::WorkspaceContextV1, Capability::ExecutionV1]);
    assert_eq!(inbox.capabilities(), [Capability::WorkspaceContextV1, Capability::ExecutionV1]);
    assert!(inbox.supports(Capability::ExecutionV1));
    assert!(
        !inbox.supports(Capability::DiffOpenV1),
        "a capability the host never advertised must not be assumed"
    );
}

#[test]
fn events_arriving_mid_call_are_buffered_rather_than_lost() {
    let mut inbox: Inbox<EventKind> = Inbox::new();
    let handshake = inbox.issue_request_id();
    assert!(matches!(inbox.route(&handshake, response("1", "initialized")), Routed::Answer(body) if body == "initialized"));

    let call = inbox.issue_request_id();
    assert!(matches!(inbox.route(&call, event(EventKind::RepositoryChanged)), Routed::Buffered));
    assert!(matches!(inbox.route(&call, response("2", "context")), Routed::Answer(body) if body == "context"));

    assert_eq!(inbox.take_buffered(), Some(EventKind::RepositoryChanged), "the buffered event is delivered");
    assert_eq!(inbox.take_buffered(), None);
}

#[test]
fn buffered_events_come_out_in_the_order_they_arrived() {
    let mut inbox: Inbox<EventKind> = Inbox::new();
    let call = inbox.issue_request_id();
    for kind in [EventKind::CwdChanged, EventKind::PanelAction, EventKind::SshDisconnected] {
        assert!(matches!(inbox.route(&call, event(kind)), Routed::Buffered));
    }
    assert_eq!(inbox.take_buffered(), Some(EventKind::CwdChanged));
    assert_eq!(inbox.take_buffered(), Some(EventKind::PanelAction));
    assert_eq!(inbox.take_buffered(), Some(EventKind::SshDisconnected));
    assert_eq!(inbox.take_buffered(), None);
}

#[test]
fn request_ids_count_up_from_one() {
    let mut inbox: Inbox<EventKind> = Inbox::new();
    assert!(inbox.can_issue());
    assert_eq!(inbox.issue_request_id(), "1");
    assert_eq!(inbox.issue_request_id(), "2");
    assert_eq!(inbox.issue_request_id(), "3");
}

#[test]
fn only_the_matching_response_answers_a_call() {
    let mut inbox: Inbox<EventKind> = Inbox::new();
    let call = inbox.issue_request_id();
    assert!(matches!(inbox.route(&call, response("7", "stale")), Routed::Ignored));
    assert!(matches!(inbox.route(&call, request()), Routed::Ignored));
    assert_eq!(inbox.take_buffered(), None, "nothing but events is kept");
    assert!(matches!(inbox.route(&call, response("1", "fresh")), Routed::Answer(body) if body == "fresh"));
}

#[test]
fn a_closed_stream_is_remembered() {
    let mut inbox: Inbox<EventKind> = Inbox::new();
    assert!(!inbox.is_closed());
    inbox.close();
    assert!(inbox.is_closed());
    assert_eq!(inbox.take_buffered(), None);
}
