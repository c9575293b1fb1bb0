use strecken_info::error::StreckenInfoError;
use strecken_info::revision::{
    handshake_message, revision_error_should_retry, RevisionAction, RevisionEvent,
    RevisionTracker, UpdateMessage, WsErrorClass,
};
use tokio_tungstenite::tungstenite::error::ProtocolError;
use tokio_tungstenite::tungstenite::Error as WsError;

fn finish(a: RevisionAction) -> Option<u32> {
    match a {
        RevisionAction::Finish(r) => Some(r),
        _ => None,
    }
}

#[test]
fn handshake_text_is_fixed() {
    assert_eq!(handshake_message(), "{\"type\":\"HANDSHAKE\",\"revision\":null}");
}

#[test]
fn retry_classes() {
    assert!(revision_error_should_retry(WsErrorClass::ConnectionClosed));
    assert!(revision_error_should_retry(WsErrorClass::ResetWithoutClosingHandshake));
    assert!(!revision_error_should_retry(WsErrorClass::Other));
}

#[test]
fn first_wait_performs_handshake() {
    let mut t = RevisionTracker::new();
    assert!(matches!(t.step(RevisionEvent::Wait { only_new_disruptions: false }), RevisionAction::Handshake));
    assert_eq!(finish(t.step(RevisionEvent::Handshaken { revision: 7 })), Some(7));
    assert_eq!(t.old_revision, Some(7));
}

#[test]
fn new_revision_ends_the_wait() {
    let mut t = RevisionTracker::new();
    t.record_first_revision(1);
    assert!(matches!(t.step(RevisionEvent::Wait { only_new_disruptions: false }), RevisionAction::ReadNext));
    assert!(matches!(t.step(RevisionEvent::Text("PING".to_string())), RevisionAction::ReadNext));
    assert!(matches!(t.step(RevisionEvent::Text("{\"type\":\"X\"}".to_string())), RevisionAction::Parse));
    assert!(matches!(t.step(RevisionEvent::Update(UpdateMessage::Other)), RevisionAction::ReadNext));
    assert!(matches!(t.step(RevisionEvent::Text("{}".to_string())), RevisionAction::Parse));
    let a = t.step(RevisionEvent::Update(UpdateMessage::NewRevision { number: 2, disruption_count: 0 }));
    assert_eq!(finish(a), Some(2));
    assert_eq!(t.old_revision, Some(2));
}

#[test]
fn revisions_without_disruptions_are_skipped_on_request() {
    let mut t = RevisionTracker::new();
    t.record_first_revision(1);
    assert!(matches!(t.step(RevisionEvent::Wait { only_new_disruptions: true }), RevisionAction::ReadNext));
    let a = t.step(RevisionEvent::Update(UpdateMessage::NewRevision { number: 2, disruption_count: 0 }));
    assert!(matches!(a, RevisionAction::ReadNext));
    assert_eq!(t.old_revision, Some(2));
    let a = t.step(RevisionEvent::Update(UpdateMessage::NewRevision { number: 3, disruption_count: 4 }));
    assert_eq!(finish(a), Some(3));
}

#[test]
fn closed_connection_is_retried_once() {
    let mut t = RevisionTracker::new();
    t.record_first_revision(5);
    t.step(RevisionEvent::Wait { only_new_disruptions: false });
    assert!(matches!(t.step(RevisionEvent::ReceiveFailed(WsError::ConnectionClosed)), RevisionAction::Reconnect));
    assert!(matches!(t.step(RevisionEvent::Reconnected), RevisionAction::Handshake));
    assert_eq!(t.old_revision, None);
    // the same revision comes back: keep reading, but without a second retry
    assert!(matches!(t.step(RevisionEvent::Handshaken { revision: 5 }), RevisionAction::ReadNext));
    assert_eq!(t.old_revision, Some(5));
    match t.step(RevisionEvent::ReceiveFailed(WsError::ConnectionClosed)) {
        RevisionAction::Fail(StreckenInfoError::WebsocketError(WsError::ConnectionClosed)) => {}
        _ => panic!("expected the error"),
    }
}

#[test]
fn reset_connection_with_new_revision_ends_the_wait() {
    let mut t = RevisionTracker::new();
    t.record_first_revision(5);
    t.step(RevisionEvent::Wait { only_new_disruptions: false });
    let err = WsError::Protocol(ProtocolError::ResetWithoutClosingHandshake);
    assert!(matches!(t.step(RevisionEvent::ReceiveFailed(err)), RevisionAction::Reconnect));
    assert!(matches!(t.step(RevisionEvent::Reconnected), RevisionAction::Handshake));
    assert_eq!(finish(t.step(RevisionEvent::Handshaken { revision: 6 })), Some(6));
}

#[test]
fn text_rearms_the_retry() {
    let mut t = RevisionTracker::new();
    t.record_first_revision(5);
    t.step(RevisionEvent::Wait { only_new_disruptions: false });
    t.step(RevisionEvent::ReceiveFailed(WsError::ConnectionClosed));
    t.step(RevisionEvent::Reconnected);
    t.step(RevisionEvent::Handshaken { revision: 5 });
    assert!(!t.retry);
    t.step(RevisionEvent::Text("PING".to_string()));
    assert!(matches!(t.step(RevisionEvent::ReceiveFailed(WsError::ConnectionClosed)), RevisionAction::Reconnect));
}

#[test]
fn other_failures_end_the_wait() {
    let mut t = RevisionTracker::new();
    t.record_first_revision(5);
    t.step(RevisionEvent::Wait { only_new_disruptions: false });
    assert!(matches!(
        t.step(RevisionEvent::ReceiveFailed(WsError::AlreadyClosed)),
        RevisionAction::Fail(StreckenInfoError::WebsocketError(WsError::AlreadyClosed))
    ));
    assert!(matches!(
        t.step(RevisionEvent::StreamEnded),
        RevisionAction::Fail(StreckenInfoError::WebSocketNoRevisionError)
    ));
    let json_err = serde_json::from_str::<u32>("x").unwrap_err();
    assert!(matches!(
        t.step(RevisionEvent::UpdateUnreadable(json_err)),
        RevisionAction::Fail(StreckenInfoError::JsonError(_))
    ));
    assert!(matches!(
        t.step(RevisionEvent::TextUnreadable(WsError::Utf8("bad".to_string()))),
        RevisionAction::Fail(StreckenInfoError::WebsocketError(WsError::Utf8(_)))
    ));
}

#[test]
fn outside_errors_convert() {
    let json_err = serde_json::from_str::<u32>("x").unwrap_err();
    assert!(matches!(StreckenInfoError::from(json_err), StreckenInfoError::JsonError(_)));
    assert!(matches!(
        StreckenInfoError::from(WsError::ConnectionClosed),
        StreckenInfoError::WebsocketError(WsError::ConnectionClosed)
    ));
}

#[test]
fn skipping_wait_ends_on_first_revision_with_disruptions() {
    let updates = [(2, 0), (3, 0), (4, 0), (5, 2), (6, 1)];
    let mut t = RevisionTracker::new();
    t.record_first_revision(1);
    t.step(RevisionEvent::Wait { only_new_disruptions: true });
    let mut result = None;
    for (number, count) in updates {
        let a = t.step(RevisionEvent::Update(UpdateMessage::NewRevision { number, disruption_count: count }));
        if let Some(r) = finish(a) {
            result = Some(r);
            break;
        }
    }
    assert_eq!(result, Some(5));
    assert_eq!(t.old_revision, Some(5));

    let mut t = RevisionTracker::new();
    t.record_first_revision(1);
    t.step(RevisionEvent::Wait { only_new_disruptions: false });
    let a = t.step(RevisionEvent::Update(UpdateMessage::NewRevision { number: 2, disruption_count: 0 }));
    assert_eq!(finish(a), Some(2));
}
