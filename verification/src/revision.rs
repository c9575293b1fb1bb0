//! The revision protocol of the websocket of strecken-info.de.
//!
//! Revisions are like versions of disruptions; to get the disruptions one
//! needs a revision. The connection itself is driven by the caller: it reports
//! what happened on the socket as a [`RevisionEvent`] to a [`RevisionTracker`],
//! which answers with the [`RevisionAction`] to perform next.
use vstd::prelude::*;

use crate::error::StreckenInfoError;

verus! {

/// The handshake message that asks the server for the current revision.
pub open spec fn handshake_text() -> Seq<char> {
    "{\"type\":\"HANDSHAKE\",\"revision\":null}"@
}

/// The handshake message that asks the server for the current revision.
pub fn handshake_message() -> (res: String)
    ensures
        res@ == handshake_text(),
{
    "{\"type\":\"HANDSHAKE\",\"revision\":null}".to_owned()
}

/// The kinds of websocket errors that the protocol tells apart.
#[derive(Debug, Clone, Copy, PartialEq, Eq, Structural)]
pub enum WsErrorClass {
    /// The peer reset the connection without a closing handshake.
    ResetWithoutClosingHandshake,
    /// The connection was closed.
    ConnectionClosed,
    /// Any other error.
    Other,
}

/// The class of a tungstenite `Error`: `ResetWithoutClosingHandshake` for
/// `Protocol(ProtocolError::ResetWithoutClosingHandshake)`, `ConnectionClosed`
/// for `ConnectionClosed`, `Other` for every other variant.
pub uninterp spec fn websocket_error_class(err: tokio_tungstenite::tungstenite::Error) -> WsErrorClass;

/// Tells apart the variants of a websocket error that the protocol retries on,
/// by matching on tungstenite's `Error` (and, for `Protocol`, on its
/// `ProtocolError`). The contract names the class; which variant maps to
/// which class is written in the name's documentation, not in a clause.
#[verifier::external_body]
fn classify_websocket_error(err: &tokio_tungstenite::tungstenite::Error) -> (res: WsErrorClass)
    ensures
        res == websocket_error_class(*err),
{
    match err {
        tokio_tungstenite::tungstenite::Error::Protocol(
            tokio_tungstenite::tungstenite::error::ProtocolError::ResetWithoutClosingHandshake,
        ) => WsErrorClass::ResetWithoutClosingHandshake,
        tokio_tungstenite::tungstenite::Error::ConnectionClosed => WsErrorClass::ConnectionClosed,
        _ => WsErrorClass::Other,
    }
}

/// returns `true` if the error is a reset without closing handshake or a
/// closed connection
pub fn revision_error_should_retry(class: WsErrorClass) -> (res: bool)
    ensures
        res == (class != WsErrorClass::Other),
{
    match class {
        WsErrorClass::ResetWithoutClosingHandshake => true,
        WsErrorClass::ConnectionClosed => true,
        WsErrorClass::Other => false,
    }
}

/// A message of the update stream, as far as the protocol reads it.
#[derive(Debug, Clone, Copy, PartialEq, Eq, Structural)]
pub enum UpdateMessage {
    /// A new revision, with the number of disruptions it changes.
    NewRevision { number: u32, disruption_count: usize },
    /// Any other message.
    Other,
}

/// What happened on the socket.
pub enum RevisionEvent {
    /// The caller starts waiting for a new revision; with
    /// `only_new_disruptions`, revisions that change no disruption are skipped.
    Wait { only_new_disruptions: bool },
    /// The handshake asked for by `Handshake` answered with `revision`.
    Handshaken { revision: u32 },
    /// The socket yields no more messages.
    StreamEnded,
    /// Reading the next message failed.
    ReceiveFailed(tokio_tungstenite::tungstenite::Error),
    /// The connection asked for by `Reconnect` is open; it knows no revision yet.
    Reconnected,
    /// A text message arrived.
    Text(String),
    /// A message arrived that is not text.
    TextUnreadable(tokio_tungstenite::tungstenite::Error),
    /// The text asked to be parsed by `Parse` was read as an update.
    Update(UpdateMessage),
    /// The text asked to be parsed by `Parse` is no update.
    UpdateUnreadable(serde_json::Error),
}

/// What the caller does next.
pub enum RevisionAction {
    /// Send the handshake message and report the revision it answers with.
    Handshake,
    /// Read the next message.
    ReadNext,
    /// Close the connection, open a new one and report `Reconnected`.
    Reconnect,
    /// Parse the text just reported as an update message and report it.
    Parse,
    /// The wait is over with this revision.
    Finish(u32),
    /// The wait is over with this error.
    Fail(StreckenInfoError),
}

/// The state of the protocol.
#[derive(Debug, Clone, Copy, PartialEq, Eq, Structural)]
pub struct RevisionTracker {
    /// The last revision that the server reported.
    pub old_revision: Option<u32>,
    /// The current wait skips revisions that change no disruption.
    pub only_new_disruptions: bool,
    /// A failed read may still be answered by one reconnect.
    pub retry: bool,
    /// A reconnect is under way.
    pub reconnecting: bool,
    /// The revision known before the reconnect under way.
    pub revision_before_reconnect: Option<u32>,
}

/// The text starts with an opening brace, as JSON objects do.
pub open spec fn looks_like_json(text: Seq<char>) -> bool {
    text.len() > 0 && text[0] == '{'
}

/// The class that decides an event: that of the error of a failed read, and
/// `Other` for every other event.
pub open spec fn event_class(e: RevisionEvent) -> WsErrorClass {
    match e {
        RevisionEvent::ReceiveFailed(err) => websocket_error_class(err),
        _ => WsErrorClass::Other,
    }
}

/// The next state and the action for an event, where a failed read is of class `class`.
pub open spec fn next_step(s: RevisionTracker, e: RevisionEvent, class: WsErrorClass) -> (
    RevisionTracker,
    RevisionAction,
) {
    match e {
        RevisionEvent::Wait { only_new_disruptions } => {
            let s2 = RevisionTracker {
                only_new_disruptions,
                retry: true,
                reconnecting: false,
                ..s
            };
            if s.old_revision is None {
                (s2, RevisionAction::Handshake)
            } else {
                (s2, RevisionAction::ReadNext)
            }
        },
        RevisionEvent::Handshaken { revision } => {
            let s2 = RevisionTracker { old_revision: Some(revision), reconnecting: false, ..s };
            if s.reconnecting && s.revision_before_reconnect == Some(revision) {
                (RevisionTracker { retry: false, ..s2 }, RevisionAction::ReadNext)
            } else {
                (s2, RevisionAction::Finish(revision))
            }
        },
        RevisionEvent::StreamEnded => (
            s,
            RevisionAction::Fail(StreckenInfoError::WebSocketNoRevisionError),
        ),
        RevisionEvent::ReceiveFailed(err) => {
            if s.retry && class != WsErrorClass::Other {
                (
                    RevisionTracker {
                        reconnecting: true,
                        revision_before_reconnect: s.old_revision,
                        ..s
                    },
                    RevisionAction::Reconnect,
                )
            } else {
                (s, RevisionAction::Fail(StreckenInfoError::WebsocketError(err)))
            }
        },
        RevisionEvent::Reconnected => (
            RevisionTracker { old_revision: None, ..s },
            RevisionAction::Handshake,
        ),
        RevisionEvent::Text(text) => (
            RevisionTracker { retry: true, ..s },
            if looks_like_json(text@) {
                RevisionAction::Parse
            } else {
                RevisionAction::ReadNext
            },
        ),
        RevisionEvent::TextUnreadable(err) => (
            s,
            RevisionAction::Fail(StreckenInfoError::WebsocketError(err)),
        ),
        RevisionEvent::Update(update) => match update {
            UpdateMessage::NewRevision { number, disruption_count } => {
                let s2 = RevisionTracker { old_revision: Some(number), ..s };
                if s.only_new_disruptions && disruption_count == 0 {
                    (s2, RevisionAction::ReadNext)
                } else {
                    (s2, RevisionAction::Finish(number))
                }
            },
            UpdateMessage::Other => (s, RevisionAction::ReadNext),
        },
        RevisionEvent::UpdateUnreadable(err) => (
            s,
            RevisionAction::Fail(StreckenInfoError::JsonError(err)),
        ),
    }
}

impl RevisionTracker {
    /// The state of a fresh connection: no revision known yet.
    pub fn new() -> (res: Self)
        ensures
            res.old_revision is None,
            !res.only_new_disruptions,
            res.retry,
            !res.reconnecting,
            res.revision_before_reconnect is None,
    {
        RevisionTracker {
            old_revision: None,
            only_new_disruptions: false,
            retry: true,
            reconnecting: false,
            revision_before_reconnect: None,
        }
    }

    /// Records the revision that a handshake outside of a wait answered with.
    pub fn record_first_revision(&mut self, revision: u32)
        ensures
            *final(self) == (RevisionTracker { old_revision: Some(revision), ..*old(self) }),
    {
        self.old_revision = Some(revision);
    }

    /// Takes one step, where a failed read is of class `class`.
    pub fn step_classified(&mut self, event: RevisionEvent, class: WsErrorClass) -> (action:
        RevisionAction)
        ensures
            (*final(self), action) == next_step(*old(self), event, class),
            event matches RevisionEvent::Wait { only_new_disruptions }
                ==> final(self).only_new_disruptions == only_new_disruptions,
            event matches RevisionEvent::Text(_) ==> final(self).retry,
            event matches RevisionEvent::Update(UpdateMessage::Other) ==> *final(self) == *old(self)
                && action is ReadNext,
            event matches RevisionEvent::Update(
                UpdateMessage::NewRevision { number, disruption_count },
            ) ==> final(self).old_revision == Some(number) && (action is Finish <==> !(old(
                self,
            ).only_new_disruptions && disruption_count == 0)) && (action is Finish ==> action
                == RevisionAction::Finish(number)),
    {
        match event {
            RevisionEvent::Wait { only_new_disruptions } => {
                self.only_new_disruptions = only_new_disruptions;
                self.retry = true;
                self.reconnecting = false;
                if self.old_revision.is_none() {
                    RevisionAction::Handshake
                } else {
                    RevisionAction::ReadNext
                }
            },
            RevisionEvent::Handshaken { revision } => {
                let same = match self.revision_before_reconnect {
                    Some(before) => before == revision,
                    None => false,
                };
                let was_reconnecting = self.reconnecting;
                self.old_revision = Some(revision);
                self.reconnecting = false;
                if was_reconnecting && same {
                    self.retry = false;
                    RevisionAction::ReadNext
                } else {
                    RevisionAction::Finish(revision)
                }
            },
            RevisionEvent::StreamEnded => RevisionAction::Fail(
                StreckenInfoError::WebSocketNoRevisionError,
            ),
            RevisionEvent::ReceiveFailed(err) => {
                if self.retry && revision_error_should_retry(class) {
                    self.reconnecting = true;
                    self.revision_before_reconnect = self.old_revision;
                    RevisionAction::Reconnect
                } else {
                    RevisionAction::Fail(StreckenInfoError::WebsocketError(err))
                }
            },
            RevisionEvent::Reconnected => {
                self.old_revision = None;
                RevisionAction::Handshake
            },
            RevisionEvent::Text(text) => {
                self.retry = true;
                let n = text.as_str().unicode_len();
                if n > 0 && text.as_str().get_char(0) == '{' {
                    RevisionAction::Parse
                } else {
                    RevisionAction::ReadNext
                }
            },
            RevisionEvent::TextUnreadable(err) => RevisionAction::Fail(
                StreckenInfoError::WebsocketError(err),
            ),
            RevisionEvent::Update(update) => match update {
                UpdateMessage::NewRevision { number, disruption_count } => {
                    self.old_revision = Some(number);
                    if self.only_new_disruptions && disruption_count == 0 {
                        RevisionAction::ReadNext
                    } else {
                        RevisionAction::Finish(number)
                    }
                },
                UpdateMessage::Other => RevisionAction::ReadNext,
            },
            RevisionEvent::UpdateUnreadable(err) => RevisionAction::Fail(
                StreckenInfoError::JsonError(err),
            ),
        }
    }

    /// Takes one step: tells the state what happened on the socket and yields
    /// what to do next.
    pub fn step(&mut self, event: RevisionEvent) -> (action: RevisionAction)
        ensures
            (*final(self), action) == next_step(*old(self), event, event_class(event)),
    {
        let class = match &event {
            RevisionEvent::ReceiveFailed(err) => classify_websocket_error(err),
            _ => WsErrorClass::Other,
        };
        self.step_classified(event, class)
    }
}

/// Whenever a wait ends with a revision, that revision is the one the state
/// records as last known.
pub proof fn lemma_finish_records_revision(s: RevisionTracker, e: RevisionEvent, class: WsErrorClass)
    ensures
        next_step(s, e, class).1 matches RevisionAction::Finish(r) ==> next_step(
            s,
            e,
            class,
        ).0.old_revision == Some(r),
{
}

/// A wait ends with an update only on a new revision, and, when it skips
/// revisions without new disruptions, only on one that changes some disruption.
pub proof fn lemma_update_finish(s: RevisionTracker, update: UpdateMessage, class: WsErrorClass)
    ensures
        next_step(s, RevisionEvent::Update(update), class).1 matches RevisionAction::Finish(r) ==> (
        update matches UpdateMessage::NewRevision { number, disruption_count } && number == r && (
        s.only_new_disruptions ==> disruption_count > 0)),
{
}

/// A wait asks for a handshake exactly when no revision is known yet.
pub proof fn lemma_wait_handshakes_without_revision(
    s: RevisionTracker,
    only_new_disruptions: bool,
    class: WsErrorClass,
)
    ensures
        (next_step(s, RevisionEvent::Wait { only_new_disruptions }, class).1 is Handshake)
            <==> s.old_revision is None,
        next_step(s, RevisionEvent::Wait { only_new_disruptions }, class).1 is Handshake
            || next_step(s, RevisionEvent::Wait { only_new_disruptions }, class).1 is ReadNext,
{
}

/// A reconnect ends the wait only when the new connection reports another
/// revision than the one known before the reconnect.
pub proof fn lemma_reconnect_finishes_on_change(
    s: RevisionTracker,
    revision: u32,
    class: WsErrorClass,
)
    requires
        s.reconnecting,
    ensures
        next_step(s, RevisionEvent::Handshaken { revision }, class).1 is Finish
            <==> s.revision_before_reconnect != Some(revision),
{
}

/// A failed read is answered by at most one reconnect: when the reconnect
/// brings back the revision known before, the next failed read, of whatever
/// kind, ends the wait with that error.
pub proof fn lemma_single_retry(
    s: RevisionTracker,
    revision: u32,
    err: tokio_tungstenite::tungstenite::Error,
    class: WsErrorClass,
    next_class: WsErrorClass,
)
    requires
        s.reconnecting,
        s.revision_before_reconnect == Some(revision),
    ensures
        next_step(
            next_step(s, RevisionEvent::Handshaken { revision }, class).0,
            RevisionEvent::ReceiveFailed(err),
            next_class,
        ).1 == RevisionAction::Fail(StreckenInfoError::WebsocketError(err)),
{
}

/// A text message arms the retry again: a failed read after it that a retry
/// covers leads to a reconnect.
pub proof fn lemma_text_rearms_retry(
    s: RevisionTracker,
    text: String,
    err: tokio_tungstenite::tungstenite::Error,
    class: WsErrorClass,
    next_class: WsErrorClass,
)
    requires
        next_class != WsErrorClass::Other,
    ensures
        next_step(
            next_step(s, RevisionEvent::Text(text), class).0,
            RevisionEvent::ReceiveFailed(err),
            next_class,
        ).1 is Reconnect,
{
}

/// The state after the update messages `updates` arrived one after the other.
pub open spec fn after_updates(s: RevisionTracker, updates: Seq<UpdateMessage>) -> RevisionTracker
    decreases updates.len(),
{
    if updates.len() == 0 {
        s
    } else {
        next_step(
            after_updates(s, updates.drop_last()),
            RevisionEvent::Update(updates.last()),
            WsErrorClass::Other,
        ).0
    }
}

/// The update announces a revision that changes no disruption.
pub open spec fn is_empty_revision(update: UpdateMessage) -> bool {
    update matches UpdateMessage::NewRevision { disruption_count, .. } && disruption_count == 0
}

/// A wait that skips revisions without new disruptions reads on past every
/// such revision, recording each, and ends on the first revision that changes
/// some disruption.
pub proof fn lemma_skip_empty_revisions(
    s: RevisionTracker,
    updates: Seq<UpdateMessage>,
    number: u32,
    disruption_count: usize,
)
    requires
        s.only_new_disruptions,
        forall|i: int| 0 <= i < updates.len() ==> is_empty_revision(#[trigger] updates[i]),
        disruption_count > 0,
    ensures
        forall|i: int|
            0 <= i < updates.len() ==> (#[trigger] next_step(
                after_updates(s, updates.take(i)),
                RevisionEvent::Update(updates[i]),
                WsErrorClass::Other,
            )).1 is ReadNext,
        after_updates(s, updates).only_new_disruptions,
        updates.len() > 0 ==> (updates.last() matches UpdateMessage::NewRevision { number: n, .. }
            && after_updates(s, updates).old_revision == Some(n)),
        next_step(
            after_updates(s, updates),
            RevisionEvent::Update(UpdateMessage::NewRevision { number, disruption_count }),
            WsErrorClass::Other,
        ).1 == RevisionAction::Finish(number),
        next_step(
            after_updates(s, updates),
            RevisionEvent::Update(UpdateMessage::NewRevision { number, disruption_count }),
            WsErrorClass::Other,
        ).0.old_revision == Some(number),
    decreases updates.len(),
{
    if updates.len() > 0 {
        let rest = updates.drop_last();
        assert forall|i: int| 0 <= i < rest.len() implies is_empty_revision(#[trigger] rest[i]) by {
            assert(rest[i] == updates[i]);
        }
        lemma_skip_empty_revisions(s, rest, number, disruption_count);
        assert forall|i: int|
            0 <= i < updates.len() implies (#[trigger] next_step(
                after_updates(s, updates.take(i)),
                RevisionEvent::Update(updates[i]),
                WsErrorClass::Other,
            )).1 is ReadNext by {
            if i < rest.len() {
                assert(updates.take(i) =~= rest.take(i));
                assert(updates[i] == rest[i]);
                assert(next_step(
                    after_updates(s, rest.take(i)),
                    RevisionEvent::Update(rest[i]),
                    WsErrorClass::Other,
                ).1 is ReadNext);
            } else {
                assert(updates.take(i) =~= rest);
                assert(is_empty_revision(updates[i]));
            }
        }
        assert(is_empty_revision(updates[updates.len() - 1]));
    }
}

/// A wait that does not skip revisions ends on the first revision announced.
pub proof fn lemma_first_revision_ends_wait(
    s: RevisionTracker,
    number: u32,
    disruption_count: usize,
    class: WsErrorClass,
)
    requires
        !s.only_new_disruptions,
    ensures
        next_step(
            s,
            RevisionEvent::Update(UpdateMessage::NewRevision { number, disruption_count }),
            class,
        ).1 == RevisionAction::Finish(number),
{
}

/// A wait uses the filter it is started with, whatever an earlier wait used.
pub proof fn lemma_wait_sets_filter(s: RevisionTracker, only_new_disruptions: bool, class: WsErrorClass)
    ensures
        next_step(s, RevisionEvent::Wait { only_new_disruptions }, class).0.only_new_disruptions
            == only_new_disruptions,
{
}

/// A wait that does not skip revisions, from any state, ends on the next
/// revision announced, whether it changes disruptions or not.
pub proof fn lemma_unfiltered_wait_ends_on_next_revision(
    s: RevisionTracker,
    number: u32,
    disruption_count: usize,
    class: WsErrorClass,
)
    ensures
        next_step(
            next_step(s, RevisionEvent::Wait { only_new_disruptions: false }, class).0,
            RevisionEvent::Update(UpdateMessage::NewRevision { number, disruption_count }),
            class,
        ).1 == RevisionAction::Finish(number),
{
}

/// A message that is no revision changes nothing and the wait reads on.
pub proof fn lemma_other_update_changes_nothing(s: RevisionTracker, class: WsErrorClass)
    ensures
        next_step(s, RevisionEvent::Update(UpdateMessage::Other), class) == (
            s,
            RevisionAction::ReadNext,
        ),
{
}

/// Every message received arms the retry again: after a text that is read as
/// a message other than a revision, a failed read of a retried kind leads to a
/// reconnect.
pub proof fn lemma_other_message_keeps_retry(
    s: RevisionTracker,
    text: String,
    err: tokio_tungstenite::tungstenite::Error,
    class: WsErrorClass,
    next_class: WsErrorClass,
)
    requires
        next_class != WsErrorClass::Other,
    ensures
        next_step(
            next_step(
                next_step(s, RevisionEvent::Text(text), class).0,
                RevisionEvent::Update(UpdateMessage::Other),
                class,
            ).0,
            RevisionEvent::ReceiveFailed(err),
            next_class,
        ).1 is Reconnect,
{
}

} // verus!
