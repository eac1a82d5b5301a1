//! The lifecycle notifications that the node publishes.

use vstd::prelude::*;

verus! {

/// A lifecycle notification.
#[derive(Debug, Clone, Copy, PartialEq, Eq, Structural)]
pub enum AppEvents {
    StreamPreviewActive,
    StreamActive,
    StreamPreviewFailed,
    StreamEnded,
    StreamPreviewEnded,
    RelayActive,
    RelayEnded,
    RelayFailed,
}

impl AppEvents {
    /// The name under which listeners subscribe to the notification.
    pub open spec fn name(self) -> Seq<char> {
        match self {
            AppEvents::StreamActive => "stream-active"@,
            AppEvents::StreamPreviewActive => "stream-preview-active"@,
            AppEvents::StreamPreviewEnded => "stream-preview-ended"@,
            AppEvents::StreamEnded => "stream-ended"@,
            AppEvents::StreamPreviewFailed => "stream-preview-failed"@,
            AppEvents::RelayActive => "relay-active"@,
            AppEvents::RelayEnded => "relay-ended"@,
            AppEvents::RelayFailed => "relay-failed"@,
        }
    }

    pub fn as_str(&self) -> (name: &'static str)
        ensures
            name@ == self.name(),
    {
        match self {
            AppEvents::StreamActive => "stream-active",
            AppEvents::StreamPreviewActive => "stream-preview-active",
            AppEvents::StreamPreviewEnded => "stream-preview-ended",
            AppEvents::StreamEnded => "stream-ended",
            AppEvents::StreamPreviewFailed => "stream-preview-failed",
            AppEvents::RelayActive => "relay-active",
            AppEvents::RelayEnded => "relay-ended",
            AppEvents::RelayFailed => "relay-failed",
        }
    }
}

/// What travels with a notification.
#[derive(Debug, Clone)]
pub enum Payload {
    /// Nothing.
    Empty,
    /// The relay that the notification is about.
    Relay(i64),
    /// The relay that failed, and why.
    RelayFailure(i64, String),
    /// The key of the stream that ended.
    Stream(String),
}

/// A notification with what travels with it.
#[derive(Debug, Clone)]
pub struct Notification {
    pub event: AppEvents,
    pub payload: Payload,
}

/// Two different notifications never share a name.
pub proof fn names_are_distinct(a: AppEvents, b: AppEvents)
    requires
        a != b,
    ensures
        a.name() != b.name(),
{
    reveal_strlit("stream-active");
    reveal_strlit("stream-preview-active");
    reveal_strlit("stream-preview-ended");
    reveal_strlit("stream-ended");
    reveal_strlit("stream-preview-failed");
    reveal_strlit("relay-active");
    reveal_strlit("relay-ended");
    reveal_strlit("relay-failed");
    let an = a.name();
    let bn = b.name();
    if an.len() == bn.len() {
        // Names of one length differ in one of these places.
        assert(an[0] != bn[0] || an[6] != bn[6] || an[7] != bn[7] || an[15] != bn[15] || an[16]
            != bn[16]);
    }
}

} // verus!
