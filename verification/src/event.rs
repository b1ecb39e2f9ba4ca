//! Notifications that the controller sends to the rest of the application.

use vstd::prelude::*;

verus! {

/// A notification without payload. It is sent and forgotten: nobody waits
/// for its delivery.
#[derive(Clone, Copy, Debug, PartialEq, Eq, Structural)]
pub enum OutboundEvent {
    StartRecording,
    StopRecording,
    ShowHistory,
}

impl OutboundEvent {
    /// The name under which the event is published.
    pub open spec fn channel(self) -> Seq<char> {
        match self {
            OutboundEvent::StartRecording => "start-recording"@,
            OutboundEvent::StopRecording => "stop-recording"@,
            OutboundEvent::ShowHistory => "show-history"@,
        }
    }

    /// The name of the event as text.
    pub fn name(self) -> (name: &'static str)
        ensures
            name@ == self.channel(),
    {
        match self {
            OutboundEvent::StartRecording => "start-recording",
            OutboundEvent::StopRecording => "stop-recording",
            OutboundEvent::ShowHistory => "show-history",
        }
    }

    /// No two events share a name.
    pub proof fn names_are_distinct(a: OutboundEvent, b: OutboundEvent)
        ensures
            a.channel() == b.channel() <==> a == b,
    {
        reveal_strlit("start-recording");
        reveal_strlit("stop-recording");
        reveal_strlit("show-history");
        assert("start-recording"@.len() == 15);
        assert("stop-recording"@.len() == 14);
        assert("show-history"@.len() == 12);
    }
}

} // verus!
