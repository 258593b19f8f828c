use vstd::prelude::*;

verus! {

/// Deadline for handing one notification to the receiver, in milliseconds.
pub const SEND_DEADLINE_MS: u64 = 3000;

/// What the forwarding loop saw next.
#[derive(Clone, Copy, Debug, PartialEq, Eq, Structural)]
pub enum PumpEvent {
    /// The owning client asked for the session back.
    Released,
    /// The server pushed a notification.
    Notification,
    /// The server pushed a notice.
    Notice,
    /// The message stream failed.
    StreamError,
    /// The message stream ended.
    StreamEnd,
}

/// Why the forwarding loop ended.
#[derive(Clone, Copy, Debug, PartialEq, Eq, Structural)]
pub enum ExitReason {
    /// Cooperative release to the owning client.
    Released,
    /// The session went away, or nobody listens any more.
    Disconnected,
}

/// What the forwarding loop does with an event.
#[derive(Clone, Copy, Debug, PartialEq, Eq, Structural)]
pub enum PumpAction {
    /// Send the notification to the channel, within the send deadline.
    Forward,
    /// Log the message and go on.
    Log,
    /// Leave the loop.
    Stop(ExitReason),
}

pub fn on_event(ev: PumpEvent) -> (r: PumpAction)
    ensures
        r == match ev {
            PumpEvent::Released => PumpAction::Stop(ExitReason::Released),
            PumpEvent::Notification => PumpAction::Forward,
            PumpEvent::Notice => PumpAction::Log,
            PumpEvent::StreamError | PumpEvent::StreamEnd => PumpAction::Stop(ExitReason::Disconnected),
        },
{
    match ev {
        PumpEvent::Released => PumpAction::Stop(ExitReason::Released),
        PumpEvent::Notification => PumpAction::Forward,
        PumpEvent::Notice => PumpAction::Log,
        PumpEvent::StreamError => PumpAction::Stop(ExitReason::Disconnected),
        PumpEvent::StreamEnd => PumpAction::Stop(ExitReason::Disconnected),
    }
}

/// How handing a notification to the channel went.
#[derive(Clone, Copy, Debug, PartialEq, Eq, Structural)]
pub enum SendOutcome {
    Sent,
    /// The receiver was dropped.
    ReceiverClosed,
    /// The receiver did not take it within the deadline.
    TimedOut,
}

/// Whether the loop ends after a send: only a dropped receiver ends it; a
/// slow receiver costs that one notification.
pub fn on_send(out: SendOutcome) -> (r: Option<ExitReason>)
    ensures
        out == SendOutcome::ReceiverClosed <==> r == Some(ExitReason::Disconnected),
        out != SendOutcome::ReceiverClosed <==> r is None,
{
    match out {
        SendOutcome::ReceiverClosed => Some(ExitReason::Disconnected),
        _ => None,
    }
}

} // verus!
