use pgpool::{on_event, on_send, ExitReason, PumpAction, PumpEvent, SendOutcome};

#[test]
fn events_map_to_actions() {
    assert_eq!(on_event(PumpEvent::Released), PumpAction::Stop(ExitReason::Released));
    assert_eq!(on_event(PumpEvent::Notification), PumpAction::Forward);
    assert_eq!(on_event(PumpEvent::Notice), PumpAction::Log);
    assert_eq!(on_event(PumpEvent::StreamError), PumpAction::Stop(ExitReason::Disconnected));
    assert_eq!(on_event(PumpEvent::StreamEnd), PumpAction::Stop(ExitReason::Disconnected));
}

#[test]
fn only_a_closed_receiver_ends_the_loop() {
    assert_eq!(on_send(SendOutcome::Sent), None);
    assert_eq!(on_send(SendOutcome::TimedOut), None);
    assert_eq!(on_send(SendOutcome::ReceiverClosed), Some(ExitReason::Disconnected));
}
