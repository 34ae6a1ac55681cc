//! Decisions of the loop that forwards pose updates to one WebSocket client.
use vstd::prelude::*;

verus! {

/// What happened since the loop's last action.
#[derive(Debug, Clone)]
pub enum ForwardEvent {
    /// A pose update came from the channel; its JSON text, or `None` when it could not be serialised.
    Received(Option<String>),
    /// Reading the channel failed (closed, or the client fell behind).
    ReceiveFailed,
    /// The last text was sent to the client.
    Sent,
    /// Sending to the client failed: it has gone.
    SendFailed,
}

/// What the loop does next.
#[derive(Debug, Clone)]
pub enum ForwardAction {
    /// Send this text to the client.
    Send(String),
    /// Wait for the next pose update.
    AwaitNext,
    /// Leave the loop and close the connection.
    Stop,
}

/// The next action of the forwarding loop after `event`: every update that
/// serialises is sent, one that does not is skipped, and the loop ends exactly
/// when reading the channel or sending to the client fails.
pub fn forward_step(event: ForwardEvent) -> (a: ForwardAction)
    ensures
        (a is Stop) <==> (event is ReceiveFailed || event is SendFailed),
        event matches ForwardEvent::Received(Some(text)) ==> a == ForwardAction::Send(text),
        event matches ForwardEvent::Received(None) ==> a is AwaitNext,
        event is Sent ==> a is AwaitNext,
{
    match event {
        ForwardEvent::Received(Some(text)) => ForwardAction::Send(text),
        ForwardEvent::Received(None) => ForwardAction::AwaitNext,
        ForwardEvent::ReceiveFailed => ForwardAction::Stop,
        ForwardEvent::Sent => ForwardAction::AwaitNext,
        ForwardEvent::SendFailed => ForwardAction::Stop,
    }
}

} // verus!
