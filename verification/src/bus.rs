use vstd::prelude::*;

verus! {

/// The sending half of the notification bus. A value of this type is opaque
/// here; it is only carried and handed to the wrappers below.
#[verifier::external_type_specification]
#[verifier::external_body]
#[verifier::reject_recursive_types(T)]
pub struct ExSender<T>(tokio::sync::broadcast::Sender<T>);

/// The receiving half of the notification bus, held by one watcher. Awaiting
/// it is the caller's business; nothing about delivery is claimed here.
#[verifier::external_type_specification]
#[verifier::external_body]
#[verifier::reject_recursive_types(T)]
pub struct ExReceiver<T>(tokio::sync::broadcast::Receiver<T>);

/// Relies on tokio::sync::broadcast::channel: builds a fan-out channel of
/// the given capacity. The call panics only when the capacity is 0 or above
/// usize::MAX / 2, which the precondition rules out.
#[verifier::external_body]
pub(crate) fn bus_channel(capacity: usize) -> (
    tokio::sync::broadcast::Sender<()>,
    tokio::sync::broadcast::Receiver<()>,
)
    requires
        1 <= capacity <= usize::MAX / 2,
{
    tokio::sync::broadcast::channel(capacity)
}

/// Relies on tokio::sync::broadcast::Sender::subscribe: the new receiver
/// sees every event published after this call returns, and none before.
#[verifier::external_body]
pub(crate) fn bus_subscribe(
    s: &tokio::sync::broadcast::Sender<()>,
) -> tokio::sync::broadcast::Receiver<()> {
    s.subscribe()
}

/// Relies on tokio::sync::broadcast::Sender::send: publishes one wake event
/// to the receivers subscribed now. The bus is a liveness nudge, never the
/// source of truth, so nothing is claimed of delivery; a send with no
/// subscribers reports an error, which is dropped here on purpose.
#[verifier::external_body]
pub(crate) fn bus_notify(s: &tokio::sync::broadcast::Sender<()>) {
    let _ = s.send(());
}

} // verus!
