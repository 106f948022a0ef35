//! The distribution point of a room: tokio's broadcast channel, declared
//! for the verifier and reached through small trusted wrappers.
//!
//! Delivery is best-effort: a publish never blocks, and a subscriber that
//! falls more than the buffer capacity behind loses the oldest pending
//! texts. Nothing is therefore promised of what a receiver sees; the
//! transcript kept by the registry is the authoritative record.

use vstd::prelude::*;

verus! {

/// Declares tokio's broadcast sender so it can stand in fields and
/// signatures; its values are opaque to the verifier.
#[verifier::external_type_specification]
#[verifier::external_body]
#[verifier::reject_recursive_types(T)]
pub struct ExSender<T>(tokio::sync::broadcast::Sender<T>);

/// Declares tokio's broadcast receiver; the binary awaits deliveries on
/// it, outside the verified core.
#[verifier::external_type_specification]
#[verifier::external_body]
#[verifier::reject_recursive_types(T)]
pub struct ExReceiver<T>(tokio::sync::broadcast::Receiver<T>);

/// Relies on tokio::sync::broadcast::channel: a fresh distribution point
/// whose subscribers each buffer up to `capacity` pending texts. The call
/// panics on a capacity of zero or beyond half the address space, which
/// the precondition rules out.
#[verifier::external_body]
pub(crate) fn new_distribution(capacity: usize) -> (tx: tokio::sync::broadcast::Sender<String>)
    requires
        1 <= capacity <= usize::MAX / 2,
{
    let (tx, _rx) = tokio::sync::broadcast::channel(capacity);
    tx
}

/// Relies on tokio::sync::broadcast::Sender::subscribe: a fresh,
/// independent receiver that sees only texts sent from this moment on.
#[verifier::external_body]
pub(crate) fn subscribe_to(
    tx: &tokio::sync::broadcast::Sender<String>,
) -> (rx: tokio::sync::broadcast::Receiver<String>) {
    tx.subscribe()
}

/// Relies on tokio::sync::broadcast::Sender::send: queues the text for
/// every live receiver without blocking; with no receiver it reports an
/// error, which best-effort delivery discards.
#[verifier::external_body]
pub(crate) fn send_text(tx: &tokio::sync::broadcast::Sender<String>, text: String) {
    let _ = tx.send(text);
}

} // verus!
