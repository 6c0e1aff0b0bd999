//! The watch channels over which waiting clients are told that something
//! changed.
//!
//! The channels are tokio's. This crate only ever creates one, sends on it,
//! and hands out subscriptions; it never reads what is inside. The verifier
//! therefore sees a channel as an opaque handle, and everything below is
//! taken on trust from tokio's documentation rather than proved.

use vstd::prelude::*;

verus! {

/// `tokio::sync::watch::Sender`, the sending half of a watch channel.
/// Opaque: nothing is known of a value of this type.
#[verifier::external_type_specification]
#[verifier::external_body]
#[verifier::reject_recursive_types(T)]
pub struct ExWatchSender<T>(tokio::sync::watch::Sender<T>);

/// `tokio::sync::watch::Receiver`, a subscription to a watch channel.
/// Opaque: nothing is known of a value of this type.
#[verifier::external_type_specification]
#[verifier::external_body]
#[verifier::reject_recursive_types(T)]
pub struct ExWatchReceiver<T>(tokio::sync::watch::Receiver<T>);

/// Calls `tokio::sync::watch::Sender::new`: a fresh channel that holds
/// `initial` and has no subscriber yet. Nothing is claimed of the handle.
#[verifier::external_body]
pub(crate) fn open<T>(initial: T) -> tokio::sync::watch::Sender<T> {
    tokio::sync::watch::Sender::new(initial)
}

/// Calls `tokio::sync::watch::Sender::send_replace`: stores `value` in the
/// channel and wakes every subscriber, whether or not there is one. The
/// value that was in the channel before is dropped. Nothing is claimed,
/// since the effect lies wholly inside the channel.
#[verifier::external_body]
pub(crate) fn announce<T>(sender: &tokio::sync::watch::Sender<T>, value: T) {
    sender.send_replace(value);
}

/// Calls `tokio::sync::watch::Sender::subscribe`: a new subscription that
/// will see the values sent from now on. Nothing is claimed of the handle.
#[verifier::external_body]
pub(crate) fn subscribe<T>(sender: &tokio::sync::watch::Sender<T>) -> tokio::sync::watch::Receiver<T> {
    sender.subscribe()
}

/// Calls `Clone::clone` on a `tokio::sync::watch::Sender`: a second handle to
/// the same channel. Nothing is claimed of the handle.
#[verifier::external_body]
pub(crate) fn share<T>(sender: &tokio::sync::watch::Sender<T>) -> tokio::sync::watch::Sender<T> {
    sender.clone()
}

} // verus!
