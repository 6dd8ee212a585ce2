//! What the library takes on trust from the crates it calls.
use vstd::prelude::*;

use async_channel::{Sender, TrySendError};

use crate::message::GUIMessage;

verus! {

/// The producing end of an `async_channel` channel, carried through opaque.
#[verifier::external_type_specification]
#[verifier::external_body]
#[verifier::reject_recursive_types(T)]
pub struct ExSender<T>(async_channel::Sender<T>);

/// The error that `ksni` reports when a tray service cannot be started.
#[verifier::external_type_specification]
#[verifier::external_body]
pub struct ExKsniError(ksni::Error);

/// Relies on async_channel::Sender::try_send: it never waits; it either
/// queues the message (`Ok`, here carrying the message that was queued) or,
/// when the channel is full or closed, hands the message back inside the
/// error. Whether a message is accepted depends on the other ends of the
/// channel, so nothing is promised about which of the two outcomes comes.
#[verifier::external_body]
pub(crate) fn try_deliver(tx: &Sender<GUIMessage>, msg: GUIMessage) -> (r: Result<GUIMessage, GUIMessage>)
    ensures
        r matches Ok(m) ==> m == msg,
        r matches Err(m) ==> m == msg,
{
    match tx.try_send(msg) {
        Ok(()) => Ok(msg),
        Err(TrySendError::Full(m)) => Err(m),
        Err(TrySendError::Closed(m)) => Err(m),
    }
}

} // verus!
