//! Decisions of the relay-assisted attempt.
//!
//! Exactly one attempt goes through the relay. The event loop delivers our
//! negotiation payload over the relay channel, launches the out-of-scope
//! rendezvous negotiation as an independent task, and awaits the single raw
//! connection it delivers. Both the classification of what the channel
//! produced and the wrapping of a failed negotiation are decided here.

use vstd::prelude::*;
use crate::errors::SingleConnectionError;

verus! {

/// Classifies the relay attempt. `payload_sent` says whether our negotiation
/// payload could be delivered over the relay channel; `delivered` is what the
/// single-delivery connection receiver produced, `None` when it was dropped
/// before delivering. A channel that cannot carry the payload or deliver the
/// connection is dead; an actual delivery, success or failure, stands as it
/// is.
pub fn relay_channel_outcome(
    payload_sent: bool,
    delivered: Option<Result<usize, SingleConnectionError>>,
) -> (r: Result<usize, SingleConnectionError>)
    ensures
        !payload_sent ==> r == Err::<usize, _>(SingleConnectionError::DeadChannel),
        payload_sent && delivered is None ==> r == Err::<usize, _>(
            SingleConnectionError::DeadChannel,
        ),
        payload_sent ==> (delivered matches Some(out) ==> r == out),
{
    if !payload_sent {
        return Err(SingleConnectionError::DeadChannel);
    }
    match delivered {
        None => Err(SingleConnectionError::DeadChannel),
        Some(out) => out,
    }
}

/// Wraps the result of the rendezvous negotiation task: a delivered raw
/// connection stands, a failed negotiation becomes a per-attempt
/// rendezvous-connect failure that preserves the underlying cause.
pub fn map_rendezvous_result(negotiation: Result<usize, String>) -> (r: Result<
    usize,
    SingleConnectionError,
>)
    ensures
        negotiation matches Ok(token) ==> r == Ok::<usize, SingleConnectionError>(token),
        negotiation matches Err(cause) ==> (r matches Err(
            SingleConnectionError::RendezvousConnect(c),
        ) && c == cause),
{
    match negotiation {
        Ok(token) => Ok(token),
        Err(cause) => Err(SingleConnectionError::RendezvousConnect(cause)),
    }
}

} // verus!
