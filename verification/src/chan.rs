//! The trusted boundary to the channel and cancellation primitives: the
//! channel endpoints are opaque values, and the non-blocking operations on
//! them are wrapped with the contracts their documentation gives. Nothing is
//! assumed about what a queue holds — its state is shared with the other
//! endpoint — so each contract only says what holds of every outcome.

use vstd::prelude::*;

verus! {

#[verifier::external_type_specification]
#[verifier::external_body]
#[verifier::reject_recursive_types(T)]
pub struct ExSender<T>(tokio::sync::mpsc::Sender<T>);

#[verifier::external_type_specification]
#[verifier::external_body]
#[verifier::reject_recursive_types(T)]
pub struct ExReceiver<T>(tokio::sync::mpsc::Receiver<T>);

#[verifier::external_type_specification]
#[verifier::external_body]
pub struct ExCancellationToken(tokio_util::sync::CancellationToken);

/// Why a non-blocking enqueue did not happen; the undelivered value is
/// handed back inside.
#[derive(Debug)]
pub enum TrySendFailure<T> {
    /// The channel is at capacity; the caller may retry later.
    Full(T),
    /// The receiving side is gone; nothing will ever be delivered.
    Closed(T),
}

/// Why a non-blocking dequeue produced nothing.
#[derive(Debug, PartialEq, Eq)]
pub enum TryRecvFailure {
    /// Nothing is queued right now; more may yet arrive.
    Empty,
    /// Every sender is gone and the queue is drained; nothing more will
    /// ever arrive.
    Disconnected,
}

/// The largest capacity the channel primitive accepts: its permit counter
/// keeps the top three bits for itself, leaving an eighth of the range.
pub const MAX_CHANNEL_CAPACITY: usize = usize::MAX / 8;

/// Relies on tokio's `mpsc::channel`: it creates a connected bounded
/// sender/receiver pair, and panics when `buffer` is zero or above the
/// permit limit of its semaphore, so both are required away.
pub assume_specification<T>[ tokio::sync::mpsc::channel::<T> ](buffer: usize) -> (
    tokio::sync::mpsc::Sender<T>,
    tokio::sync::mpsc::Receiver<T>,
)
    requires
        buffer >= 1,
        buffer <= MAX_CHANNEL_CAPACITY,
;

/// Relies on tokio's `Sender::try_send`: it never waits; a failure hands the
/// message back, `Full` when the channel is at capacity, `Closed` when the
/// receiving side is gone.
#[verifier::external_body]
pub(crate) fn chan_try_send<T>(tx: &tokio::sync::mpsc::Sender<T>, message: T) -> (r: Result<
    (),
    TrySendFailure<T>,
>)
    ensures
        match r {
            Ok(_) => true,
            Err(TrySendFailure::Full(m)) => m == message,
            Err(TrySendFailure::Closed(m)) => m == message,
        },
{
    match tx.try_send(message) {
        Ok(()) => Ok(()),
        Err(tokio::sync::mpsc::error::TrySendError::Full(m)) => Err(TrySendFailure::Full(m)),
        Err(tokio::sync::mpsc::error::TrySendError::Closed(m)) => Err(TrySendFailure::Closed(m)),
    }
}

/// Relies on tokio's `Receiver::try_recv`: it does not wait for a value to
/// arrive, and yields the next queued one, or `Empty` while the queue may
/// still fill, or `Disconnected` once every sender is gone and the queue is
/// drained.
#[verifier::external_body]
pub(crate) fn chan_try_recv<T>(rx: &mut tokio::sync::mpsc::Receiver<T>) -> (r: Result<
    T,
    TryRecvFailure,
>) {
    match rx.try_recv() {
        Ok(v) => Ok(v),
        Err(tokio::sync::mpsc::error::TryRecvError::Empty) => Err(TryRecvFailure::Empty),
        Err(tokio::sync::mpsc::error::TryRecvError::Disconnected) => Err(
            TryRecvFailure::Disconnected,
        ),
    }
}

} // verus!
