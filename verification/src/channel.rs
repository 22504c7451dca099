//! Trusted boundary to the `crossbeam_channel` queues that connect the
//! adapter to the engine worker.  The channel types are opaque to the
//! verifier; nothing is assumed about what a receive yields, so every
//! consumer must handle any value that comes back.

use vstd::prelude::*;

verus! {

#[verifier::external_type_specification]
#[verifier::external_body]
#[verifier::reject_recursive_types(T)]
pub struct ExSender<T>(crossbeam_channel::Sender<T>);

#[verifier::external_type_specification]
#[verifier::external_body]
#[verifier::reject_recursive_types(T)]
pub struct ExReceiver<T>(crossbeam_channel::Receiver<T>);

#[verifier::external_type_specification]
#[verifier::external_body]
#[verifier::reject_recursive_types(T)]
pub struct ExSendError<T>(crossbeam_channel::SendError<T>);

#[verifier::external_type_specification]
#[verifier::external_body]
pub struct ExRecvError(crossbeam_channel::RecvError);

#[verifier::external_type_specification]
#[verifier::external_body]
pub struct ExTryRecvError(crossbeam_channel::TryRecvError);

/// Relies on crossbeam_channel::Sender::send: queues the message unless
/// the receiving side has disconnected.  Nothing is assumed about the
/// outcome.
pub assume_specification<T>[ crossbeam_channel::Sender::<T>::send ](
    s: &crossbeam_channel::Sender<T>,
    msg: T,
) -> (r: Result<(), crossbeam_channel::SendError<T>>);

/// Relies on crossbeam_channel::Receiver::recv: blocks until a message or
/// disconnection.  Nothing is assumed about which value arrives.
pub assume_specification<T>[ crossbeam_channel::Receiver::<T>::recv ](
    r: &crossbeam_channel::Receiver<T>,
) -> (res: Result<T, crossbeam_channel::RecvError>);

/// Relies on crossbeam_channel::Receiver::try_recv: a non-blocking probe of
/// the queue.  Nothing is assumed about which value arrives.
pub assume_specification<T>[ crossbeam_channel::Receiver::<T>::try_recv ](
    r: &crossbeam_channel::Receiver<T>,
) -> (res: Result<T, crossbeam_channel::TryRecvError>);

} // verus!
