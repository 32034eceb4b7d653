use vstd::prelude::*;

verus! {

// Requests and replies travel on std's mpsc channels. Verus has no model of
// them, so the declarations below let verified code hold the endpoints and
// call `channel`, `send`, `recv` and `clone`. What a receive yields is
// whatever some other thread sent, so nothing is assumed about the values:
// every caller's contract must hold for every possible outcome.
/// std::sync::mpsc::Sender: the sending half of a channel. Cloneable, and
/// shareable across threads by cloning.
#[verifier::external_type_specification]
#[verifier::external_body]
#[verifier::reject_recursive_types(T)]
pub struct ExSender<T>(std::sync::mpsc::Sender<T>);

/// std::sync::mpsc::Receiver: the receiving half of a channel; held by a
/// single owner.
#[verifier::external_type_specification]
#[verifier::external_body]
#[verifier::reject_recursive_types(T)]
pub struct ExReceiver<T>(std::sync::mpsc::Receiver<T>);

/// std::sync::mpsc::SendError: a send failed because every receiver is gone;
/// it hands the unsent value back.
#[verifier::external_type_specification]
#[verifier::external_body]
#[verifier::reject_recursive_types(T)]
pub struct ExSendError<T>(std::sync::mpsc::SendError<T>);

/// std::sync::mpsc::RecvError: a receive failed because the channel is empty
/// and every sender is gone.
#[verifier::external_type_specification]
#[verifier::external_body]
pub struct ExRecvError(std::sync::mpsc::RecvError);

/// Relies on std::sync::mpsc::channel: returns a connected sender/receiver
/// pair for an unbounded queue that hands values out in the order they were
/// sent.
pub assume_specification<T>[ std::sync::mpsc::channel::<T> ]() -> (r: (
    std::sync::mpsc::Sender<T>,
    std::sync::mpsc::Receiver<T>,
));

/// Relies on Sender::send: queues `t` for the receiver, and fails only when
/// the receiver has been dropped, handing `t` back inside the error.
pub assume_specification<T>[ std::sync::mpsc::Sender::<T>::send ](
    s: &std::sync::mpsc::Sender<T>,
    t: T,
) -> (r: Result<(), std::sync::mpsc::SendError<T>>);

/// Relies on Receiver::recv: blocks until a value was sent or every sender is
/// gone, and fails only in the latter case.
pub assume_specification<T>[ std::sync::mpsc::Receiver::<T>::recv ](
    r: &std::sync::mpsc::Receiver<T>,
) -> (res: Result<T, std::sync::mpsc::RecvError>);

/// Relies on Sender's Clone: the copy is another sender for the same channel.
pub assume_specification<T>[ <std::sync::mpsc::Sender<T> as Clone>::clone ](
    s: &std::sync::mpsc::Sender<T>,
) -> (r: std::sync::mpsc::Sender<T>);

} // verus!
