//! What this library assumes of the parts of `std` that it calls and that come
//! without a specification: the monotonic clock and the channels between
//! threads. Nothing here is proved. None of these calls promises anything about
//! its result, because each result depends on the moment of the call or on what
//! another thread has done.

use vstd::prelude::*;
use std::sync::mpsc::{Receiver, SendError, Sender, TryRecvError};
use std::time::{Duration, Instant};

verus! {

/// `std::time::Instant`, a reading of the monotonic clock; opaque here.
#[verifier::external_type_specification]
#[verifier::external_body]
pub struct ExInstant(Instant);

/// `std::sync::mpsc::Sender`, the producing end of a channel; opaque here.
#[verifier::external_type_specification]
#[verifier::external_body]
#[verifier::reject_recursive_types(T)]
pub struct ExSender<T>(Sender<T>);

/// `std::sync::mpsc::Receiver`, the consuming end of a channel; opaque here.
#[verifier::external_type_specification]
#[verifier::external_body]
#[verifier::reject_recursive_types(T)]
pub struct ExReceiver<T>(Receiver<T>);

/// `std::sync::mpsc::SendError`, which hands back an item that could not be
/// sent; opaque here.
#[verifier::external_type_specification]
#[verifier::external_body]
#[verifier::reject_recursive_types(T)]
pub struct ExSendError<T>(SendError<T>);

/// `std::sync::mpsc::TryRecvError`, the reason why nothing was received;
/// opaque here.
#[verifier::external_type_specification]
#[verifier::external_body]
pub struct ExTryRecvError(TryRecvError);

/// `Instant::now` reads the clock. The reading is not specified.
pub assume_specification[ Instant::now ]() -> (now: Instant)
;

/// `Instant::elapsed` measures the time since the reading was taken. Its
/// documentation says that it returns zero, and does not panic, where the
/// clock reads earlier than the reading. The amount is not specified.
pub assume_specification[ Instant::elapsed ](since: &Instant) -> (passed: Duration)
;

/// `Duration::as_millis` is the duration in whole milliseconds. Durations are
/// opaque here, so the number is not specified.
pub assume_specification[ Duration::as_millis ](duration: &Duration) -> (millis: u128)
;

/// `std::sync::mpsc::channel` makes an unbounded channel and returns its two ends.
pub assume_specification<T>[ std::sync::mpsc::channel::<T> ]() -> (ends: (Sender<T>, Receiver<T>))
;

/// `Sender::send` queues an item without blocking. It fails only when the
/// receiving end is gone, which the caller cannot know beforehand, so neither
/// outcome is promised.
pub assume_specification<T>[ Sender::<T>::send ](sender: &Sender<T>, item: T) -> (sent: Result<
    (),
    SendError<T>,
>)
;

/// `Receiver::try_recv` takes the oldest pending item without blocking, or
/// reports that there is none. Which of the two happens depends on the
/// producer, so neither is promised.
pub assume_specification<T>[ Receiver::<T>::try_recv ](receiver: &Receiver<T>) -> (polled: Result<
    T,
    TryRecvError,
>)
;

} // verus!
