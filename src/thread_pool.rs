//! The task mailbox: background operations post one message each on
//! completion, and the control loop drains what has arrived.

use vstd::prelude::*;

use std::sync::mpsc::{Receiver, Sender};

verus! {

#[verifier::external_type_specification]
#[verifier::external_body]
#[verifier::reject_recursive_types(T)]
pub struct ExSender<T>(Sender<T>);

#[verifier::external_type_specification]
#[verifier::external_body]
#[verifier::reject_recursive_types(T)]
pub struct ExReceiver<T>(Receiver<T>);

/// Relies on `std::sync::mpsc::channel`: a connected sender and receiver.
pub assume_specification<T>[ std::sync::mpsc::channel::<T> ]() -> (Sender<T>, Receiver<T>);

/// Relies on `Sender::clone`: another sender on the same channel.
pub assume_specification<T>[ <Sender<T> as Clone>::clone ](s: &Sender<T>) -> Sender<T>;

/// Relies on `Receiver::try_iter`: the messages that have arrived, in the
/// order they arrived, each handed out once; it does not wait.
#[verifier::external_body]
fn drain_arrived<T>(rx: &Receiver<T>) -> Vec<T> {
    rx.try_iter().collect()
}

/// A mailbox of messages of type `T`.
#[verifier::reject_recursive_types(T)]
pub struct ThreadPool<T> {
    tx: Sender<T>,
    rx: Receiver<T>,
}

impl<T> ThreadPool<T> {
    /// An empty mailbox.
    pub fn new() -> Self {
        let (tx, rx) = std::sync::mpsc::channel::<T>();
        ThreadPool { tx, rx }
    }

    /// A handle that a background operation posts its completion message through.
    pub fn sender(&self) -> Sender<T> {
        self.tx.clone()
    }

    /// Every message that has arrived and not been drained before, in arrival order.
    pub fn poll(&self) -> Vec<T> {
        drain_arrived(&self.rx)
    }
}

} // verus!
