//! The two ends of a standard-library channel, as far as the link needs them.
//!
//! Nothing in this file is proved: each contract below is taken from the
//! documentation of `std::sync::mpsc`.

use std::sync::mpsc::{Receiver, Sender};
use vstd::prelude::*;

verus! {

/// `std::sync::mpsc::Sender`, carried as an opaque value.
#[verifier::external_type_specification]
#[verifier::external_body]
#[verifier::reject_recursive_types(T)]
pub struct ExSender<T>(Sender<T>);

/// `std::sync::mpsc::Receiver`, carried as an opaque value.
#[verifier::external_type_specification]
#[verifier::external_body]
#[verifier::reject_recursive_types(T)]
pub struct ExReceiver<T>(Receiver<T>);

/// Calls `Sender::send`, which never blocks. Whether the value is accepted
/// depends on the receiving end still being alive, so nothing is claimed of
/// that; a refused value is what the returned `SendError` holds, and it is
/// handed back as it was given.
#[verifier::external_body]
pub(crate) fn offer<T>(sender: &Sender<T>, value: T) -> (outcome: Result<(), T>)
    ensures
        outcome is Err ==> outcome->Err_0 == value,
{
    sender.send(value).map_err(|refused| refused.0)
}

/// Calls `Receiver::try_recv`, which never blocks. What it yields depends on
/// what the other end has sent so far, so nothing is claimed of it: `None`
/// stands for both an empty and a disconnected channel.
#[verifier::external_body]
pub(crate) fn poll<T>(receiver: &Receiver<T>) -> (next: Option<T>) {
    receiver.try_recv().ok()
}

} // verus!
