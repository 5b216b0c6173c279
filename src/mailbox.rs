//! The channel between producers and the worker, as seen from this library.
use vstd::prelude::*;
use std::sync::mpsc::Sender;
use crate::worker::Command;

verus! {

#[verifier::external_type_specification]
#[verifier::external_body]
#[verifier::reject_recursive_types(T)]
pub struct ExSender<T>(std::sync::mpsc::Sender<T>);

/// Relies on `std::sync::mpsc::Sender::send`: queues the command without
/// blocking, and fails only when the receiving end is gone. Whether it is
/// gone is not known here, so nothing is stated of the result.
#[verifier::external_body]
pub(crate) fn send_command(s: &Sender<Command>, c: Command) -> bool {
    s.send(c).is_ok()
}

} // verus!
