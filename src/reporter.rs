//! The side channel: a sender, shared by every thread, through which code
//! holding an error value reports it without going through the facade.
use vstd::prelude::*;
use vstd::string::*;
use std::sync::mpsc::Sender;
use crate::worker::Command;

verus! {

/// A sending end of the worker's mailbox, with the configured source name.
pub struct StaticSender {
    sender: Sender<Command>,
    source: String,
}

impl StaticSender {
    pub closed spec fn source(&self) -> Seq<char> {
        self.source@
    }

    pub fn new(send: Sender<Command>, source: &str) -> (r: StaticSender)
        ensures
            r.source() == source@,
    {
        StaticSender { sender: send, source: String::from_str(source) }
    }

    pub fn source_name(&self) -> (r: &str)
        ensures
            r@ == self.source(),
    {
        self.source.as_str()
    }

    /// The sending end that reports are queued on.
    pub fn sender(&self) -> &Sender<Command> {
        &self.sender
    }
}

} // verus!
