//! The facade adapter: the minimum-level check, the codec, and a
//! non-blocking hand-off to the worker's mailbox.
use vstd::prelude::*;
use vstd::string::*;
use std::sync::mpsc::Sender;
use crate::codec::{Envelope, LogRecord, console_line, format_record, formats, is_suppressed, now_rfc3339, spec_console_line};
use crate::config::Config;
use crate::level::Level;
use crate::mailbox::send_command;
use crate::worker::Command;

verus! {

/// The result of one logging call.
pub enum LogOutcome {
    /// The record is below the minimum level.
    Disabled,
    /// The codec filtered the record out.
    Suppressed,
    /// The envelope was queued; the line is the console echo.
    Queued(String),
    /// The mailbox is closed and the envelope was dropped; the line is the
    /// console echo.
    Dropped(String),
}

pub struct SeqLogger {
    source: String,
    send: Sender<Command>,
    log_level: Level,
}

impl SeqLogger {
    pub closed spec fn source(&self) -> Seq<char> {
        self.source@
    }

    pub closed spec fn min_level(&self) -> Level {
        self.log_level
    }

    pub fn new(config: &Config, send: Sender<Command>) -> (r: SeqLogger)
        ensures
            r.source() == config.source@,
            r.min_level() == config.level,
    {
        SeqLogger { source: config.source.clone(), send, log_level: config.level }
    }

    /// Whether records of `level` are taken.
    pub fn enabled(&self, level: Level) -> (r: bool)
        ensures
            r == level.spec_passes(self.min_level()),
    {
        level.passes(self.log_level)
    }

    /// The envelope for a record stamped `timestamp`, with the console
    /// echo of the same record and time, or `None` when the record is below
    /// the minimum level or filtered out.
    pub fn accept(&self, record: &LogRecord, timestamp: String) -> (r: Option<(Envelope, String)>)
        ensures
            r is Some <==> (record.level.spec_passes(self.min_level()) && !is_suppressed(*record)),
            r is Some ==> formats(r->Some_0.0, *record, self.source(), timestamp@),
            r is Some ==> r->Some_0.1@ == spec_console_line(timestamp@, record.target@, record.level, record.message@),
    {
        if !self.enabled(record.level) {
            return None;
        }
        let line = console_line(timestamp.as_str(), record.target.as_str(), record.level, record.message.as_str());
        match format_record(record, self.source.as_str(), timestamp) {
            Some(e) => Some((e, line)),
            None => None,
        }
    }

    /// Handles one record: checks its level, runs the codec, and hands the
    /// envelope to the worker without waiting for it.
    pub fn log(&self, record: &LogRecord) -> (r: LogOutcome)
        ensures
            r is Disabled <==> !record.level.spec_passes(self.min_level()),
            r is Suppressed <==> (record.level.spec_passes(self.min_level()) && is_suppressed(*record)),
            r is Queued ==> exists|ts: Seq<char>|
                r->Queued_0@ == #[trigger] spec_console_line(ts, record.target@, record.level, record.message@),
            r is Dropped ==> exists|ts: Seq<char>|
                r->Dropped_0@ == #[trigger] spec_console_line(ts, record.target@, record.level, record.message@),
    {
        if !self.enabled(record.level) {
            return LogOutcome::Disabled;
        }
        match self.accept(record, now_rfc3339()) {
            None => LogOutcome::Suppressed,
            Some((e, line)) => {
                assert(line@ == spec_console_line(e.timestamp@, record.target@, record.level, record.message@));
                if send_command(&self.send, Command::Deliver(e)) {
                    LogOutcome::Queued(line)
                } else {
                    LogOutcome::Dropped(line)
                }
            },
        }
    }
}

} // verus!
