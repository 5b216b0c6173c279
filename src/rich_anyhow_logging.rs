//! Reports of `anyhow` errors, with their full causal chain, for the side
//! channel.
use vstd::prelude::*;
use crate::codec::{Envelope, REPORT_TEMPLATE, now_rfc3339, opt_view, report_envelope};
use crate::level::Level;
use crate::reporter::StaticSender;

verus! {

#[verifier::external_type_specification]
#[verifier::external_body]
pub struct ExAnyhowError(anyhow::Error);

/// Relies on `Display` for `anyhow::Error`: the outermost message alone.
#[verifier::external_body]
fn short_message(err: &anyhow::Error) -> String {
    format!("{err}")
}

/// Relies on `Debug` for `anyhow::Error`: the message followed by its
/// causes, one per line, and a backtrace when one was captured.
#[verifier::external_body]
fn full_trace(err: &anyhow::Error) -> String {
    format!("{err:?}")
}

/// `e` is a report at `level` from `source` on the named thread: the
/// error's texts go to `msg` and `@x`, and no record fields are set.
pub open spec fn is_report(e: Envelope, level: Level, source: Seq<char>, thread: Seq<char>) -> bool {
    &&& e.level == level
    &&& e.level_name@ == level.spec_name()
    &&& e.template@ == REPORT_TEMPLATE@
    &&& e.source@ == source
    &&& e.thread@ == thread
    &&& e.trace is Some
    &&& e.target is None
    &&& e.file is None
    &&& e.line is None
    &&& e.module is None
}

/// The report of `err` at `level` from the named thread, stamped now: the
/// short message (its `Display`) as `msg`, the whole chain (its `Debug`)
/// as `@x`.
pub fn with_level(sender: &StaticSender, level: Level, err: &anyhow::Error, thread: &str) -> (r: Envelope)
    ensures
        is_report(r, level, sender.source(), thread@),
{
    let msg = short_message(err);
    let trace = full_trace(err);
    let e = report_envelope(level, msg, trace, sender.source_name(), thread, now_rfc3339());
    assert(opt_view(e.trace) is Some);
    e
}

pub fn error(sender: &StaticSender, err: &anyhow::Error, thread: &str) -> (r: Envelope)
    ensures
        is_report(r, Level::Error, sender.source(), thread@),
{
    with_level(sender, Level::Error, err, thread)
}

pub fn warn(sender: &StaticSender, err: &anyhow::Error, thread: &str) -> (r: Envelope)
    ensures
        is_report(r, Level::Warn, sender.source(), thread@),
{
    with_level(sender, Level::Warn, err, thread)
}

pub fn info(sender: &StaticSender, err: &anyhow::Error, thread: &str) -> (r: Envelope)
    ensures
        is_report(r, Level::Info, sender.source(), thread@),
{
    with_level(sender, Level::Info, err, thread)
}

pub fn debug(sender: &StaticSender, err: &anyhow::Error, thread: &str) -> (r: Envelope)
    ensures
        is_report(r, Level::Debug, sender.source(), thread@),
{
    with_level(sender, Level::Debug, err, thread)
}

pub fn trace(sender: &StaticSender, err: &anyhow::Error, thread: &str) -> (r: Envelope)
    ensures
        is_report(r, Level::Trace, sender.source(), thread@),
{
    with_level(sender, Level::Trace, err, thread)
}

} // verus!
