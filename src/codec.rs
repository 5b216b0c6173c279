//! The event codec: filters raw records and turns the others into envelopes.
use vstd::prelude::*;
use vstd::string::*;
use crate::level::Level;
use crate::text::{contains, spec_contains};

verus! {

/// Records from modules under this namespace are the pipeline's own
/// diagnostics and are never shipped.
pub const INTERNAL_NAMESPACE: &'static str = "datalust_logger";

/// Messages holding this text are idle-connection notices of the HTTP stack.
pub const NOISY_MESSAGE: &'static str = "idle connection for";

/// Message template of an envelope made from a log record.
pub const RECORD_TEMPLATE: &'static str = "[{source}::{target} | {level}] {msg}";

/// Message template of an envelope made from a side-channel report.
pub const REPORT_TEMPLATE: &'static str = "[{source} | {level}] {msg}";

/// Message template and text of the envelope a worker sends first.
pub const STARTUP_TEMPLATE: &'static str = "[{source}] {msg}";

pub const STARTUP_MESSAGE: &'static str = "INITIALIZING LOGGER";

/// Level name carried by the start-up envelope.
pub const STARTUP_LEVEL: &'static str = "Info";

/// A raw record as raised through the logging facade.
pub struct LogRecord {
    pub level: Level,
    pub message: String,
    pub target: String,
    pub module: Option<String>,
    pub file: Option<String>,
    pub line: Option<u32>,
    pub thread: String,
}

/// The structured unit shipped to the ingestion endpoint.
pub struct Envelope {
    pub timestamp: String,
    pub level: Level,
    /// The name sent in the `@l` and `level` fields.
    pub level_name: String,
    pub template: String,
    pub msg: String,
    pub source: String,
    pub thread: String,
    pub target: Option<String>,
    pub file: Option<String>,
    pub line: Option<u32>,
    pub module: Option<String>,
    pub trace: Option<String>,
}

pub open spec fn opt_view(o: Option<String>) -> Option<Seq<char>> {
    match o {
        Some(s) => Some(s@),
        None => None,
    }
}

pub fn clone_opt(o: &Option<String>) -> (r: Option<String>)
    ensures
        r == *o,
{
    match o {
        Some(s) => Some(s.clone()),
        None => None,
    }
}

/// A record is suppressed when it comes from the internal namespace or
/// carries the noisy message; the first rule is tried first.
pub open spec fn is_suppressed(r: LogRecord) -> bool {
    ||| (r.module is Some && spec_contains(r.module->Some_0@, INTERNAL_NAMESPACE@))
    ||| spec_contains(r.message@, NOISY_MESSAGE@)
}

/// `e` is the envelope for record `r` from `source`, stamped `ts`.
pub open spec fn formats(e: Envelope, r: LogRecord, source: Seq<char>, ts: Seq<char>) -> bool {
    &&& e.timestamp@ == ts
    &&& e.level == r.level
    &&& e.level_name@ == r.level.spec_name()
    &&& e.template@ == RECORD_TEMPLATE@
    &&& e.msg@ == r.message@
    &&& e.source@ == source
    &&& e.thread@ == r.thread@
    &&& opt_view(e.target) == Some(r.target@)
    &&& opt_view(e.file) == opt_view(r.file)
    &&& e.line == r.line
    &&& opt_view(e.module) == opt_view(r.module)
    &&& e.trace is None
}

/// `e` is the side-channel report at `level` of an error whose message is
/// `msg` and whose chain renders as `trace`.
pub open spec fn reports(
    e: Envelope,
    level: Level,
    msg: Seq<char>,
    trace: Seq<char>,
    source: Seq<char>,
    thread: Seq<char>,
    ts: Seq<char>,
) -> bool {
    &&& e.timestamp@ == ts
    &&& e.level == level
    &&& e.level_name@ == level.spec_name()
    &&& e.template@ == REPORT_TEMPLATE@
    &&& e.msg@ == msg
    &&& e.source@ == source
    &&& e.thread@ == thread
    &&& e.target is None
    &&& e.file is None
    &&& e.line is None
    &&& e.module is None
    &&& opt_view(e.trace) == Some(trace)
}

/// Whether the record is filtered out.
pub fn suppressed(record: &LogRecord) -> (r: bool)
    ensures
        r == is_suppressed(*record),
{
    let internal = match &record.module {
        Some(m) => contains(m.as_str(), INTERNAL_NAMESPACE),
        None => false,
    };
    if internal {
        return true;
    }
    contains(record.message.as_str(), NOISY_MESSAGE)
}

/// Filters and formats a record with the given timestamp.
pub fn format_record(record: &LogRecord, source: &str, timestamp: String) -> (r: Option<Envelope>)
    ensures
        r is None <==> is_suppressed(*record),
        r is Some ==> formats(r->Some_0, *record, source@, timestamp@),
{
    if suppressed(record) {
        return None;
    }
    Some(Envelope {
        timestamp,
        level: record.level,
        level_name: String::from_str(record.level.name()),
        template: String::from_str(RECORD_TEMPLATE),
        msg: record.message.clone(),
        source: String::from_str(source),
        thread: record.thread.clone(),
        target: Some(record.target.clone()),
        file: clone_opt(&record.file),
        line: record.line,
        module: clone_opt(&record.module),
        trace: None,
    })
}

/// Relies on chrono's `From<SystemTime>` for `DateTime<Utc>`, which also
/// takes clocks set before the epoch, and `DateTime::to_rfc3339`: the
/// current UTC time as an RFC 3339 string. It depends on the clock, so
/// nothing is stated of it.
#[verifier::external_body]
pub(crate) fn now_rfc3339() -> String {
    chrono::DateTime::<chrono::Utc>::from(std::time::SystemTime::now()).to_rfc3339()
}

/// Filters and formats a record, stamping it with the current time.
pub fn parse_info(record: &LogRecord, source: &str) -> (r: Option<Envelope>)
    ensures
        r is None <==> is_suppressed(*record),
        r is Some ==> formats(r->Some_0, *record, source@, r->Some_0.timestamp@),
{
    let now = now_rfc3339();
    format_record(record, source, now)
}

/// Builds the side-channel report envelope.
pub fn report_envelope(
    level: Level,
    msg: String,
    trace: String,
    source: &str,
    thread: &str,
    timestamp: String,
) -> (r: Envelope)
    ensures
        reports(r, level, msg@, trace@, source@, thread@, timestamp@),
{
    Envelope {
        timestamp,
        level,
        level_name: String::from_str(level.name()),
        template: String::from_str(REPORT_TEMPLATE),
        msg,
        source: String::from_str(source),
        thread: String::from_str(thread),
        target: None,
        file: None,
        line: None,
        module: None,
        trace: Some(trace),
    }
}

/// The envelope a worker delivers before it takes any command.
pub open spec fn is_startup(e: Envelope, source: Seq<char>, thread: Seq<char>, ts: Seq<char>) -> bool {
    &&& e.timestamp@ == ts
    &&& e.level == Level::Info
    &&& e.level_name@ == STARTUP_LEVEL@
    &&& e.template@ == STARTUP_TEMPLATE@
    &&& e.msg@ == STARTUP_MESSAGE@
    &&& e.source@ == source
    &&& e.thread@ == thread
    &&& e.target is None
    &&& e.file is None
    &&& e.line is None
    &&& e.module is None
    &&& e.trace is None
}

pub fn startup_envelope(source: &str, thread: &str, timestamp: String) -> (r: Envelope)
    ensures
        is_startup(r, source@, thread@, timestamp@),
{
    Envelope {
        timestamp,
        level: Level::Info,
        level_name: String::from_str(STARTUP_LEVEL),
        template: String::from_str(STARTUP_TEMPLATE),
        msg: String::from_str(STARTUP_MESSAGE),
        source: String::from_str(source),
        thread: String::from_str(thread),
        target: None,
        file: None,
        line: None,
        module: None,
        trace: None,
    }
}

/// The colored line echoed to the local console for an accepted record.
pub open spec fn spec_console_line(ts: Seq<char>, target: Seq<char>, level: Level, msg: Seq<char>) -> Seq<char> {
    "\x1b[36m["@ + ts + "::"@ + target + " | "@ + level.spec_name() + "]:\x1b[0m "@ + msg
}

pub fn console_line(timestamp: &str, target: &str, level: Level, msg: &str) -> (r: String)
    ensures
        r@ == spec_console_line(timestamp@, target@, level, msg@),
{
    let mut s = String::from_str("\x1b[36m[");
    s.append(timestamp);
    s.append("::");
    s.append(target);
    s.append(" | ");
    s.append(level.name());
    s.append("]:\x1b[0m ");
    s.append(msg);
    s
}

} // verus!
