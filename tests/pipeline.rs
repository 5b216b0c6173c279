use datalust_logger::clef::to_clef;
use datalust_logger::codec::{console_line, format_record, parse_info, report_envelope, suppressed, Envelope, LogRecord};
use datalust_logger::config::{endpoint, init, Config, ConfigError};
use datalust_logger::level::{get_log_level, parse_level, Level};
use datalust_logger::logger::{LogOutcome, SeqLogger};
use datalust_logger::reporter::StaticSender;
use datalust_logger::rich_anyhow_logging;
use datalust_logger::text::{contains, ends_with, same_text};
use datalust_logger::transport::{check_status, DeliveryError, Request};
use datalust_logger::worker::{Action, Command, Worker};
use std::sync::mpsc::channel;

fn record(level: Level, message: &str, module: Option<&str>) -> LogRecord {
    LogRecord {
        level,
        message: message.to_string(),
        target: "app::disk".to_string(),
        module: module.map(|m| m.to_string()),
        file: Some("src/disk.rs".to_string()),
        line: Some(42),
        thread: "main".to_string(),
    }
}

fn config(level: Level) -> Config {
    init("svc", Some("http://logs:5341"), Some("k1"), Some(level_name(level)), None).unwrap()
}

fn level_name(level: Level) -> &'static str {
    match level {
        Level::Error => "error",
        Level::Warn => "warn",
        Level::Info => "info",
        Level::Debug => "debug",
        Level::Trace => "trace",
    }
}

fn envelope(line: Option<u32>) -> Envelope {
    Envelope {
        timestamp: "2024-01-02T03:04:05+00:00".to_string(),
        level: Level::Warn,
        level_name: "WARN".to_string(),
        template: "[{source}::{target} | {level}] {msg}".to_string(),
        msg: "say \"hi\"".to_string(),
        source: "svc".to_string(),
        thread: "main".to_string(),
        target: Some("app".to_string()),
        file: None,
        line,
        module: None,
        trace: None,
    }
}

#[test]
fn text_predicates() {
    assert!(contains("a idle connection for 5s", "idle connection for"));
    assert!(!contains("idle connectio", "idle connection for"));
    assert!(contains("abc", ""));
    assert!(ends_with("http://x/ingest/clef", "/ingest/clef"));
    assert!(!ends_with("clef", "/ingest/clef"));
    assert!(same_text("warn", "warn"));
    assert!(!same_text("warn", "Warn"));
}

#[test]
fn levels_parse_and_order() {
    assert_eq!(parse_level("error"), Level::Error);
    assert_eq!(parse_level("warn"), Level::Warn);
    assert_eq!(parse_level("debug"), Level::Debug);
    assert_eq!(parse_level("trace"), Level::Trace);
    assert_eq!(parse_level("Debug"), Level::Info);
    assert_eq!(parse_level(""), Level::Info);
    assert_eq!(get_log_level(Some("trace"), Some("error")), Level::Trace);
    assert_eq!(get_log_level(None, Some("error")), Level::Error);
    assert_eq!(get_log_level(None, None), Level::Info);
    assert!(Level::Error.passes(Level::Warn));
    assert!(Level::Warn.passes(Level::Warn));
    assert!(!Level::Info.passes(Level::Warn));
    assert_eq!(Level::Warn.name(), "WARN");
    assert_eq!(Level::Trace.name(), "TRACE");
}

#[test]
fn internal_namespace_is_suppressed() {
    let r = record(Level::Error, "worker stopped", Some("datalust_logger::l_sync"));
    assert!(suppressed(&r));
    assert!(format_record(&r, "svc", "t".to_string()).is_none());
    assert!(parse_info(&r, "svc").is_none());
}

#[test]
fn noisy_message_is_suppressed() {
    let r = record(Level::Debug, "dropping idle connection for (\"x\", 80)", Some("hyper::pool"));
    assert!(suppressed(&r));
    assert!(format_record(&r, "svc", "t".to_string()).is_none());
}

#[test]
fn record_fields_are_copied() {
    let r = record(Level::Warn, "disk nearly full", Some("app::disk"));
    let e = format_record(&r, "svc", "2024-01-02T03:04:05+00:00".to_string()).unwrap();
    assert_eq!(e.level, Level::Warn);
    assert_eq!(e.msg, "disk nearly full");
    assert_eq!(e.source, "svc");
    assert_eq!(e.thread, "main");
    assert_eq!(e.target, Some("app::disk".to_string()));
    assert_eq!(e.file, Some("src/disk.rs".to_string()));
    assert_eq!(e.line, Some(42));
    assert_eq!(e.module, Some("app::disk".to_string()));
    assert_eq!(e.trace, None);
    assert_eq!(e.timestamp, "2024-01-02T03:04:05+00:00");
}

#[test]
fn optional_fields_absent_when_not_supplied() {
    let r = LogRecord {
        level: Level::Info,
        message: "m".to_string(),
        target: "t".to_string(),
        module: None,
        file: None,
        line: None,
        thread: "worker-1".to_string(),
    };
    let e = parse_info(&r, "svc").unwrap();
    assert_eq!(e.file, None);
    assert_eq!(e.line, None);
    assert_eq!(e.module, None);
    assert_eq!(e.thread, "worker-1");
    assert!(!e.timestamp.is_empty());
}

#[test]
fn console_line_layout() {
    let l = console_line("T", "app", Level::Info, "hello");
    assert_eq!(l, "\x1b[36m[T::app | INFO]:\x1b[0m hello");
}

#[test]
fn clef_body_exact() {
    let body = to_clef(&envelope(None));
    assert_eq!(
        body,
        "{\"@l\":\"WARN\",\"@mt\":\"[{source}::{target} | {level}] {msg}\",\"@t\":\"2024-01-02T03:04:05+00:00\",\"level\":\"WARN\",\"msg\":\"say \\\"hi\\\"\",\"source\":\"svc\",\"target\":\"app\",\"thread\":\"main\"}"
    );
}

#[test]
fn clef_body_with_line_and_trace() {
    let mut e = envelope(Some(1207));
    e.trace = Some("a\nb".to_string());
    let body = to_clef(&e);
    assert!(body.contains(",\"line\":1207,"));
    assert!(body.contains("\"@x\":\"a\\nb\""));
    let v: serde_json::Value = serde_json::from_str(&body).unwrap();
    assert_eq!(v["line"], serde_json::Value::from(1207u32));
    assert_eq!(v["@x"], serde_json::Value::from("a\nb"));
}

#[test]
fn endpoint_normalisation() {
    assert_eq!(endpoint(None), "http://localhost:5341/ingest/clef");
    assert_eq!(endpoint(Some("http://h:1")), "http://h:1/ingest/clef");
    assert_eq!(endpoint(Some("http://h:1/ingest/clef")), "http://h:1/ingest/clef");
}

#[test]
fn missing_api_key_is_config_error() {
    let r = init("svc", None, None, None, None);
    assert!(matches!(r, Err(ConfigError::MissingApiKey)));
    let r = init("", None, Some("k"), None, None);
    assert!(matches!(r, Err(ConfigError::EmptySource)));
    let c = init("svc", None, Some("k"), None, Some("warn")).unwrap();
    assert_eq!(c.url, "http://localhost:5341/ingest/clef");
    assert_eq!(c.api_key, "k");
    assert_eq!(c.level, Level::Warn);
    assert!(!ConfigError::AlreadyRegistered.message().is_empty());
}

#[test]
fn status_judgement() {
    assert!(check_status(200).is_ok());
    assert!(check_status(201).is_ok());
    assert!(check_status(299).is_ok());
    assert!(matches!(check_status(500), Err(DeliveryError::Status(500))));
    assert!(matches!(check_status(199), Err(DeliveryError::Status(199))));
    assert!(matches!(check_status(300), Err(DeliveryError::Status(300))));
}

#[test]
fn warn_minimum_skips_info_and_ships_warn() {
    let (tx, rx) = channel();
    let cfg = config(Level::Warn);
    let logger = SeqLogger::new(&cfg, tx);
    assert!(!logger.enabled(Level::Info));
    let out = logger.log(&record(Level::Info, "just saying", None));
    assert!(matches!(out, LogOutcome::Disabled));
    assert!(rx.try_recv().is_err());
    let out = logger.log(&record(Level::Warn, "disk nearly full", None));
    match out {
        LogOutcome::Queued(line) => assert!(line.ends_with("| WARN]:\x1b[0m disk nearly full")),
        _ => panic!("expected a queued envelope"),
    }
    let e = match rx.try_recv().unwrap() {
        Command::Deliver(e) => e,
        Command::Shutdown(_) => panic!("expected a delivery"),
    };
    assert_eq!(e.level, Level::Warn);
    assert_eq!(e.msg, "disk nearly full");
    assert!(rx.try_recv().is_err());
    let mut w = Worker::new(&cfg.url, &cfg.api_key);
    assert!(w.start(Ok(())).is_ok());
    match w.step(Some(Command::Deliver(e))) {
        Action::Post(req) => {
            assert_eq!(req.url, "http://logs:5341/ingest/clef");
            assert_eq!(req.api_key, "k1");
            assert!(req.body.contains("\"level\":\"WARN\""));
            assert!(req.body.contains("\"msg\":\"disk nearly full\""));
        }
        _ => panic!("expected a post"),
    }
}

#[test]
fn suppressed_record_is_not_queued() {
    let (tx, rx) = channel();
    let logger = SeqLogger::new(&config(Level::Trace), tx);
    let out = logger.log(&record(Level::Info, "x", Some("datalust_logger::worker")));
    assert!(matches!(out, LogOutcome::Suppressed));
    assert!(rx.try_recv().is_err());
}

#[test]
fn closed_mailbox_drops_without_failing() {
    let (tx, rx) = channel();
    drop(rx);
    let logger = SeqLogger::new(&config(Level::Info), tx);
    let out = logger.log(&record(Level::Error, "boom", None));
    assert!(matches!(out, LogOutcome::Dropped(_)));
}

#[test]
fn failed_delivery_does_not_stop_worker() {
    let mut w = Worker::new("u", "k");
    assert!(w.start(Ok(())).is_ok());
    assert!(matches!(w.step(Some(Command::Deliver(envelope(None)))), Action::Post(_)));
    assert!(check_status(500).is_err());
    assert!(w.is_running());
    match w.step(Some(Command::Deliver(envelope(Some(7))))) {
        Action::Post(req) => assert!(req.body.contains("\"line\":7")),
        _ => panic!("expected a post"),
    }
}

#[test]
fn worker_keeps_mailbox_order_and_stops_on_shutdown() {
    let mut w = Worker::new("u", "k");
    assert!(w.start(Ok(())).is_ok());
    let mut bodies = Vec::new();
    for n in 1..4u32 {
        match w.step(Some(Command::Deliver(envelope(Some(n))))) {
            Action::Post(req) => bodies.push(req.body),
            _ => panic!("expected a post"),
        }
    }
    assert!(bodies[0].contains("\"line\":1,"));
    assert!(bodies[1].contains("\"line\":2,"));
    assert!(bodies[2].contains("\"line\":3,"));
    let (reply, ack) = channel();
    match w.step(Some(Command::Shutdown(reply))) {
        Action::Acknowledge(r) => r.send(()).unwrap(),
        _ => panic!("expected an acknowledgement"),
    }
    assert!(ack.recv().is_ok());
    assert!(!w.is_running());
}

#[test]
fn closed_mailbox_stops_worker() {
    let mut w = Worker::new("u", "k");
    assert!(w.start(Ok(())).is_ok());
    assert!(matches!(w.step(None), Action::Exit));
    assert!(!w.is_running());
}

#[test]
fn startup_request_announces_worker() {
    let w = Worker::new("u", "k");
    let req: Request = w.startup_request("svc", "main");
    assert!(req.body.contains("\"msg\":\"INITIALIZING LOGGER\""));
    assert!(req.body.starts_with("{\"@l\":\"Info\","));
    assert!(req.body.contains("\"level\":\"Info\""));
    assert!(req.body.contains("\"@mt\":\"[{source}] {msg}\""));
    assert!(req.body.contains("\"source\":\"svc\""));
    assert_eq!(req.url, "u");
}

#[test]
fn side_channel_report_carries_trace() {
    let e = report_envelope(
        Level::Error,
        "saving report".to_string(),
        "saving report\ncaused by disk failure".to_string(),
        "svc",
        "main",
        "T".to_string(),
    );
    assert_eq!(e.msg, "saving report");
    assert_eq!(e.trace, Some("saving report\ncaused by disk failure".to_string()));
    assert_eq!(e.level, Level::Error);
    assert_eq!(e.target, None);
    let body = to_clef(&e);
    assert!(body.contains("\"@x\":\"saving report\\ncaused by disk failure\""));
}

#[test]
fn side_channel_error_report() {
    let (tx, _rx) = channel();
    let sender = StaticSender::new(tx, "svc");
    let err = anyhow::Error::msg("disk failure").context("saving report");
    let e = rich_anyhow_logging::error(&sender, &err, "main");
    assert_eq!(e.level, Level::Error);
    assert_eq!(e.level_name, "ERROR");
    assert_eq!(e.msg, "saving report");
    assert_eq!(e.source, "svc");
    assert_eq!(e.thread, "main");
    let trace = e.trace.unwrap();
    assert!(trace.starts_with("saving report"));
    assert!(trace.contains("disk failure"));
    assert!(trace.contains('\n'));
    assert_eq!(rich_anyhow_logging::warn(&sender, &err, "main").level_name, "WARN");
    assert_eq!(rich_anyhow_logging::info(&sender, &err, "main").level_name, "INFO");
    assert_eq!(rich_anyhow_logging::debug(&sender, &err, "main").level_name, "DEBUG");
    assert_eq!(rich_anyhow_logging::trace(&sender, &err, "main").level_name, "TRACE");
    let e = rich_anyhow_logging::with_level(&sender, Level::Warn, &err, "w");
    assert_eq!(e.level, Level::Warn);
    assert_eq!(e.thread, "w");
}

#[test]
fn accept_applies_level_then_filters() {
    let (tx, _rx) = channel();
    let logger = SeqLogger::new(&config(Level::Info), tx);
    assert!(logger.accept(&record(Level::Debug, "m", None), "T".to_string()).is_none());
    assert!(logger.accept(&record(Level::Error, "idle connection for 3s", None), "T".to_string()).is_none());
    let (e, line) = logger.accept(&record(Level::Error, "m", None), "T".to_string()).unwrap();
    assert_eq!(line, "\x1b[36m[T::app::disk | ERROR]:\x1b[0m m");
    assert_eq!(e.timestamp, "T");
    assert_eq!(e.source, "svc");
    assert_eq!(e.msg, "m");
    assert_eq!(ConfigError::MissingApiKey.message(), "API key not found");
}

#[test]
fn failed_startup_stops_worker() {
    let mut w = Worker::new("u", "k");
    assert!(w.start(Err(DeliveryError::Status(503))).is_err());
    assert!(!w.is_running());
    let mut w = Worker::new("u", "k");
    assert!(w.start(Ok(())).is_ok());
    assert!(w.is_running());
}

#[test]
fn burst_of_enqueues_returns_without_a_consumer() {
    let (tx, rx) = channel();
    let logger = SeqLogger::new(&config(Level::Info), tx);
    for n in 0..100u32 {
        let out = logger.log(&record(Level::Info, &format!("event {n}"), None));
        assert!(matches!(out, LogOutcome::Queued(_)));
    }
    let mut n = 0u32;
    while let Ok(Command::Deliver(e)) = rx.try_recv() {
        assert_eq!(e.msg, format!("event {n}"));
        n += 1;
    }
    assert_eq!(n, 100);
}
