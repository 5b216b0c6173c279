//! A log-shipping pipeline: log records are filtered and formatted into
//! structured envelopes, handed to a single worker through a mailbox, and
//! posted one by one to a remote ingestion endpoint.
pub mod level;
pub mod text;
pub mod codec;
pub mod clef;
pub mod config;
pub mod transport;
pub mod mailbox;
pub mod worker;
pub mod logger;
pub mod reporter;
pub mod rich_anyhow_logging;
