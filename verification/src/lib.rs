//! Decoding of columnar log batches into structured log records, and the
//! decisions of an exporter node that delivers encoded batches to a remote
//! ingestion endpoint under a bounded retry policy.
//!
//! The crate holds no I/O. A host program feeds it tables, encoder results and
//! upload results, and carries out the actions it answers with.

pub mod attributes;
pub mod column;
pub mod config;
pub mod delivery;
pub mod exporter;
pub mod record;
pub mod retry;

pub use attributes::{build_parent_index, Attribute, AttributeValue, ParentIndex};
pub use column::{find_column, value_at, Column, Dictionary, NamedColumn, Table};
pub use config::{
    default_buffer_size, default_config_version, default_max_concurrent, AuthConfig, AuthMethod,
    ClientSettings, Config,
};
pub use exporter::{
    Action, EncodedBatch, Event, GenevaExporter, Metrics, NackReason, Payload, Phase, SignalKind,
};
pub use record::{materialize, Body, DecodeError, LogRecord};
pub use retry::{RetryDecision, RetryPolicy, UploadAttempt};
