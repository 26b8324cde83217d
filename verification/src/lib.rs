//! Structured logging with persistent fields.
//!
//! A [`FieldStore`] holds key/value fields that are attached to every log
//! record. A [`StructuredPersistentLogger`] filters records by a severity
//! threshold and renders each accepted record, merged with the store's fields,
//! as one line of JSON.

pub mod json;
pub mod level;
pub mod logger;
pub mod store;
pub mod timestamp;

pub use store::{
    add_persistent_log, add_persistent_logs, clear_persistent_logs, get_all_persistent_logs,
    get_persistent_log, FieldStore,
};
pub use level::{level_filter_from_config, level_filter_from_token, Level, LevelFilter};
pub use logger::{build_document, render_record, InitError, StructuredPersistentLogger};
