//! The logger: a severity threshold, fixed once, and the rendering of a
//! record together with the persistent fields as one line of JSON.

use crate::json::{
    encode_object, json_string, json_text, new_object, object_fields, object_insert, string_value,
};
use crate::level::{
    config_text, configured_filter, level_filter_from_config, level_name, permits, Level,
    LevelFilter,
};
use crate::store::{merge_into, FieldStore};
use crate::timestamp::{is_utc_timestamp, utc_timestamp};
use serde_json::Value;
use vstd::prelude::*;

verus! {

/// Why a logger could not be initialized.
#[derive(Clone, Copy, Debug, PartialEq, Eq, Structural)]
pub enum InitError {
    /// The logger had been initialized before.
    AlreadyInitialized,
}

/// A logger. It starts uninitialized, lets nothing through in that state, and
/// is initialized once; from then on its threshold does not change.
pub struct StructuredPersistentLogger {
    active: bool,
    max_level: LevelFilter,
}

/// The fields of the document for a record: the persistent fields, and over
/// them the record's level, message and timestamp under their reserved keys.
pub open spec fn document_fields(
    fields: Map<Seq<char>, Value>,
    level: Level,
    message: Seq<char>,
    timestamp: Seq<char>,
) -> Map<Seq<char>, Value> {
    fields.insert("level"@, json_string(level.name())).insert(
        "message"@,
        json_string(message),
    ).insert("timestamp"@, json_string(timestamp))
}

/// The line for a record: its document as JSON text, or `None` where the
/// document cannot be encoded.
pub open spec fn rendered_line(
    fields: Map<Seq<char>, Value>,
    level: Level,
    message: Seq<char>,
    timestamp: Seq<char>,
) -> Option<Seq<char>> {
    json_text(document_fields(fields, level, message, timestamp))
}

/// Builds the document for a record: every persistent field, then the level's
/// name, the message and the timestamp under `level`, `message` and
/// `timestamp`, each in place of a persistent field with the same key.
pub fn build_document(store: &FieldStore, level: Level, message: &str, timestamp: &str) -> (document:
    serde_json::Map<String, Value>)
    ensures
        object_fields(document) == document_fields(store@, level, message@, timestamp@),
{
    let mut document = new_object();
    merge_into(store, &mut document);
    assert(object_fields(document) =~= store@);
    object_insert(&mut document, "level".to_owned(), string_value(level_name(level)));
    object_insert(&mut document, "message".to_owned(), string_value(message.to_owned()));
    object_insert(&mut document, "timestamp".to_owned(), string_value(timestamp.to_owned()));
    document
}

/// Renders a record with the given timestamp as one line of JSON, without the
/// line's end. Gives `None`, and nothing else, where the document cannot be
/// encoded.
pub fn render_record(store: &FieldStore, level: Level, message: &str, timestamp: &str) -> (line:
    Option<String>)
    ensures
        match line {
            Some(text) => rendered_line(store@, level, message@, timestamp@) == Some(text@),
            None => rendered_line(store@, level, message@, timestamp@).is_none(),
        },
{
    let document = build_document(store, level, message, timestamp);
    match encode_object(document) {
        Ok(text) => Some(text),
        Err(_) => None,
    }
}

impl StructuredPersistentLogger {
    /// Whether the logger has been initialized.
    pub closed spec fn active(&self) -> bool {
        self.active
    }

    /// The logger's threshold: `Off` until it is initialized.
    pub closed spec fn threshold(&self) -> LevelFilter {
        if self.active {
            self.max_level
        } else {
            LevelFilter::Off
        }
    }

    /// An uninitialized logger.
    pub fn new() -> (logger: Self)
        ensures
            !logger.active(),
            logger.threshold() == LevelFilter::Off,
    {
        StructuredPersistentLogger { active: false, max_level: LevelFilter::Off }
    }

    /// Initializes the logger with the threshold that the configured value
    /// stands for. A logger is initialized once: a second call fails and
    /// leaves the logger as it was.
    pub fn init(&mut self, config: Option<&str>) -> (outcome: Result<(), InitError>)
        ensures
            old(self).active() ==> outcome == Err::<(), InitError>(InitError::AlreadyInitialized)
                && *final(self) == *old(self),
            !old(self).active() ==> outcome.is_ok() && final(self).active(),
            !old(self).active() ==> final(self).threshold() == configured_filter(
                config_text(config),
            ),
    {
        if self.active {
            return Err(InitError::AlreadyInitialized);
        }
        self.max_level = level_filter_from_config(config);
        self.active = true;
        Ok(())
    }

    /// Whether the logger has been initialized.
    pub fn is_active(&self) -> (active: bool)
        ensures
            active == self.active(),
    {
        self.active
    }

    /// The logger's threshold.
    pub fn max_level(&self) -> (threshold: LevelFilter)
        ensures
            threshold == self.threshold(),
    {
        if self.active {
            self.max_level
        } else {
            LevelFilter::Off
        }
    }

    /// Whether a record of this level is let through: the level is at least
    /// as severe as the threshold.
    pub fn enabled(&self, level: Level) -> (enabled: bool)
        ensures
            enabled == permits(self.threshold(), level),
    {
        self.max_level().allows(level)
    }

    /// Renders a record, stamped with the time of the call in UTC, as one
    /// line of JSON: what `render_record` gives for that timestamp. The level
    /// is not held against the threshold: that is the caller's part. Where
    /// the document cannot be encoded the record is dropped and `None` is
    /// returned.
    pub fn log(&self, store: &FieldStore, level: Level, message: &str) -> (line: Option<String>)
        ensures
            exists|timestamp: Seq<char>| #[trigger]
                is_utc_timestamp(timestamp) && match line {
                    Some(text) => rendered_line(store@, level, message@, timestamp) == Some(
                        text@,
                    ),
                    None => rendered_line(store@, level, message@, timestamp).is_none(),
                },
    {
        let timestamp = utc_timestamp();
        render_record(store, level, message, timestamp.as_str())
    }

    /// Does nothing: the logger holds no record back.
    pub fn flush(&self) {
    }
}

/// The record's level, message and timestamp stand in the document under
/// their reserved keys, whatever the persistent fields hold under those keys.
pub proof fn lemma_reserved_keys_win(
    fields: Map<Seq<char>, Value>,
    level: Level,
    message: Seq<char>,
    timestamp: Seq<char>,
)
    ensures
        document_fields(fields, level, message, timestamp)["level"@] == json_string(level.name()),
        document_fields(fields, level, message, timestamp)["message"@] == json_string(message),
        document_fields(fields, level, message, timestamp)["timestamp"@] == json_string(timestamp),
{
    reveal_strlit("level");
    reveal_strlit("message");
    reveal_strlit("timestamp");
    assert("level"@.len() == 5);
    assert("message"@.len() == 7);
    assert("timestamp"@.len() == 9);
}

/// Every persistent field whose key is not reserved stands in the document
/// unchanged, and the document holds nothing else.
pub proof fn lemma_document_keeps_fields(
    fields: Map<Seq<char>, Value>,
    level: Level,
    message: Seq<char>,
    timestamp: Seq<char>,
    key: Seq<char>,
)
    requires
        key != "level"@,
        key != "message"@,
        key != "timestamp"@,
    ensures
        document_fields(fields, level, message, timestamp).contains_key(key)
            == fields.contains_key(key),
        fields.contains_key(key) ==> document_fields(fields, level, message, timestamp)[key]
            == fields[key],
{
}

} // verus!
