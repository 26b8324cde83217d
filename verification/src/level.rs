//! Severity levels and the threshold that filters records by them.

use vstd::prelude::*;

verus! {

/// The severity of a log record, from the most severe to the least.
#[derive(Clone, Copy, Debug, PartialEq, Eq, Structural)]
pub enum Level {
    Error,
    Warn,
    Info,
    Debug,
    Trace,
}

/// A severity threshold: the least severe level that is still let through, or
/// `Off` to let nothing through.
#[derive(Clone, Copy, Debug, PartialEq, Eq, Structural)]
pub enum LevelFilter {
    Off,
    Error,
    Warn,
    Info,
    Debug,
    Trace,
}

/// The lower-case form of a text, as `str::to_lowercase` gives it.
pub uninterp spec fn lowercase_of(text: Seq<char>) -> Seq<char>;

/// The threshold that a lower-case token stands for. A token that names no
/// level stands for `Info`.
pub open spec fn filter_of_token(token: Seq<char>) -> LevelFilter {
    if token == "error"@ {
        LevelFilter::Error
    } else if token == "warn"@ {
        LevelFilter::Warn
    } else if token == "info"@ {
        LevelFilter::Info
    } else if token == "debug"@ {
        LevelFilter::Debug
    } else if token == "trace"@ {
        LevelFilter::Trace
    } else {
        LevelFilter::Info
    }
}

/// The threshold that a configured value stands for, whatever its case.
/// Without a value the threshold is `Off`.
pub open spec fn configured_filter(config: Option<Seq<char>>) -> LevelFilter {
    match config {
        Some(text) => filter_of_token(lowercase_of(text)),
        None => LevelFilter::Off,
    }
}

/// The text of a configured value, if there is a value.
pub open spec fn config_text(config: Option<&str>) -> Option<Seq<char>> {
    match config {
        Some(text) => Some(text@),
        None => None,
    }
}

/// Whether a threshold lets a level through: the level is at least as severe
/// as the threshold.
pub open spec fn permits(threshold: LevelFilter, level: Level) -> bool {
    level.rank() <= threshold.rank()
}

impl Level {
    /// The level's place in the order of severity: 1 for `Error`, up to 5 for
    /// `Trace`.
    pub open spec fn rank(self) -> int {
        match self {
            Level::Error => 1,
            Level::Warn => 2,
            Level::Info => 3,
            Level::Debug => 4,
            Level::Trace => 5,
        }
    }

    /// The level's name in a record, in upper case.
    pub open spec fn name(self) -> Seq<char> {
        match self {
            Level::Error => "ERROR"@,
            Level::Warn => "WARN"@,
            Level::Info => "INFO"@,
            Level::Debug => "DEBUG"@,
            Level::Trace => "TRACE"@,
        }
    }

    /// The rank as a machine integer.
    fn rank_value(self) -> (rank: u8)
        ensures
            rank == self.rank(),
    {
        match self {
            Level::Error => 1,
            Level::Warn => 2,
            Level::Info => 3,
            Level::Debug => 4,
            Level::Trace => 5,
        }
    }
}

impl LevelFilter {
    /// The threshold's place in the order: 0 for `Off`, then as the level of
    /// the same name.
    pub open spec fn rank(self) -> int {
        match self {
            LevelFilter::Off => 0,
            LevelFilter::Error => 1,
            LevelFilter::Warn => 2,
            LevelFilter::Info => 3,
            LevelFilter::Debug => 4,
            LevelFilter::Trace => 5,
        }
    }

    /// The rank as a machine integer.
    fn rank_value(self) -> (rank: u8)
        ensures
            rank == self.rank(),
    {
        match self {
            LevelFilter::Off => 0,
            LevelFilter::Error => 1,
            LevelFilter::Warn => 2,
            LevelFilter::Info => 3,
            LevelFilter::Debug => 4,
            LevelFilter::Trace => 5,
        }
    }

    /// Whether this threshold lets `level` through.
    pub fn allows(self, level: Level) -> (allowed: bool)
        ensures
            allowed == permits(self, level),
    {
        level.rank_value() <= self.rank_value()
    }
}

/// `Level`'s `to_string` in the `log` crate: the level's name in upper
/// case.
#[verifier::external_body]
pub(crate) fn level_name(level: Level) -> (name: String)
    ensures
        name@ == level.name(),
{
    let outside = match level {
        Level::Error => log::Level::Error,
        Level::Warn => log::Level::Warn,
        Level::Info => log::Level::Info,
        Level::Debug => log::Level::Debug,
        Level::Trace => log::Level::Trace,
    };
    outside.to_string()
}

/// `str::to_lowercase`: the lower-case form of the text.
#[verifier::external_body]
pub(crate) fn lowercase(text: &str) -> (lowered: String)
    ensures
        lowered@ == lowercase_of(text@),
{
    text.to_lowercase()
}

/// Whether the token is the word.
fn is_word(token: &String, word: &str) -> (same: bool)
    ensures
        same == (token@ == word@),
{
    *token == word.to_owned()
}

/// The threshold that a lower-case token stands for: the level it names, or
/// `Info` where it names none.
pub fn level_filter_from_token(token: &str) -> (threshold: LevelFilter)
    ensures
        threshold == filter_of_token(token@),
{
    let token = token.to_owned();
    if is_word(&token, "error") {
        LevelFilter::Error
    } else if is_word(&token, "warn") {
        LevelFilter::Warn
    } else if is_word(&token, "info") {
        LevelFilter::Info
    } else if is_word(&token, "debug") {
        LevelFilter::Debug
    } else if is_word(&token, "trace") {
        LevelFilter::Trace
    } else {
        LevelFilter::Info
    }
}

/// The threshold for a configured value: the level that the value names in
/// any case, `Info` where it names none, and `Off` where there is no value.
pub fn level_filter_from_config(config: Option<&str>) -> (threshold: LevelFilter)
    ensures
        threshold == configured_filter(config_text(config)),
{
    match config {
        Some(text) => {
            let lowered = lowercase(text);
            level_filter_from_token(lowered.as_str())
        },
        None => LevelFilter::Off,
    }
}

/// Without a configured value no level is let through.
pub proof fn lemma_absent_config_permits_nothing(level: Level)
    ensures
        !permits(configured_filter(None), level),
{
}

/// A configured value whose lower-case form names no level gives the
/// threshold `Info`: it lets `Error`, `Warn` and `Info` through and nothing
/// else.
pub proof fn lemma_unrecognized_config_is_info(text: Seq<char>, level: Level)
    requires
        lowercase_of(text) != "error"@,
        lowercase_of(text) != "warn"@,
        lowercase_of(text) != "info"@,
        lowercase_of(text) != "debug"@,
        lowercase_of(text) != "trace"@,
    ensures
        configured_filter(Some(text)) == LevelFilter::Info,
        permits(configured_filter(Some(text)), level) == (level == Level::Error || level
            == Level::Warn || level == Level::Info),
{
}

/// A threshold that lets a level through lets every more severe level
/// through as well.
pub proof fn lemma_permits_more_severe(threshold: LevelFilter, level: Level, other: Level)
    requires
        permits(threshold, level),
        other.rank() <= level.rank(),
    ensures
        permits(threshold, other),
{
}

} // verus!
