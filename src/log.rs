//! Severities, the level filter, and the dispatcher that turns a message
//! into what the sinks are to do.

use vstd::prelude::*;
use crate::clock::{stamp_ok, timestamp};
use crate::config::{Config, ConfigView, file_target_of, level_known, threshold_of};
use crate::errors::CustomError;
use crate::file_sink::{AppendJob, Phase};
use crate::render::{line_spec, newlines, render, lemma_rendered_line_shape};

verus! {

/// The severity of a message, without its text.
///
/// The built-in levels are totally ordered by [`rank`]; `Custom` stands
/// outside that order.
#[derive(Clone, Copy, Debug, PartialEq, Eq, Structural)]
pub enum Level {
    Trace,
    Debug,
    Info,
    Warn,
    Error,
    Custom,
}

/// Position of a built-in level in the order
/// `Trace < Debug < Info < Warn < Error`; `None` for `Custom`.
pub open spec fn rank(l: Level) -> Option<nat> {
    match l {
        Level::Trace => Some(0),
        Level::Debug => Some(1),
        Level::Info => Some(2),
        Level::Warn => Some(3),
        Level::Error => Some(4),
        Level::Custom => None,
    }
}

/// Whether a message of level `entry` passes a configured `threshold`.
///
/// No threshold, a custom threshold and a custom entry always pass; two
/// built-in levels compare by rank.
pub open spec fn passes_spec(threshold: Option<Level>, entry: Level) -> bool {
    match threshold {
        None => true,
        Some(t) => match (rank(t), rank(entry)) {
            (Some(rt), Some(re)) => rt <= re,
            _ => true,
        },
    }
}

impl Level {
    /// The rank of a built-in level, `None` for `Custom`.
    pub fn rank(&self) -> (r: Option<u8>)
        ensures
            r matches Some(n) ==> rank(*self) == Some(n as nat),
            r is None ==> rank(*self) is None,
    {
        match self {
            Level::Trace => Some(0),
            Level::Debug => Some(1),
            Level::Info => Some(2),
            Level::Warn => Some(3),
            Level::Error => Some(4),
            Level::Custom => None,
        }
    }
}

/// Decides whether a message of level `entry` goes through when the
/// configured minimum is `threshold`.
pub fn passes(threshold: Option<Level>, entry: Level) -> (r: bool)
    ensures
        r == passes_spec(threshold, entry),
{
    match threshold {
        None => true,
        Some(t) => match (t.rank(), entry.rank()) {
            (Some(rt), Some(re)) => rt <= re,
            _ => true,
        },
    }
}

/// Every built-in entry level passes a built-in threshold exactly when the
/// threshold does not rank above it.
pub proof fn lemma_builtin_levels_ordered(threshold: Level, entry: Level)
    requires
        threshold != Level::Custom,
        entry != Level::Custom,
    ensures
        rank(threshold) is Some && rank(entry) is Some,
        passes_spec(Some(threshold), entry) == (rank(threshold).unwrap() <= rank(entry).unwrap()),
{
}

/// A custom entry passes whatever the threshold.
pub proof fn lemma_custom_always_passes(threshold: Option<Level>)
    ensures
        passes_spec(threshold, Level::Custom),
{
}

/// A message: its severity and its text. A custom message carries its
/// own label first.
#[derive(Clone, Debug)]
pub enum Log {
    Trace(String),
    Info(String),
    Debug(String),
    Warn(String),
    Error(String),
    /// (label, content)
    Custom(String, String),
}

/// Foreground color in which the console shows a message.
#[derive(Clone, Copy, Debug, PartialEq, Eq, Structural)]
pub enum Color {
    Green,
    Blue,
    Yellow,
    Red,
}

/// Console stream that receives a message.
#[derive(Clone, Copy, Debug, PartialEq, Eq, Structural)]
pub enum Stream {
    Stdout,
    Stderr,
}

pub open spec fn level_of(l: Log) -> Level {
    match l {
        Log::Trace(_) => Level::Trace,
        Log::Info(_) => Level::Info,
        Log::Debug(_) => Level::Debug,
        Log::Warn(_) => Level::Warn,
        Log::Error(_) => Level::Error,
        Log::Custom(_, _) => Level::Custom,
    }
}

/// The label that a rendered line shows for the message.
pub open spec fn label_of(l: Log) -> Seq<char> {
    match l {
        Log::Trace(_) => "TRACE"@,
        Log::Info(_) => "INFO"@,
        Log::Debug(_) => "DEBUG"@,
        Log::Warn(_) => "WARN"@,
        Log::Error(_) => "ERROR"@,
        Log::Custom(t, _) => t@,
    }
}

/// The text of the message.
pub open spec fn content_of(l: Log) -> Seq<char> {
    match l {
        Log::Trace(c) => c@,
        Log::Info(c) => c@,
        Log::Debug(c) => c@,
        Log::Warn(c) => c@,
        Log::Error(c) => c@,
        Log::Custom(_, c) => c@,
    }
}

pub open spec fn color_of(l: Level) -> Color {
    match l {
        Level::Trace | Level::Debug | Level::Info => Color::Green,
        Level::Custom => Color::Blue,
        Level::Warn => Color::Yellow,
        Level::Error => Color::Red,
    }
}

/// Errors go to standard error, everything else to standard output.
pub open spec fn stream_of(l: Level) -> Stream {
    match l {
        Level::Error => Stream::Stderr,
        _ => Stream::Stdout,
    }
}

impl Log {
    /// Whether this message passes the threshold that `config` sets. Fails
    /// with a `ParseError` when the configured level is unknown.
    pub fn check_level(&self, config: &Config) -> (r: Result<bool, CustomError>)
        ensures
            r is Ok <==> level_known(config@),
            r matches Ok(b) ==> b == passes_spec(threshold_of(config@), level_of(*self)),
            r matches Err(e) ==> e matches CustomError::ParseError(m) && m@ == "Unknown log level"@,
    {
        match config.log_level() {
            Ok(t) => Ok(passes(t, self.level())),
            Err(e) => Err(e),
        }
    }

    pub fn level(&self) -> (r: Level)
        ensures
            r == level_of(*self),
    {
        match self {
            Log::Trace(_) => Level::Trace,
            Log::Info(_) => Level::Info,
            Log::Debug(_) => Level::Debug,
            Log::Warn(_) => Level::Warn,
            Log::Error(_) => Level::Error,
            Log::Custom(_, _) => Level::Custom,
        }
    }

    /// The label shown before the message: the level's name in capitals,
    /// or the custom label as given.
    pub fn get_level(&self) -> (r: &str)
        ensures
            r@ == label_of(*self),
    {
        match self {
            Log::Custom(t, _) => t.as_str(),
            Log::Trace(_) => "TRACE",
            Log::Info(_) => "INFO",
            Log::Debug(_) => "DEBUG",
            Log::Warn(_) => "WARN",
            Log::Error(_) => "ERROR",
        }
    }

    pub fn content(&self) -> (r: &str)
        ensures
            r@ == content_of(*self),
    {
        match self {
            Log::Trace(c) => c.as_str(),
            Log::Info(c) => c.as_str(),
            Log::Debug(c) => c.as_str(),
            Log::Warn(c) => c.as_str(),
            Log::Error(c) => c.as_str(),
            Log::Custom(_, c) => c.as_str(),
        }
    }

    pub fn get_color(&self) -> (r: Color)
        ensures
            r == color_of(level_of(*self)),
    {
        match self {
            Log::Trace(_) | Log::Info(_) | Log::Debug(_) => Color::Green,
            Log::Warn(_) => Color::Yellow,
            Log::Error(_) => Color::Red,
            Log::Custom(_, _) => Color::Blue,
        }
    }

    pub fn stream(&self) -> (r: Stream)
        ensures
            r == stream_of(level_of(*self)),
    {
        match self {
            Log::Error(_) => Stream::Stderr,
            _ => Stream::Stdout,
        }
    }
}

/// What to do with a message that passed the filter: the line to show on
/// the console, on which stream and in which color, and the append to the
/// log file when file logging is on.
#[derive(Clone, Debug)]
pub struct Record {
    pub stream: Stream,
    pub color: Color,
    pub timestamp: String,
    /// The rendered line; the console shows it colored, the file gets it as is.
    pub text: String,
    pub file: Option<AppendJob>,
}

/// `r` is the record of `entry` under configuration `c`.
pub open spec fn record_for(c: ConfigView, entry: Log, r: Record) -> bool {
    &&& r.stream == stream_of(level_of(entry))
    &&& r.color == color_of(level_of(entry))
    &&& r.text@ == line_spec(r.timestamp@, entry)
    &&& match file_target_of(c) {
        None => r.file is None,
        Some(p) => r.file matches Some(j) && j.path@ == p && j.line@ == r.text@ && !j.strict
            && j.phase == Phase::Reading,
    }
}

/// The outcome of dispatching `entry` under `c`, whatever the timestamp:
/// an error for an unknown `log_level`, nothing for a filtered message, a
/// record otherwise.
pub open spec fn dispatched(c: ConfigView, entry: Log, r: Result<Option<Record>, CustomError>) -> bool {
    &&& (r is Err <==> !level_known(c))
    &&& (r matches Err(e) ==> e matches CustomError::ParseError(m) && m@ == "Unknown log level"@)
    &&& (r matches Ok(o) ==> (o is Some <==> passes_spec(threshold_of(c), level_of(entry))))
    &&& (r matches Ok(Some(rec)) ==> record_for(c, entry, rec))
}

/// A dispatch stamped with the current time.
pub open spec fn logged(c: ConfigView, entry: Log, r: Result<Option<Record>, CustomError>) -> bool {
    &&& dispatched(c, entry, r)
    &&& (r matches Ok(Some(rec)) ==> stamp_ok(rec.timestamp@))
}

/// Dispatches `entry` under `config`, stamped with `timestamp`.
pub fn decide(config: &Config, entry: Log, timestamp: &str) -> (r: Result<Option<Record>, CustomError>)
    ensures
        dispatched(config@, entry, r),
        r matches Ok(Some(rec)) ==> rec.timestamp@ == timestamp@,
{
    let threshold = match config.log_level() {
        Ok(t) => t,
        Err(e) => return Err(e),
    };
    if !passes(threshold, entry.level()) {
        return Ok(None);
    }
    let text = render(timestamp, &entry);
    let file = match config.file_target() {
        Some(path) => Some(AppendJob::new(path, text.clone(), false)),
        None => None,
    };
    Ok(Some(Record {
        stream: entry.stream(),
        color: entry.get_color(),
        timestamp: String::from_str(timestamp),
        text,
        file,
    }))
}

/// Dispatches `entry` under `config`, stamped with the current time.
pub fn log(config: &Config, entry: Log) -> (r: Result<Option<Record>, CustomError>)
    ensures
        logged(config@, entry, r),
{
    let now = timestamp();
    decide(config, entry, now.as_str())
}

/// A line that `log` hands out ends with its only line break, and reads
/// timestamp, label and message, whenever the label and the message are
/// single-line.
pub proof fn lemma_logged_line_shape(c: ConfigView, entry: Log, r: Result<Option<Record>, CustomError>)
    requires
        logged(c, entry, r),
        !label_of(entry).contains('\n'),
        !content_of(entry).contains('\n'),
    ensures
        r matches Ok(Some(rec)) ==> {
            &&& rec.text@ == line_spec(rec.timestamp@, entry)
            &&& rec.text@.last() == '\n'
            &&& newlines(rec.text@) == 1
        },
{
    if let Ok(Some(rec)) = r {
        lemma_rendered_line_shape(rec.timestamp@, entry);
    }
}

/// With file logging off, no dispatch, however many there are, asks for a
/// file operation.
pub proof fn lemma_no_file_when_disabled(
    c: ConfigView,
    entries: Seq<Log>,
    results: Seq<Result<Option<Record>, CustomError>>,
)
    requires
        c.write_to_log_file == Some(false),
        entries.len() == results.len(),
        forall|i: int| 0 <= i < entries.len() ==> dispatched(c, #[trigger] entries[i], results[i]),
    ensures
        forall|i: int| 0 <= i < results.len() ==>
            (#[trigger] results[i] matches Ok(Some(rec)) ==> rec.file is None),
{
    assert forall|i: int| 0 <= i < results.len() implies
        (#[trigger] results[i] matches Ok(Some(rec)) ==> rec.file is None) by {
        assert(dispatched(c, entries[i], results[i]));
    }
}

} // verus!
