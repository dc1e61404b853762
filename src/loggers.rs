//! One entry point per severity, on a configuration or as free functions.

use vstd::prelude::*;
use crate::clock::{stamp_ok, timestamp};
use crate::config::{Config, ConfigView, file_target_of};
use crate::errors::CustomError;
use crate::file_sink::{AppendJob, Phase, appended, lemma_init_twice};
use crate::log::{Log, Record, log, logged};
use crate::render::{
    line_spec, newlines, render, lemma_builtin_label_single_line, lemma_newlines_concat,
    lemma_rendered_line_shape,
};

verus! {

/// `r` is the append that records initialization with `content` under `c`.
pub open spec fn init_job_for(c: ConfigView, content: String, r: Option<AppendJob>) -> bool {
    &&& (file_target_of(c) is None ==> r is None)
    &&& (file_target_of(c) matches Some(p) ==> r matches Some(j) && j.path@ == p && j.strict
        && j.phase == Phase::Reading
        && exists|ts: Seq<char>| stamp_ok(ts) && j.line@ == line_spec(ts, Log::Info(content)))
}

impl Config {
    /// Dispatches a message with a label of the caller's choosing. Such
    /// messages are never filtered out.
    pub fn custom(&self, log_type: String, content: String) -> (r: Result<Option<Record>, CustomError>)
        ensures
            logged(self@, Log::Custom(log_type, content), r),
    {
        log(self, Log::Custom(log_type, content))
    }

    pub fn trace(&self, content: String) -> (r: Result<Option<Record>, CustomError>)
        ensures
            logged(self@, Log::Trace(content), r),
    {
        log(self, Log::Trace(content))
    }

    pub fn debug(&self, content: String) -> (r: Result<Option<Record>, CustomError>)
        ensures
            logged(self@, Log::Debug(content), r),
    {
        log(self, Log::Debug(content))
    }

    pub fn info(&self, content: String) -> (r: Result<Option<Record>, CustomError>)
        ensures
            logged(self@, Log::Info(content), r),
    {
        log(self, Log::Info(content))
    }

    pub fn warn(&self, content: String) -> (r: Result<Option<Record>, CustomError>)
        ensures
            logged(self@, Log::Warn(content), r),
    {
        log(self, Log::Warn(content))
    }

    pub fn error(&self, content: String) -> (r: Result<Option<Record>, CustomError>)
        ensures
            logged(self@, Log::Error(content), r),
    {
        log(self, Log::Error(content))
    }

    /// The append that records initialization: with file logging on, a
    /// strict job that appends an `INFO` line with `content` to the log file,
    /// whatever the threshold. A strict job ends in `Abort` on any failure
    /// but an absent file, which it creates.
    pub fn init(&self, content: String) -> (r: Option<AppendJob>)
        ensures
            init_job_for(self@, content, r),
    {
        match self.file_target() {
            None => None,
            Some(path) => {
                let now = timestamp();
                let entry = Log::Info(content);
                let line = render(now.as_str(), &entry);
                Some(AppendJob::new(path, line, true))
            },
        }
    }
}

pub fn custom(config: &Config, log_type: String, content: String) -> (r: Result<Option<Record>, CustomError>)
    ensures
        logged(config@, Log::Custom(log_type, content), r),
{
    config.custom(log_type, content)
}

pub fn trace(config: &Config, content: String) -> (r: Result<Option<Record>, CustomError>)
    ensures
        logged(config@, Log::Trace(content), r),
{
    config.trace(content)
}

pub fn debug(config: &Config, content: String) -> (r: Result<Option<Record>, CustomError>)
    ensures
        logged(config@, Log::Debug(content), r),
{
    config.debug(content)
}

pub fn info(config: &Config, content: String) -> (r: Result<Option<Record>, CustomError>)
    ensures
        logged(config@, Log::Info(content), r),
{
    config.info(content)
}

pub fn warn(config: &Config, content: String) -> (r: Result<Option<Record>, CustomError>)
    ensures
        logged(config@, Log::Warn(content), r),
{
    config.warn(content)
}

pub fn error(config: &Config, content: String) -> (r: Result<Option<Record>, CustomError>)
    ensures
        logged(config@, Log::Error(content), r),
{
    config.error(content)
}

/// Initializing a fresh path twice, with single-line messages, leaves a file
/// that holds the first init entry followed by the second: two lines.
pub proof fn lemma_init_twice_two_lines(
    c: ConfigView,
    first: String,
    second: String,
    j1: AppendJob,
    j2: AppendJob,
)
    requires
        init_job_for(c, first, Some(j1)),
        init_job_for(c, second, Some(j2)),
        !first@.contains('\n'),
        !second@.contains('\n'),
    ensures
        appended(None, j1.line@, true) == Some(j1.line@),
        appended(Some(j1.line@), j2.line@, true) == Some(j1.line@ + j2.line@),
        newlines(j1.line@ + j2.line@) == 2,
{
    lemma_init_line_single(c, first, j1);
    lemma_init_line_single(c, second, j2);
    lemma_init_twice(j1.line@, j2.line@);
    lemma_newlines_concat(j1.line@, j2.line@);
}

proof fn lemma_init_line_single(c: ConfigView, content: String, j: AppendJob)
    requires
        init_job_for(c, content, Some(j)),
        !content@.contains('\n'),
    ensures
        newlines(j.line@) == 1,
{
    let ts = choose|ts: Seq<char>| stamp_ok(ts) && j.line@ == line_spec(ts, Log::Info(content));
    lemma_builtin_label_single_line(Log::Info(content));
    lemma_rendered_line_shape(ts, Log::Info(content));
}

} // verus!
