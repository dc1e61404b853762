use dzl::config::Config;
use dzl::errors::{CustomError, IoFault};
use dzl::file_sink::{AppendJob, FileAction, FileEvent, Phase};
use dzl::log::{decide, log, Log, Record, Stream};
use dzl::loggers;

/// Drives a job against a file held in memory (`None`: no file), on which
/// every operation succeeds. Returns the final action.
fn drive(job: &mut AppendJob, file: &mut Option<String>) -> FileAction {
    let mut action = FileAction::Read;
    for _ in 0..10 {
        let event = match &action {
            FileAction::Read => match file {
                Some(c) => FileEvent::Loaded(c.clone()),
                None => FileEvent::Missing,
            },
            FileAction::Create => {
                *file = Some(String::new());
                FileEvent::Succeeded
            }
            FileAction::Write(w) => {
                *file = Some(w.clone());
                FileEvent::Succeeded
            }
            _ => return action,
        };
        action = job.step(event);
    }
    panic!("the job did not end");
}

/// Hands the record's file job, if any, to the in-memory file.
fn persist(r: &Result<Option<Record>, CustomError>, file: &mut Option<String>) {
    if let Ok(Some(rec)) = r {
        if let Some(job) = &rec.file {
            let mut job = job.clone();
            assert!(matches!(drive(&mut job, file), FileAction::Finish));
        }
    }
}

fn warn_config() -> Config {
    Config::load(Some(true), Some("t.log".to_string()), Some("warn".to_string())).unwrap()
}

#[test]
fn end_to_end_warn_threshold() {
    let config = warn_config();
    let mut file: Option<String> = None;
    let a = loggers::info(&config, "a".to_string());
    assert!(matches!(a, Ok(None)));
    persist(&a, &mut file);
    assert!(file.is_none());
    let b = loggers::warn(&config, "b".to_string());
    persist(&b, &mut file);
    let c = loggers::error(&config, "c".to_string());
    persist(&c, &mut file);
    let text = file.expect("the log file exists");
    let lines: Vec<&str> = text.lines().collect();
    assert_eq!(lines.len(), 2);
    assert!(lines[0].ends_with(" WARN b"));
    assert!(lines[1].ends_with(" ERROR c"));
    let rb = b.unwrap().unwrap();
    assert_eq!(rb.file.as_ref().unwrap().path, "t.log");
    assert_eq!(rb.stream, Stream::Stdout);
    let rc = c.unwrap().unwrap();
    assert_eq!(rc.stream, Stream::Stderr);
    assert_eq!(text, format!("{}{}", rb.text, rc.text));
}

#[test]
fn init_twice_keeps_first_entry() {
    let config = Config::load(Some(true), Some("fresh.log".to_string()), None).unwrap();
    let mut file: Option<String> = None;
    let mut first = config.init("initialized".to_string()).unwrap();
    assert!(first.strict);
    assert_eq!(first.path, "fresh.log");
    assert!(matches!(drive(&mut first, &mut file), FileAction::Finish));
    assert_eq!(file.as_deref(), Some(first.line.as_str()));
    assert!(first.line.ends_with(" INFO initialized\n"));
    let mut second = config.init("initialized".to_string()).unwrap();
    assert!(matches!(drive(&mut second, &mut file), FileAction::Finish));
    let text = file.unwrap();
    assert_eq!(text, format!("{}{}", first.line, second.line));
    assert_eq!(text.lines().count(), 2);
}

#[test]
fn init_ignores_threshold_and_respects_disable() {
    let strict = Config::load(Some(true), None, Some("error".to_string())).unwrap();
    let job = strict.init("x".to_string()).unwrap();
    assert_eq!(job.path, "dzl.log");
    let off = Config::load(Some(false), None, None).unwrap();
    assert!(off.init("x".to_string()).is_none());
}

#[test]
fn disabled_file_logging_never_touches_file() {
    let config = Config::load(Some(false), Some("t.log".to_string()), Some("trace".to_string())).unwrap();
    let mut file: Option<String> = None;
    for i in 0..20 {
        let r = loggers::custom(&config, "Kind".to_string(), format!("m{}", i));
        let rec = r.as_ref().unwrap().as_ref().unwrap();
        assert!(rec.file.is_none());
        persist(&r, &mut file);
    }
    assert!(file.is_none());
}

#[test]
fn n_messages_give_n_lines_in_order() {
    let config = Config::load(Some(true), Some("n.log".to_string()), Some("debug".to_string())).unwrap();
    let mut file: Option<String> = Some("earlier line\n".to_string());
    let before = file.as_ref().unwrap().lines().count();
    let n = 7;
    let mut texts = Vec::new();
    for i in 0..n {
        let r = config.debug(format!("message {}", i));
        texts.push(r.as_ref().unwrap().as_ref().unwrap().text.clone());
        persist(&r, &mut file);
    }
    let text = file.unwrap();
    assert_eq!(text.lines().count(), before + n);
    assert_eq!(text, format!("earlier line\n{}", texts.concat()));
    for (i, line) in text.lines().skip(before).enumerate() {
        assert!(line.ends_with(&format!(" DEBUG message {}", i)));
    }
}

#[test]
fn filtered_message_has_no_output() {
    let config = Config::load(None, None, Some("error".to_string())).unwrap();
    assert!(matches!(config.trace("t".to_string()), Ok(None)));
    assert!(matches!(loggers::debug(&config, "d".to_string()), Ok(None)));
    assert!(matches!(config.info("i".to_string()), Ok(None)));
    assert!(matches!(config.warn("w".to_string()), Ok(None)));
    assert!(matches!(loggers::trace(&config, "t".to_string()), Ok(None)));
    assert!(config.error("e".to_string()).unwrap().is_some());
    assert!(config.custom("Mine".to_string(), "c".to_string()).unwrap().is_some());
}

#[test]
fn unknown_level_fails_every_dispatch() {
    let bad = Config::new();
    assert!(bad.log_level().is_ok());
    let c = Config::load(None, None, Some("loud".to_string()));
    assert!(matches!(c, Err(CustomError::ParseError(_))));
    assert!(Log::Info("x".to_string()).check_level(&bad).unwrap());
}

#[test]
fn decide_with_given_timestamp() {
    let config = Config::new();
    let r = decide(&config, Log::Info("hello".to_string()), "2022-12-03 11:30:55 +08:00:00").unwrap().unwrap();
    assert_eq!(r.text, "2022-12-03 11:30:55 +08:00:00 INFO hello\n");
    assert_eq!(r.timestamp, "2022-12-03 11:30:55 +08:00:00");
    let job = r.file.unwrap();
    assert_eq!(job.path, "dzl.log");
    assert_eq!(job.line, r.text);
    assert!(!job.strict);
    assert_eq!(job.phase, Phase::Reading);
}

#[test]
fn log_stamps_with_current_time() {
    let r = log(&Config::new(), Log::Warn("now".to_string())).unwrap().unwrap();
    assert!(!r.timestamp.is_empty());
    assert_eq!(r.text, format!("{} WARN now\n", r.timestamp));
}

#[test]
fn check_level_against_threshold() {
    let config = warn_config();
    assert!(!Log::Info("x".to_string()).check_level(&config).unwrap());
    assert!(Log::Warn("x".to_string()).check_level(&config).unwrap());
    assert!(Log::Custom("K".to_string(), "x".to_string()).check_level(&config).unwrap());
}

#[test]
fn lenient_job_reports_read_failure() {
    let mut job = AppendJob::new("p".to_string(), "line\n".to_string(), false);
    let a = job.step(FileEvent::Failed(IoFault::PermissionDenied));
    assert!(matches!(a, FileAction::Report(IoFault::PermissionDenied)));
    assert!(job.is_finished());
    assert!(matches!(job.step(FileEvent::Succeeded), FileAction::Finish));
}

#[test]
fn outcome_that_answers_nothing_is_a_failure() {
    let mut job = AppendJob::new("p".to_string(), "line\n".to_string(), false);
    assert!(matches!(job.step(FileEvent::Succeeded), FileAction::Report(IoFault::Unexpected)));
    assert!(job.is_finished());

    let mut job = AppendJob::new("p".to_string(), "line\n".to_string(), true);
    assert!(matches!(job.step(FileEvent::Missing), FileAction::Create));
    assert!(matches!(
        job.step(FileEvent::Loaded(String::new())),
        FileAction::Abort(IoFault::Unexpected)
    ));

    let mut job = AppendJob::new("p".to_string(), "line\n".to_string(), false);
    assert!(matches!(job.step(FileEvent::Loaded(String::new())), FileAction::Write(_)));
    assert!(matches!(
        job.step(FileEvent::Loaded(String::new())),
        FileAction::Report(IoFault::Unexpected)
    ));

    let mut job = AppendJob::new("p".to_string(), "line\n".to_string(), false);
    job.step(FileEvent::Missing);
    job.step(FileEvent::Succeeded);
    assert!(matches!(job.step(FileEvent::Succeeded), FileAction::Report(IoFault::Unexpected)));
}

#[test]
fn strict_job_aborts_on_failure() {
    let mut job = AppendJob::new("p".to_string(), "line\n".to_string(), true);
    assert!(matches!(job.step(FileEvent::Missing), FileAction::Create));
    let a = job.step(FileEvent::Failed(IoFault::Other("ReadOnlyFilesystem".to_string())));
    assert!(matches!(a, FileAction::Abort(IoFault::Other(_))));
}

#[test]
fn missing_again_after_create_is_not_retried() {
    let mut job = AppendJob::new("p".to_string(), "line\n".to_string(), false);
    assert!(matches!(job.step(FileEvent::Missing), FileAction::Create));
    assert!(matches!(job.step(FileEvent::Succeeded), FileAction::Read));
    assert_eq!(job.phase, Phase::Rereading);
    assert!(matches!(job.step(FileEvent::Missing), FileAction::Report(IoFault::NotFound)));
}

#[test]
fn write_failure_is_reported() {
    let mut job = AppendJob::new("p".to_string(), "new\n".to_string(), false);
    match job.step(FileEvent::Loaded("old\n".to_string())) {
        FileAction::Write(w) => assert_eq!(w, "old\nnew\n"),
        other => panic!("expected a write, got {:?}", other),
    }
    let a = job.step(FileEvent::Failed(IoFault::PermissionDenied));
    assert!(matches!(a, FileAction::Report(IoFault::PermissionDenied)));
}
