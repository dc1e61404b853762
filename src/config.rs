//! The configuration that the dispatcher reads.

use vstd::prelude::*;
use crate::errors::CustomError;
use crate::log::Level;

verus! {

/// Settings of the logging pipeline, as read from the configuration file.
/// An absent setting takes its default: file logging on, path `dzl.log`,
/// threshold `custom`.
#[derive(Clone, Debug)]
pub struct Config {
    write_to_log_file: Option<bool>,
    log_path: Option<String>,
    log_level: Option<String>,
}

/// What a [`Config`] holds, as plain values.
pub struct ConfigView {
    pub write_to_log_file: Option<bool>,
    pub log_path: Option<Seq<char>>,
    pub log_level: Option<Seq<char>>,
}

pub open spec fn opt_text(o: Option<String>) -> Option<Seq<char>> {
    match o {
        Some(s) => Some(s@),
        None => None,
    }
}

impl View for Config {
    type V = ConfigView;

    closed spec fn view(&self) -> ConfigView {
        ConfigView {
            write_to_log_file: self.write_to_log_file,
            log_path: opt_text(self.log_path),
            log_level: opt_text(self.log_level),
        }
    }
}

/// The level that a `log_level` setting names, if it names one.
pub open spec fn parse_level(s: Seq<char>) -> Option<Level> {
    if s == "trace"@ {
        Some(Level::Trace)
    } else if s == "debug"@ {
        Some(Level::Debug)
    } else if s == "info"@ {
        Some(Level::Info)
    } else if s == "warn"@ {
        Some(Level::Warn)
    } else if s == "error"@ {
        Some(Level::Error)
    } else if s == "custom"@ {
        Some(Level::Custom)
    } else {
        None
    }
}

/// The `log_level` setting is absent or names a level.
pub open spec fn level_known(c: ConfigView) -> bool {
    match c.log_level {
        None => true,
        Some(s) => parse_level(s) is Some,
    }
}

/// The configured threshold; `None` when the setting is absent.
pub open spec fn threshold_of(c: ConfigView) -> Option<Level> {
    match c.log_level {
        None => None,
        Some(s) => parse_level(s),
    }
}

pub open spec fn default_path() -> Seq<char> {
    "dzl.log"@
}

pub open spec fn default_level() -> Seq<char> {
    "custom"@
}

/// The file that messages are appended to, or `None` when file logging
/// is off.
pub open spec fn file_target_of(c: ConfigView) -> Option<Seq<char>> {
    if c.write_to_log_file.unwrap_or(true) {
        Some(c.log_path.unwrap_or(default_path()))
    } else {
        None
    }
}

fn same_text(s: &String, name: &str) -> (r: bool)
    ensures
        r == (s@ == name@),
{
    let n = String::from_str(name);
    *s == n
}

fn opt_clone(o: &Option<String>) -> (r: Option<String>)
    ensures
        r == *o,
{
    match o {
        Some(s) => Some(s.clone()),
        None => None,
    }
}

impl Config {
    /// The default configuration.
    pub fn new() -> (r: Self)
        ensures
            r@.write_to_log_file == Some(true),
            r@.log_path == Some(default_path()),
            r@.log_level == Some(default_level()),
    {
        Config {
            write_to_log_file: Some(true),
            log_path: Some(String::from_str("dzl.log")),
            log_level: Some(String::from_str("custom")),
        }
    }

    /// Builds a configuration from the values read from a file; an absent
    /// setting takes its default (file logging on, path `dzl.log`, level
    /// `custom`). Fails with a `ParseError` when `log_level` names no level.
    pub fn load(
        write_to_log_file: Option<bool>,
        log_path: Option<String>,
        log_level: Option<String>,
    ) -> (r: Result<Self, CustomError>)
        ensures
            r is Ok <==> level_known(ConfigView {
                write_to_log_file,
                log_path: opt_text(log_path),
                log_level: opt_text(log_level),
            }),
            r matches Ok(c) ==> c@ == (ConfigView {
                write_to_log_file: Some(write_to_log_file.unwrap_or(true)),
                log_path: Some(opt_text(log_path).unwrap_or(default_path())),
                log_level: Some(opt_text(log_level).unwrap_or(default_level())),
            }),
            r matches Err(e) ==> e matches CustomError::ParseError(m) && m@ == "Unknown log level"@,
    {
        let c = Config {
            write_to_log_file: Some(
                match write_to_log_file {
                    Some(b) => b,
                    None => true,
                },
            ),
            log_path: Some(
                match log_path {
                    Some(p) => p,
                    None => String::from_str("dzl.log"),
                },
            ),
            log_level: Some(
                match log_level {
                    Some(l) => l,
                    None => String::from_str("custom"),
                },
            ),
        };
        match c.log_level() {
            Ok(_) => Ok(c),
            Err(e) => Err(e),
        }
    }

    pub fn log_path(&self) -> (r: Option<String>)
        ensures
            opt_text(r) == self@.log_path,
    {
        opt_clone(&self.log_path)
    }

    /// The configured threshold. Fails with a `ParseError` when the setting
    /// names no level.
    pub fn log_level(&self) -> (r: Result<Option<Level>, CustomError>)
        ensures
            r is Ok <==> level_known(self@),
            r matches Ok(t) ==> t == threshold_of(self@),
            r matches Err(e) ==> e matches CustomError::ParseError(m) && m@ == "Unknown log level"@,
    {
        match &self.log_level {
            None => Ok(None),
            Some(s) => {
                if same_text(s, "trace") {
                    Ok(Some(Level::Trace))
                } else if same_text(s, "debug") {
                    Ok(Some(Level::Debug))
                } else if same_text(s, "info") {
                    Ok(Some(Level::Info))
                } else if same_text(s, "warn") {
                    Ok(Some(Level::Warn))
                } else if same_text(s, "error") {
                    Ok(Some(Level::Error))
                } else if same_text(s, "custom") {
                    Ok(Some(Level::Custom))
                } else {
                    Err(CustomError::ParseError(String::from_str("Unknown log level")))
                }
            },
        }
    }

    pub fn write_to_log_file(&self) -> (r: Option<bool>)
        ensures
            r == self@.write_to_log_file,
    {
        self.write_to_log_file
    }

    /// The path that messages are appended to, or `None` when file
    /// logging is off.
    pub fn file_target(&self) -> (r: Option<String>)
        ensures
            opt_text(r) == file_target_of(self@),
    {
        let on = match self.write_to_log_file {
            Some(b) => b,
            None => true,
        };
        if on {
            match &self.log_path {
                Some(p) => Some(p.clone()),
                None => Some(String::from_str("dzl.log")),
            }
        } else {
            None
        }
    }
}

impl Default for Config {
    fn default() -> (r: Self)
        ensures
            r@.write_to_log_file == Some(true),
            r@.log_path == Some(default_path()),
            r@.log_level == Some(default_level()),
    {
        Config::new()
    }
}

} // verus!
