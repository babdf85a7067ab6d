use vstd::prelude::*;

use crate::chars::{chars_are, push_str_chars, str_chars, string_from_chars};
use crate::text::{decimal, lower_chars, lower_seq, push_decimal, trim_chars, trimmed};

verus! {

/// How much the desktop shell logs.
#[derive(Debug, Clone, Copy, PartialEq, Eq, Structural)]
pub enum LogLevel {
    Off,
    Error,
    Warn,
    Info,
    Debug,
    Trace,
}

/// The log level a `SNAP_PIN_LOG` value asks for, read without surrounding white space
/// and in any case; information level when it is missing or names no level.
pub open spec fn log_level_of(value: Option<Seq<char>>) -> LogLevel {
    match value {
        Some(v) => {
            let l = lower_seq(trimmed(v));
            if l == "off"@ {
                LogLevel::Off
            } else if l == "error"@ {
                LogLevel::Error
            } else if l == "warn"@ {
                LogLevel::Warn
            } else if l == "debug"@ {
                LogLevel::Debug
            } else if l == "trace"@ {
                LogLevel::Trace
            } else {
                LogLevel::Info
            }
        },
        None => LogLevel::Info,
    }
}

/// The log level a `SNAP_PIN_LOG` value asks for.
pub fn configured_level(value: Option<&str>) -> (r: LogLevel)
    ensures
        r == log_level_of(
            match value {
                Some(v) => Some(v@),
                None => None,
            },
        ),
{
    match value {
        Some(v) => {
            let c = str_chars(v);
            let l = lower_chars(&trim_chars(&c));
            if chars_are(&l, "off") {
                LogLevel::Off
            } else if chars_are(&l, "error") {
                LogLevel::Error
            } else if chars_are(&l, "warn") {
                LogLevel::Warn
            } else if chars_are(&l, "debug") {
                LogLevel::Debug
            } else if chars_are(&l, "trace") {
                LogLevel::Trace
            } else {
                LogLevel::Info
            }
        },
        None => LogLevel::Info,
    }
}

/// `n < 1000` written with exactly three digits, zeros in front.
pub open spec fn three_digits(n: nat) -> Seq<char> {
    if n < 10 {
        "00"@ + decimal(n)
    } else if n < 100 {
        "0"@ + decimal(n)
    } else {
        decimal(n)
    }
}

/// The time stamp of a log line: seconds since the epoch, a dot, and milliseconds in
/// three digits.
pub fn log_timestamp(secs: u64, subsec_millis: u32) -> (r: String)
    requires
        subsec_millis < 1000,
    ensures
        r@ == decimal(secs as nat) + "."@ + three_digits(subsec_millis as nat),
{
    let mut v: Vec<char> = Vec::new();
    push_decimal(&mut v, secs as u128);
    push_str_chars(&mut v, ".");
    if subsec_millis < 10 {
        push_str_chars(&mut v, "00");
    } else if subsec_millis < 100 {
        push_str_chars(&mut v, "0");
    }
    push_decimal(&mut v, subsec_millis as u128);
    assert(v@ =~= decimal(secs as nat) + "."@ + three_digits(subsec_millis as nat));
    string_from_chars(&v)
}

/// The file name a capture is saved under, from the time in milliseconds since the epoch.
pub fn capture_file_name(millis: u128) -> (r: String)
    ensures
        r@ == "snap_pin_capture_"@ + decimal(millis as nat) + ".png"@,
{
    let mut v: Vec<char> = Vec::new();
    push_str_chars(&mut v, "snap_pin_capture_");
    push_decimal(&mut v, millis);
    push_str_chars(&mut v, ".png");
    string_from_chars(&v)
}

/// The name of the shared memory that carries a snapshot to the overlay, from the
/// process id and the time in microseconds since the epoch.
pub fn snapshot_mapping_name(pid: u32, micros: u128) -> (r: String)
    ensures
        r@ == "Local\\snap_pin_snapshot_"@ + decimal(pid as nat) + "_"@ + decimal(micros as nat),
{
    let mut v: Vec<char> = Vec::new();
    push_str_chars(&mut v, "Local\\snap_pin_snapshot_");
    push_decimal(&mut v, pid as u128);
    push_str_chars(&mut v, "_");
    push_decimal(&mut v, micros);
    string_from_chars(&v)
}

/// The rank of a log level, from `Off` (0) to `Trace` (5).
pub open spec fn level_rank(level: LogLevel) -> nat {
    match level {
        LogLevel::Off => 0,
        LogLevel::Error => 1,
        LogLevel::Warn => 2,
        LogLevel::Info => 3,
        LogLevel::Debug => 4,
        LogLevel::Trace => 5,
    }
}

fn rank(level: LogLevel) -> (r: u8)
    ensures
        r as nat == level_rank(level),
{
    match level {
        LogLevel::Off => 0,
        LogLevel::Error => 1,
        LogLevel::Warn => 2,
        LogLevel::Info => 3,
        LogLevel::Debug => 4,
        LogLevel::Trace => 5,
    }
}

/// Whether a record of the given level is written under the configured level: records
/// as severe as the configured level or more.
pub fn level_enabled(level: LogLevel, configured: LogLevel) -> (b: bool)
    requires
        level != LogLevel::Off,
    ensures
        b == (level_rank(level) <= level_rank(configured)),
{
    rank(level) <= rank(configured)
}

/// The name of a record's level as a log line shows it, padded to five characters.
pub open spec fn padded_level_name(level: LogLevel) -> Seq<char> {
    match level {
        LogLevel::Error => "ERROR"@,
        LogLevel::Warn => "WARN "@,
        LogLevel::Info => "INFO "@,
        LogLevel::Debug => "DEBUG"@,
        LogLevel::Trace => "TRACE"@,
        LogLevel::Off => Seq::empty(),
    }
}

/// A line of the log file: `[time pid=N] LEVEL target - message`, the level padded to
/// five characters.
pub fn log_line(timestamp: &str, pid: u32, level: LogLevel, target: &str, message: &str) -> (r: String)
    requires
        level != LogLevel::Off,
    ensures
        r@ == "["@ + timestamp@ + " pid="@ + decimal(pid as nat) + "] "@ + padded_level_name(level)
            + " "@ + target@ + " - "@ + message@,
{
    let name = match level {
        LogLevel::Error => "ERROR",
        LogLevel::Warn => "WARN ",
        LogLevel::Info => "INFO ",
        LogLevel::Debug => "DEBUG",
        LogLevel::Trace => "TRACE",
        LogLevel::Off => "",
    };
    let mut v: Vec<char> = Vec::new();
    push_str_chars(&mut v, "[");
    push_str_chars(&mut v, timestamp);
    push_str_chars(&mut v, " pid=");
    push_decimal(&mut v, pid as u128);
    push_str_chars(&mut v, "] ");
    push_str_chars(&mut v, name);
    push_str_chars(&mut v, " ");
    push_str_chars(&mut v, target);
    push_str_chars(&mut v, " - ");
    push_str_chars(&mut v, message);
    assert(v@ =~= "["@ + timestamp@ + " pid="@ + decimal(pid as nat) + "] "@ + padded_level_name(level)
        + " "@ + target@ + " - "@ + message@);
    string_from_chars(&v)
}

} // verus!
