use vstd::prelude::*;

use crate::config::{DiagnosticsConfig, DiagnosticsLevel};
use crate::text::{decimal_of, push_decimal};

verus! {

/// Whether a message of level `message_level` is reported when the
/// diagnostics are set to `configured_level`: it is, unless it is more
/// verbose than that.
pub fn enabled(message_level: DiagnosticsLevel, configured_level: DiagnosticsLevel) -> (b: bool)
    ensures
        b == (message_level.rank() <= configured_level.rank()),
{
    message_level.position() <= configured_level.position()
}

/// The name a level is logged under.
pub fn level_name(level: DiagnosticsLevel) -> (name: &'static str)
    ensures
        name@ == level.name_of(),
{
    match level {
        DiagnosticsLevel::Error => "ERROR",
        DiagnosticsLevel::Warn => "WARN",
        DiagnosticsLevel::Info => "INFO",
        DiagnosticsLevel::Debug => "DEBUG",
    }
}

/// What the log keeps in mind: the settings, and the file it writes to.
#[derive(Debug, Clone)]
pub struct FileLogger {
    pub config: DiagnosticsConfig,
    pub log_path: String,
}

/// A log that writes to the file at `log_path` under the settings `config`.
pub fn init(log_path: String, config: &DiagnosticsConfig) -> (logger: FileLogger)
    ensures
        logger.config == *config,
        logger.log_path == log_path,
{
    FileLogger { config: *config, log_path }
}

/// Puts other settings in force.
pub fn update_config(logger: &mut FileLogger, config: &DiagnosticsConfig)
    ensures
        final(logger).config == *config,
        final(logger).log_path == old(logger).log_path,
{
    logger.config = *config;
}

/// A line of the log: the time in seconds, the level and the message.
pub open spec fn line_of(level: DiagnosticsLevel, message: Seq<char>, now_secs: u64) -> Seq<char> {
    "["@ + decimal_of(now_secs as nat) + "]["@ + level.name_of() + "] "@ + message + "\n"@
}

/// The line that a message adds to the log, or nothing where the settings
/// leave messages of its level out.
pub fn log_line(logger: &FileLogger, level: DiagnosticsLevel, message: &str, now_secs: u64) -> (line:
    Option<String>)
    ensures
        match line {
            Some(text) => level.rank() <= logger.config.level.rank() && text@ == line_of(
                level,
                message@,
                now_secs,
            ),
            None => level.rank() > logger.config.level.rank(),
        },
{
    if !enabled(level, logger.config.level) {
        return None;
    }
    let mut text = "[".to_owned();
    push_decimal(&mut text, now_secs);
    text.append("][");
    text.append(level_name(level));
    text.append("] ");
    text.append(message);
    text.append("\n");
    Some(text)
}

/// The sum of two lengths, and the largest length there is where the sum
/// is larger than that.
pub open spec fn capped_sum(a: u64, b: u64) -> u64 {
    if a + b > u64::MAX {
        u64::MAX
    } else {
        (a + b) as u64
    }
}

/// Whether the log file is to be rotated before `next_len` bytes are
/// written to its `current_len`: they would take it over the limit.
pub fn needs_rotation(current_len: u64, next_len: u64, max_file_bytes: u64) -> (rotate: bool)
    ensures
        rotate == (capped_sum(current_len, next_len) > max_file_bytes),
{
    match current_len.checked_add(next_len) {
        Some(total) => total > max_file_bytes,
        None => u64::MAX > max_file_bytes,
    }
}

/// The name of the log file that was rotated `idx` times.
pub fn rotated_path(log_path: &str, idx: u32) -> (path: String)
    ensures
        path@ == log_path@ + "."@ + decimal_of(idx as nat),
{
    let mut path = log_path.to_owned();
    path.append(".");
    push_decimal(&mut path, idx as u64);
    path
}

/// The renamings of a rotation that keeps `max_files` files, in the order
/// in which they are made: each file moves up by one, the oldest first.
/// A file is named by how often it was rotated, the log itself by 0.
pub open spec fn rotation_of(max_files: u32) -> Seq<(u32, u32)> {
    if max_files <= 1 {
        Seq::empty()
    } else {
        Seq::new(
            (max_files - 1) as nat,
            |k: int| ((max_files - 2 - k) as u32, (max_files - 1 - k) as u32),
        )
    }
}

/// The renamings of a rotation that keeps `max_files` files. Where no
/// more than one file is kept there are none: the log is then removed.
pub fn rotation_steps(max_files: u32) -> (steps: Vec<(u32, u32)>)
    ensures
        steps@ == rotation_of(max_files),
{
    let mut steps: Vec<(u32, u32)> = Vec::new();
    if max_files <= 1 {
        return steps;
    }
    let mut idx: u32 = max_files - 1;
    while idx >= 1
        invariant
            max_files >= 2,
            idx <= max_files - 1,
            steps@.len() == max_files - 1 - idx,
            forall|k: int|
                0 <= k < steps@.len() ==> steps@[k] == (
                    (max_files - 2 - k) as u32,
                    (max_files - 1 - k) as u32,
                ),
        decreases idx,
    {
        steps.push((idx - 1, idx));
        idx -= 1;
    }
    assert(steps@ =~= rotation_of(max_files));
    steps
}

} // verus!
