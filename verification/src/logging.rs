//! Log-line formatting. Writing the line to the log file happens outside
//! this crate; these functions only build the exact text of each entry.

use vstd::prelude::*;
use vstd::string::StringExecFns;

use crate::text::{padded_dec, u64_padded, string_of};

verus! {

/// A level name padded on the right to the fixed column width.
pub open spec fn spec_level_col(level: Seq<char>) -> Seq<char> {
    if level.len() >= 7 {
        level
    } else {
        level + Seq::new((7 - level.len()) as nat, |i: int| ' ')
    }
}

/// One complete log entry: timestamp, padded level, category and message.
pub open spec fn spec_log_entry(
    timestamp: Seq<char>,
    level: Seq<char>,
    category: Seq<char>,
    message: Seq<char>,
) -> Seq<char> {
    "["@ + timestamp + "] ["@ + spec_level_col(level) + "] ["@ + category + "] "@ + message
        + "\n"@
}

fn log_entry(timestamp: &str, level: &str, category: &str, message: &str) -> (r: String)
    ensures
        r@ == spec_log_entry(timestamp@, level@, category@, message@),
{
    let mut s = String::from_str("[");
    s.append(timestamp);
    s.append("] [");
    let n = level.unicode_len();
    s.append(level);
    if n < 7 {
        s.append(string_of(&crate::text::repeat_char(' ', 7 - n)).as_str());
    }
    proof {
        if n >= 7 {
            assert(s@ =~= "["@ + timestamp@ + "] ["@ + spec_level_col(level@));
        } else {
            assert(s@ =~= "["@ + timestamp@ + "] ["@ + spec_level_col(level@));
        }
    }
    s.append("] [");
    s.append(category);
    s.append("] ");
    s.append(message);
    s.append("\n");
    proof {
        assert(s@ =~= spec_log_entry(timestamp@, level@, category@, message@));
    }
    s
}

/// An informational entry: routine operations and status updates.
pub fn log_info(timestamp: &str, category: &str, message: &str) -> (r: String)
    ensures
        r@ == spec_log_entry(timestamp@, "INFO"@, category@, message@),
{
    log_entry(timestamp, "INFO", category, message)
}

/// A warning entry: unexpected but non-critical issues.
pub fn log_warn(timestamp: &str, category: &str, message: &str) -> (r: String)
    ensures
        r@ == spec_log_entry(timestamp@, "WARNING"@, category@, message@),
{
    log_entry(timestamp, "WARNING", category, message)
}

/// An error entry: critical failures that prevent normal operation.
pub fn log_error(timestamp: &str, category: &str, message: &str) -> (r: String)
    ensures
        r@ == spec_log_entry(timestamp@, "ERROR"@, category@, message@),
{
    log_entry(timestamp, "ERROR", category, message)
}

/// A debug entry: detailed information for troubleshooting.
pub fn log_debug(timestamp: &str, category: &str, message: &str) -> (r: String)
    ensures
        r@ == spec_log_entry(timestamp@, "DEBUG"@, category@, message@),
{
    log_entry(timestamp, "DEBUG", category, message)
}

/// The timestamp column of a log entry, from seconds since the epoch,
/// using fixed month and year lengths: close enough for a log line and
/// cheap enough to never slow one down.
pub open spec fn spec_log_timestamp(secs: nat) -> Seq<char> {
    padded_dec(1970 + secs / 31536000, 4) + "-"@ + padded_dec((secs / 2592000) % 12 + 1, 2)
        + "-"@ + padded_dec((secs / 86400) % 30 + 1, 2) + " "@ + padded_dec(
        (secs / 3600) % 24,
        2,
    ) + ":"@ + padded_dec((secs / 60) % 60, 2) + ":"@ + padded_dec(secs % 60, 2)
}

pub fn format_log_timestamp(secs: u64) -> (r: String)
    ensures
        r@ == spec_log_timestamp(secs as nat),
{
    let mut s = string_of(&u64_padded(1970 + secs / 31536000, 4));
    s.append("-");
    s.append(string_of(&u64_padded((secs / 2592000) % 12 + 1, 2)).as_str());
    s.append("-");
    s.append(string_of(&u64_padded((secs / 86400) % 30 + 1, 2)).as_str());
    s.append(" ");
    s.append(string_of(&u64_padded((secs / 3600) % 24, 2)).as_str());
    s.append(":");
    s.append(string_of(&u64_padded((secs / 60) % 60, 2)).as_str());
    s.append(":");
    s.append(string_of(&u64_padded(secs % 60, 2)).as_str());
    s
}

} // verus!
