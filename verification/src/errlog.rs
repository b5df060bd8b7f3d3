//! Records of the error log: one line per failed check.

use crate::text::{contains_text, decimal, decimal_text, occurs_at};
use vstd::prelude::*;

verus! {

/// One failure, as it is appended to the error log.
#[derive(Clone, Debug, PartialEq, Eq)]
pub struct LogRecord {
    /// The calendar time of the round in which the check failed.
    pub datetime: String,
    /// The epoch second at which the record is written.
    pub timestamp: u64,
    /// What went wrong.
    pub message: String,
}

/// The line of the error log for one failure:
/// `[<datetime> | <timestamp>] <message>` and a line feed.
pub open spec fn log_line(datetime: Seq<char>, timestamp: u64, message: Seq<char>) -> Seq<char> {
    "["@ + datetime + " | "@ + decimal_text(timestamp as nat) + "] "@ + message + "\n"@
}

impl LogRecord {
    /// The text to append to the error log for this record.
    pub fn line(&self) -> (r: String)
        ensures
            r@ == log_line(self.datetime@, self.timestamp, self.message@),
    {
        let mut out = String::from_str("[");
        out.append(self.datetime.as_str());
        out.append(" | ");
        out.append(decimal(self.timestamp).as_str());
        out.append("] ");
        out.append(self.message.as_str());
        out.append("\n");
        out
    }
}

/// A log line holds its date and its message, and ends with a line feed.
pub proof fn lemma_log_line_holds_fields(datetime: Seq<char>, timestamp: u64, message: Seq<char>)
    ensures
        contains_text(log_line(datetime, timestamp, message), datetime),
        contains_text(log_line(datetime, timestamp, message), message),
        log_line(datetime, timestamp, message).len() > 0,
        log_line(datetime, timestamp, message).last() == '\n',
{
    reveal_strlit("[");
    reveal_strlit(" | ");
    reveal_strlit("] ");
    reveal_strlit("\n");
    let line = log_line(datetime, timestamp, message);
    let digits = decimal_text(timestamp as nat);
    let at_message = 1 + datetime.len() as int + 3 + digits.len() as int + 2;
    assert(line.subrange(1, 1 + datetime.len() as int) =~= datetime);
    assert(occurs_at(line, datetime, 1));
    assert(line.subrange(at_message, at_message + message.len()) =~= message);
    assert(occurs_at(line, message, at_message));
}

} // verus!
