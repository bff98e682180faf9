use vstd::prelude::*;

verus! {

use vstd::string::StringExecFns;

/// The service's log line shape: `[timestamp] [LEVEL] [voice] message`,
/// one line per event. The timestamp and level render, and the sink the
/// lines go to, stay with the caller; this type owns the shape.
pub struct TSBotFormatter;

impl TSBotFormatter {
    /// Lay out one log line from its rendered parts, newline included.
    pub fn format_line(&self, timestamp: &str, level: &str, fields: &str) -> (r: String)
        ensures
            r@ == "["@ + timestamp@ + "] ["@ + level@ + "] [voice] "@ + fields@ + "\n"@,
    {
        let mut r = String::from_str("[");
        r.append(timestamp);
        r.append("] [");
        r.append(level);
        r.append("] [voice] ");
        r.append(fields);
        r.append("\n");
        r
    }
}

} // verus!
