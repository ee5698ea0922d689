//! The diagnostic facility: formatting of the one line a diagnostic call
//! hands to the byte sink.
//!
//! A diagnostic line is the process identity in brackets followed by the
//! message, framed by a fixed color prefix and a style reset.  Whether any
//! line is produced at all is a build-time decision recorded on the process;
//! that conditional step lives with the process model.

use vstd::prelude::*;
use vstd::string::*;

verus! {

/// The exact text a diagnostic call produces for a given process identity
/// and message: color prefix, `[identity] `, the message, style reset.
pub open spec fn diagnostic_line(identity: Seq<char>, message: Seq<char>) -> Seq<char> {
    "\u{1b}[0;94m["@ + identity + "] "@ + message + "\u{1b}[0m"@
}

/// Builds the diagnostic line for `identity` and `message`.
pub fn format_diagnostic(identity: &str, message: &str) -> (line: String)
    ensures
        line@ == diagnostic_line(identity@, message@),
{
    let mut line = String::from_str("\u{1b}[0;94m[");
    line.append(identity);
    line.append("] ");
    line.append(message);
    line.append("\u{1b}[0m");
    proof {
        assert(line@ =~= diagnostic_line(identity@, message@));
    }
    line
}

} // verus!
