//! The wording of what the program reports.

use vstd::prelude::*;

verus! {

/// The line that reports `failure` under the name `program`: the name, then
/// `: error: `, then the failure.
pub open spec fn error_line(program: Seq<char>, failure: Seq<char>) -> Seq<char> {
    program + ": error: "@ + failure
}

/// The line that reports the failure described by `details`.
pub fn error_str(program: &str, details: &str) -> (line: String)
    ensures
        line@ == error_line(program@, details@),
{
    error(program, details)
}

/// The line that reports `failure`.
pub fn error(program: &str, failure: &str) -> (line: String)
    ensures
        line@ == error_line(program@, failure@),
{
    let mut line = program.to_owned();
    line.append(": error: ");
    line.append(failure);
    line
}

} // verus!
