//! Writing lines to the standard error stream.
use vstd::prelude::*;
use std::io::Write;

verus! {

/// std's `writeln!` on `std::io::stderr()`: writes the line and a newline to standard
/// error; a failed write is ignored.
#[verifier::external_body]
pub(crate) fn eprint_line(line: &str) {
    let _ = writeln!(std::io::stderr(), "{}", line);
}

} // verus!
