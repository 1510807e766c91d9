//! What is written to the trace file, and when the file is started afresh.
//! Writing it is left to the caller.

use vstd::prelude::*;

verus! {

/// The size in bytes up to which the trace file is appended to.
pub const MAX_FILE_SIZE: u64 = 1024 * 128;

/// One entry of the trace: the input and the output, each under its heading,
/// between two rules.
pub open spec fn trace_text(input: Seq<char>, output: Seq<char>) -> Seq<char> {
    "\n\n// ************************************************************\n// Given input:\n"@
        + input
        + "\n// ------------------------------------------------------------\n// Generated output:\n"@
        + output + "\n// ************************************************************\n\n"@
}

/// Writes one entry of the trace.
pub fn trace(input: &str, output: &str) -> (r: String)
    ensures
        r@ == trace_text(input@, output@),
{
    let mut r = String::from_str(
        "\n\n// ************************************************************\n// Given input:\n",
    );
    r.append(input);
    r.append(
        "\n// ------------------------------------------------------------\n// Generated output:\n",
    );
    r.append(output);
    r.append("\n// ************************************************************\n\n");
    r
}

/// Whether the next entry goes behind what the file holds: it does unless
/// the file exists, with `size` bytes, and has outgrown `MAX_FILE_SIZE`.
pub fn appends(size: Option<u64>) -> (r: bool)
    ensures
        r == !(size matches Some(n) && n > MAX_FILE_SIZE),
{
    match size {
        Some(n) => n <= MAX_FILE_SIZE,
        None => true,
    }
}

} // verus!
