//! Detects loops over unbounded collections with no bounds check in
//! sight: oversized input can exhaust the compute budget.

use vstd::prelude::*;

use crate::detectors::utils::win_lo;
use crate::report::Severity;
use crate::text::{contains_lower, contains_lower_sub, contains_seq, contains_sub, split_lines,
    split_lines_spec};

verus! {

/// Whether one line bounds an iteration.
pub open spec fn line_has_bounds_check(l: Seq<char>) -> bool {
    contains_seq(l, ".len() <="@) || contains_seq(l, ".len() <"@) || contains_seq(l, "MAX_"@) || contains_seq(l, "require!("@) || contains_seq(l, "take("@)
}

/// Whether the check appears in the 10 lines before line `loop_line`.
pub open spec fn has_bounds_check_spec(src: Seq<char>, loop_line: int) -> bool {
    exists|i: int|
        win_lo(loop_line, 10) <= i < loop_line && 0 <= i < split_lines_spec(src).len()
            && line_has_bounds_check(split_lines_spec(src)[i])
}

/// Detector for unbounded loop iteration.
pub struct LoopOverflowDetector;

impl LoopOverflowDetector {
    /// Creates a new detector instance.
    pub fn new() -> (r: LoopOverflowDetector) {
        LoopOverflowDetector
    }

    /// Scans the 10 lines before line `loop_line` for the protecting
    /// pattern.
    pub fn has_bounds_check(&self, source: &str, loop_line: usize) -> (r: bool)
        ensures
            r == has_bounds_check_spec(source@, loop_line as int),
    {
        let lines = split_lines(source);
        let ghost ls = split_lines_spec(source@);
        let start: usize = if loop_line >= 10 {
            loop_line - 10
        } else {
            0
        };
        let mut i: usize = start;
        while i < loop_line
            invariant
                lines@.map_values(|l: String| l@) == ls,
                ls == split_lines_spec(source@),
                start == win_lo(loop_line as int, 10),
                start <= i <= loop_line,
                forall|j: int|
                    start <= j < i && j < ls.len() ==> !line_has_bounds_check(ls[j]),
            decreases loop_line - i,
        {
            if i < lines.len() {
                let l = lines[i].as_str();
                proof {
                    assert(l@ == ls[i as int]);
                }
                if contains_sub(l, ".len() <=") || contains_sub(l, ".len() <") || contains_sub(l, "MAX_") || contains_sub(l, "require!(") || contains_sub(l, "take(") {
                    return true;
                }
            }
            i = i + 1;
        }
        false
    }

    /// The identifier of this detector.
    pub fn id(&self) -> (r: &'static str)
        ensures
            r@ == "V019"@,
    {
        "V019"
    }

    /// The human-readable name of the vulnerability.
    pub fn name(&self) -> (r: &'static str)
        ensures
            r@ == "Loop Iteration Overflows"@,
    {
        "Loop Iteration Overflows"
    }

    /// What this detector looks for.
    pub fn description(&self) -> (r: &'static str)
        ensures
            r@ == "Detects loops over collections without an explicit bound on iteration count."@,
    {
        "Detects loops over collections without an explicit bound on iteration count."
    }

    /// The default severity of findings from this detector.
    pub fn severity(&self) -> (r: Severity)
        ensures
            r == Severity::High,
    {
        Severity::High
    }

    /// The weakness classification, when one applies.
    pub fn cwe(&self) -> (r: Option<&'static str>)
        ensures
            match r {
                Some(c) => c@ == "CWE-834"@,
                None => false,
            },
    {
        Some("CWE-834")
    }

    /// Remediation advice.
    pub fn remediation(&self) -> (r: &'static str)
        ensures
            r@ == "Bound the iteration count explicitly before looping over user-controlled collections."@,
    {
        "Bound the iteration count explicitly before looping over user-controlled collections."
    }
}

impl Default for LoopOverflowDetector {
    /// The default detector equals a freshly created one.
    fn default() -> (r: LoopOverflowDetector)
        ensures
            r == LoopOverflowDetector,
    {
        LoopOverflowDetector
    }
}

} // verus!
