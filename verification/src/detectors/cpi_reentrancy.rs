//! Detects cross-program invocations made while program state is
//! inconsistent, with no reentrancy guard in sight: a malicious callee
//! can reenter before state is settled.

use vstd::prelude::*;

use crate::detectors::utils::win_lo;
use crate::report::Severity;
use crate::text::{contains_lower, contains_lower_sub, split_lines, split_lines_spec};

verus! {

/// Detector for reentrancy through cross-program invocations.
pub struct CpiReentrancyDetector;

/// Whether one line shows evidence of a reentrancy guard.
pub open spec fn line_has_reentrancy_guard(l: Seq<char>) -> bool {
    contains_lower(l, "reentrancy"@) || contains_lower(l, "lock"@) || contains_lower(
        l,
        "processing = true"@,
    ) || contains_lower(l, "is_locked"@) || contains_lower(l, "mutex"@)
}

/// Whether a reentrancy guard appears in the fifteen lines before the
/// invocation.
pub open spec fn has_reentrancy_guard_spec(src: Seq<char>, cpi_line: int) -> bool {
    exists|i: int|
        win_lo(cpi_line, 15) <= i < cpi_line && 0 <= i < split_lines_spec(src).len()
            && line_has_reentrancy_guard(split_lines_spec(src)[i])
}

impl CpiReentrancyDetector {
    /// Creates a new reentrancy detector instance.
    pub fn new() -> (r: CpiReentrancyDetector) {
        CpiReentrancyDetector
    }

    /// Checks if reentrancy protection exists in the fifteen lines
    /// before a cross-program invocation.
    pub fn has_reentrancy_guard(&self, source: &str, cpi_line: usize) -> (r: bool)
        ensures
            r == has_reentrancy_guard_spec(source@, cpi_line as int),
    {
        let lines = split_lines(source);
        let ghost ls = split_lines_spec(source@);
        let start: usize = if cpi_line >= 15 {
            cpi_line - 15
        } else {
            0
        };
        let mut i: usize = start;
        while i < cpi_line
            invariant
                lines@.map_values(|l: String| l@) == ls,
                ls == split_lines_spec(source@),
                start == win_lo(cpi_line as int, 15),
                start <= i <= cpi_line,
                forall|j: int|
                    start <= j < i && j < ls.len() ==> !line_has_reentrancy_guard(ls[j]),
            decreases cpi_line - i,
        {
            if i < lines.len() {
                let l = lines[i].as_str();
                proof {
                    assert(l@ == ls[i as int]);
                }
                if contains_lower_sub(l, "reentrancy") || contains_lower_sub(l, "lock")
                    || contains_lower_sub(l, "processing = true") || contains_lower_sub(
                    l,
                    "is_locked",
                ) || contains_lower_sub(l, "mutex") {
                    return true;
                }
            }
            i = i + 1;
        }
        false
    }

    /// The identifier of this detector.
    pub fn id(&self) -> (r: &'static str)
        ensures
            r@ == "V009"@,
    {
        "V009"
    }

    /// The human-readable name of the vulnerability.
    pub fn name(&self) -> (r: &'static str)
        ensures
            r@ == "Reentrancy via CPI"@,
    {
        "Reentrancy via CPI"
    }

    /// What this detector looks for.
    pub fn description(&self) -> (r: &'static str)
        ensures
            r@ == "Detects cross-program invocations without reentrancy protection."@,
    {
        "Detects cross-program invocations without reentrancy protection."
    }

    /// The default severity of findings from this detector.
    pub fn severity(&self) -> (r: Severity)
        ensures
            r == Severity::Critical,
    {
        Severity::Critical
    }

    /// The weakness classification, when one applies.
    pub fn cwe(&self) -> (r: Option<&'static str>)
        ensures
            match r {
                Some(c) => c@ == "CWE-841"@,
                None => false,
            },
    {
        Some("CWE-841")
    }

    /// Remediation advice.
    pub fn remediation(&self) -> (r: &'static str)
        ensures
            r@ == "Complete all state changes before the invocation, or guard the handler with a processing flag."@,
    {
        "Complete all state changes before the invocation, or guard the handler with a processing flag."
    }
}

impl Default for CpiReentrancyDetector {
    /// The default detector equals a freshly created one.
    fn default() -> (r: CpiReentrancyDetector)
        ensures
            r == CpiReentrancyDetector,
    {
        CpiReentrancyDetector
    }
}

} // verus!
