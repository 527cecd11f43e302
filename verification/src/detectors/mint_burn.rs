//! Detects mint and burn operations with no checked supply arithmetic
//! nearby: supply accounting can silently wrap.

use vstd::prelude::*;

use crate::detectors::utils::win_lo;
use crate::report::Severity;
use crate::text::{contains_lower, contains_lower_sub, contains_seq, contains_sub, split_lines,
    split_lines_spec};

verus! {

/// Whether one line shows checked supply arithmetic.
pub open spec fn line_has_checked_math(l: Seq<char>) -> bool {
    contains_seq(l, "checked_add"@) || contains_seq(l, "checked_sub"@) || contains_seq(l, "saturating_"@) || contains_seq(l, "overflow"@)
}

/// Whether the check appears in the window from 5 lines before to
/// 5 lines after line `line_num`.
pub open spec fn has_checked_math_spec(src: Seq<char>, line_num: int) -> bool {
    exists|i: int|
        win_lo(line_num, 5) <= i < line_num + 5 && 0 <= i < split_lines_spec(src).len()
            && line_has_checked_math(split_lines_spec(src)[i])
}

/// Detector for mint and burn without supply checks.
pub struct MintBurnDetector;

impl MintBurnDetector {
    /// Creates a new detector instance.
    pub fn new() -> (r: MintBurnDetector) {
        MintBurnDetector
    }

    /// Scans the window around line `line_num` for the protecting
    /// pattern.
    pub fn has_checked_math(&self, source: &str, line_num: usize) -> (r: bool)
        ensures
            r == has_checked_math_spec(source@, line_num as int),
    {
        let lines = split_lines(source);
        let ghost ls = split_lines_spec(source@);
        let start: usize = if line_num >= 5 {
            line_num - 5
        } else {
            0
        };
        let mut i: usize = start;
        while i < lines.len() && (i < line_num || i - line_num < 5)
            invariant
                lines@.map_values(|l: String| l@) == ls,
                ls == split_lines_spec(source@),
                start == win_lo(line_num as int, 5),
                start <= i,
                i as int <= line_num + 5,
                forall|j: int|
                    start <= j < i && j < ls.len() ==> !line_has_checked_math(ls[j]),
            decreases line_num + 5 - i,
        {
            let l = lines[i].as_str();
            proof {
                assert(l@ == ls[i as int]);
            }
            if contains_sub(l, "checked_add") || contains_sub(l, "checked_sub") || contains_sub(l, "saturating_") || contains_sub(l, "overflow") {
                return true;
            }
            i = i + 1;
        }
        false
    }

    /// The identifier of this detector.
    pub fn id(&self) -> (r: &'static str)
        ensures
            r@ == "V016"@,
    {
        "V016"
    }

    /// The human-readable name of the vulnerability.
    pub fn name(&self) -> (r: &'static str)
        ensures
            r@ == "Token Mint/Burn Without Supply Check"@,
    {
        "Token Mint/Burn Without Supply Check"
    }

    /// What this detector looks for.
    pub fn description(&self) -> (r: &'static str)
        ensures
            r@ == "Detects mint and burn operations without checked supply arithmetic."@,
    {
        "Detects mint and burn operations without checked supply arithmetic."
    }

    /// The default severity of findings from this detector.
    pub fn severity(&self) -> (r: Severity)
        ensures
            r == Severity::High,
    {
        Severity::High
    }

    /// The weakness classification, when one applies.
    pub fn cwe(&self) -> (r: Option<&'static str>)
        ensures
            match r {
                Some(c) => c@ == "CWE-190"@,
                None => false,
            },
    {
        Some("CWE-190")
    }

    /// Remediation advice.
    pub fn remediation(&self) -> (r: &'static str)
        ensures
            r@ == "Update supply with checked arithmetic and verify invariants after minting or burning."@,
    {
        "Update supply with checked arithmetic and verify invariants after minting or burning."
    }
}

impl Default for MintBurnDetector {
    /// The default detector equals a freshly created one.
    fn default() -> (r: MintBurnDetector)
        ensures
            r == MintBurnDetector,
    {
        MintBurnDetector
    }
}

} // verus!
