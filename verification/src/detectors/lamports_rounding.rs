//! Detects raw lamport arithmetic without checked or saturating
//! operations: rounding and overflow errors leak funds.

use vstd::prelude::*;

use crate::detectors::utils::win_lo;
use crate::report::Severity;
use crate::text::{contains_lower, contains_lower_sub, contains_seq, contains_sub, split_lines,
    split_lines_spec};

verus! {

/// Whether one line shows protected arithmetic.
pub open spec fn line_has_rounding_protection(l: Seq<char>) -> bool {
    contains_seq(l, "saturating_"@) || contains_seq(l, "checked_"@) || contains_seq(l, "LAMPORTS_PER_SOL"@)
}

/// Whether the check appears in the window from 5 lines before to
/// 5 lines after line `line_num`.
pub open spec fn has_rounding_protection_spec(src: Seq<char>, line_num: int) -> bool {
    exists|i: int|
        win_lo(line_num, 5) <= i < line_num + 5 && 0 <= i < split_lines_spec(src).len()
            && line_has_rounding_protection(split_lines_spec(src)[i])
}

/// Detector for unprotected lamport arithmetic.
pub struct LamportsRoundingDetector;

impl LamportsRoundingDetector {
    /// Creates a new detector instance.
    pub fn new() -> (r: LamportsRoundingDetector) {
        LamportsRoundingDetector
    }

    /// Scans the window around line `line_num` for the protecting
    /// pattern.
    pub fn has_rounding_protection(&self, source: &str, line_num: usize) -> (r: bool)
        ensures
            r == has_rounding_protection_spec(source@, line_num as int),
    {
        let lines = split_lines(source);
        let ghost ls = split_lines_spec(source@);
        let start: usize = if line_num >= 5 {
            line_num - 5
        } else {
            0
        };
        let mut i: usize = start;
        while i < lines.len() && (i < line_num || i - line_num < 5)
            invariant
                lines@.map_values(|l: String| l@) == ls,
                ls == split_lines_spec(source@),
                start == win_lo(line_num as int, 5),
                start <= i,
                i as int <= line_num + 5,
                forall|j: int|
                    start <= j < i && j < ls.len() ==> !line_has_rounding_protection(ls[j]),
            decreases line_num + 5 - i,
        {
            let l = lines[i].as_str();
            proof {
                assert(l@ == ls[i as int]);
            }
            if contains_sub(l, "saturating_") || contains_sub(l, "checked_") || contains_sub(l, "LAMPORTS_PER_SOL") {
                return true;
            }
            i = i + 1;
        }
        false
    }

    /// The identifier of this detector.
    pub fn id(&self) -> (r: &'static str)
        ensures
            r@ == "V022"@,
    {
        "V022"
    }

    /// The human-readable name of the vulnerability.
    pub fn name(&self) -> (r: &'static str)
        ensures
            r@ == "Lamports Rounding Errors"@,
    {
        "Lamports Rounding Errors"
    }

    /// What this detector looks for.
    pub fn description(&self) -> (r: &'static str)
        ensures
            r@ == "Detects raw lamport arithmetic without checked or saturating operations."@,
    {
        "Detects raw lamport arithmetic without checked or saturating operations."
    }

    /// The default severity of findings from this detector.
    pub fn severity(&self) -> (r: Severity)
        ensures
            r == Severity::Medium,
    {
        Severity::Medium
    }

    /// The weakness classification, when one applies.
    pub fn cwe(&self) -> (r: Option<&'static str>)
        ensures
            match r {
                Some(c) => c@ == "CWE-682"@,
                None => false,
            },
    {
        Some("CWE-682")
    }

    /// Remediation advice.
    pub fn remediation(&self) -> (r: &'static str)
        ensures
            r@ == "Use checked or saturating arithmetic for all lamport calculations."@,
    {
        "Use checked or saturating arithmetic for all lamport calculations."
    }
}

impl Default for LamportsRoundingDetector {
    /// The default detector equals a freshly created one.
    fn default() -> (r: LamportsRoundingDetector)
        ensures
            r == LamportsRoundingDetector,
    {
        LamportsRoundingDetector
    }
}

} // verus!
