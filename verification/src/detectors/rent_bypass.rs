//! Detects account creation without a rent-exemption calculation
//! nearby: underfunded accounts can be garbage-collected.

use vstd::prelude::*;

use crate::detectors::utils::win_lo;
use crate::report::Severity;
use crate::text::{contains_lower, contains_lower_sub, contains_seq, contains_sub, split_lines,
    split_lines_spec};

verus! {

/// Whether one line shows a rent calculation.
pub open spec fn line_has_rent_check(l: Seq<char>) -> bool {
    contains_seq(l, "minimum_balance"@) || contains_seq(l, "rent"@) || contains_seq(l, "LAMPORTS_PER_SOL"@)
}

/// Whether the check appears in the window from 10 lines before to
/// 5 lines after line `create_line`.
pub open spec fn has_rent_check_spec(src: Seq<char>, create_line: int) -> bool {
    exists|i: int|
        win_lo(create_line, 10) <= i < create_line + 5 && 0 <= i < split_lines_spec(src).len()
            && line_has_rent_check(split_lines_spec(src)[i])
}

/// Detector for account creation without rent checks.
pub struct RentBypassDetector;

impl RentBypassDetector {
    /// Creates a new detector instance.
    pub fn new() -> (r: RentBypassDetector) {
        RentBypassDetector
    }

    /// Scans the window around line `create_line` for the protecting
    /// pattern.
    pub fn has_rent_check(&self, source: &str, create_line: usize) -> (r: bool)
        ensures
            r == has_rent_check_spec(source@, create_line as int),
    {
        let lines = split_lines(source);
        let ghost ls = split_lines_spec(source@);
        let start: usize = if create_line >= 10 {
            create_line - 10
        } else {
            0
        };
        let mut i: usize = start;
        while i < lines.len() && (i < create_line || i - create_line < 5)
            invariant
                lines@.map_values(|l: String| l@) == ls,
                ls == split_lines_spec(source@),
                start == win_lo(create_line as int, 10),
                start <= i,
                i as int <= create_line + 5,
                forall|j: int|
                    start <= j < i && j < ls.len() ==> !line_has_rent_check(ls[j]),
            decreases create_line + 5 - i,
        {
            let l = lines[i].as_str();
            proof {
                assert(l@ == ls[i as int]);
            }
            if contains_sub(l, "minimum_balance") || contains_sub(l, "rent") || contains_sub(l, "LAMPORTS_PER_SOL") {
                return true;
            }
            i = i + 1;
        }
        false
    }

    /// The identifier of this detector.
    pub fn id(&self) -> (r: &'static str)
        ensures
            r@ == "V012"@,
    {
        "V012"
    }

    /// The human-readable name of the vulnerability.
    pub fn name(&self) -> (r: &'static str)
        ensures
            r@ == "Rent Exemption Bypass"@,
    {
        "Rent Exemption Bypass"
    }

    /// What this detector looks for.
    pub fn description(&self) -> (r: &'static str)
        ensures
            r@ == "Detects account creation without rent-exemption calculations."@,
    {
        "Detects account creation without rent-exemption calculations."
    }

    /// The default severity of findings from this detector.
    pub fn severity(&self) -> (r: Severity)
        ensures
            r == Severity::Medium,
    {
        Severity::Medium
    }

    /// The weakness classification, when one applies.
    pub fn cwe(&self) -> (r: Option<&'static str>)
        ensures
            match r {
                Some(c) => c@ == "CWE-400"@,
                None => false,
            },
    {
        Some("CWE-400")
    }

    /// Remediation advice.
    pub fn remediation(&self) -> (r: &'static str)
        ensures
            r@ == "Fund new accounts with the rent-exempt minimum for their size."@,
    {
        "Fund new accounts with the rent-exempt minimum for their size."
    }
}

impl Default for RentBypassDetector {
    /// The default detector equals a freshly created one.
    fn default() -> (r: RentBypassDetector)
        ensures
            r == RentBypassDetector,
    {
        RentBypassDetector
    }
}

} // verus!
