//! Detects transfers whose amount is never validated against a balance
//! or bound before the transfer executes.

use vstd::prelude::*;

use crate::detectors::utils::win_lo;
use crate::report::Severity;
use crate::text::{contains_lower, contains_lower_sub, contains_seq, contains_sub, split_lines,
    split_lines_spec};

verus! {

/// Whether one line validates an amount.
pub open spec fn line_has_amount_validation(l: Seq<char>) -> bool {
    contains_lower(l, "require!(amount"@) || contains_lower(l, "require_gte!"@) || contains_lower(l, "require_gt!"@) || contains_lower(l, "amount >="@) || contains_lower(l, "amount <="@) || contains_lower(l, "amount >"@) || contains_lower(l, "amount <"@) || contains_lower(l, "balance >="@) || contains_lower(l, "balance >"@) || contains_lower(l, ".checked_"@) || contains_lower(l, "min(amount"@) || contains_lower(l, "amount.min("@)
}

/// Whether the check appears in the 10 lines before line `transfer_line`.
pub open spec fn has_amount_validation_spec(src: Seq<char>, transfer_line: int) -> bool {
    exists|i: int|
        win_lo(transfer_line, 10) <= i < transfer_line && 0 <= i < split_lines_spec(src).len()
            && line_has_amount_validation(split_lines_spec(src)[i])
}

/// Detector for transfers with unvalidated amounts.
pub struct UncheckedTransferDetector;

impl UncheckedTransferDetector {
    /// Creates a new detector instance.
    pub fn new() -> (r: UncheckedTransferDetector) {
        UncheckedTransferDetector
    }

    /// Scans the 10 lines before line `transfer_line` for the protecting
    /// pattern.
    pub fn has_amount_validation(&self, source: &str, transfer_line: usize) -> (r: bool)
        ensures
            r == has_amount_validation_spec(source@, transfer_line as int),
    {
        let lines = split_lines(source);
        let ghost ls = split_lines_spec(source@);
        let start: usize = if transfer_line >= 10 {
            transfer_line - 10
        } else {
            0
        };
        let mut i: usize = start;
        while i < transfer_line
            invariant
                lines@.map_values(|l: String| l@) == ls,
                ls == split_lines_spec(source@),
                start == win_lo(transfer_line as int, 10),
                start <= i <= transfer_line,
                forall|j: int|
                    start <= j < i && j < ls.len() ==> !line_has_amount_validation(ls[j]),
            decreases transfer_line - i,
        {
            if i < lines.len() {
                let l = lines[i].as_str();
                proof {
                    assert(l@ == ls[i as int]);
                }
                if contains_lower_sub(l, "require!(amount") || contains_lower_sub(l, "require_gte!") || contains_lower_sub(l, "require_gt!") || contains_lower_sub(l, "amount >=") || contains_lower_sub(l, "amount <=") || contains_lower_sub(l, "amount >") || contains_lower_sub(l, "amount <") || contains_lower_sub(l, "balance >=") || contains_lower_sub(l, "balance >") || contains_lower_sub(l, ".checked_") || contains_lower_sub(l, "min(amount") || contains_lower_sub(l, "amount.min(") {
                    return true;
                }
            }
            i = i + 1;
        }
        false
    }

    /// The identifier of this detector.
    pub fn id(&self) -> (r: &'static str)
        ensures
            r@ == "V010"@,
    {
        "V010"
    }

    /// The human-readable name of the vulnerability.
    pub fn name(&self) -> (r: &'static str)
        ensures
            r@ == "Unchecked Amount in Transfers"@,
    {
        "Unchecked Amount in Transfers"
    }

    /// What this detector looks for.
    pub fn description(&self) -> (r: &'static str)
        ensures
            r@ == "Detects transfer amounts used without bounds or balance validation."@,
    {
        "Detects transfer amounts used without bounds or balance validation."
    }

    /// The default severity of findings from this detector.
    pub fn severity(&self) -> (r: Severity)
        ensures
            r == Severity::High,
    {
        Severity::High
    }

    /// The weakness classification, when one applies.
    pub fn cwe(&self) -> (r: Option<&'static str>)
        ensures
            match r {
                Some(c) => c@ == "CWE-129"@,
                None => false,
            },
    {
        Some("CWE-129")
    }

    /// Remediation advice.
    pub fn remediation(&self) -> (r: &'static str)
        ensures
            r@ == "Validate the amount against balances and bounds before transferring."@,
    {
        "Validate the amount against balances and bounds before transferring."
    }
}


/// The amount expression of a transfer line: the first capture of the
/// named-amount pattern, else of the last-argument pattern, else the
/// conventional name.
pub open spec fn extract_amount_spec(l: Seq<char>) -> Seq<char> {
    match crate::detectors::utils::regex_capture("amount:\\s*(\\w+)"@, l) {
        Some(s) => s,
        None => match crate::detectors::utils::regex_capture(",\\s*(\\w+)\\s*\\)"@, l) {
            Some(s) => s,
            None => "amount"@,
        },
    }
}

impl UncheckedTransferDetector {
    /// Extracts the transfer amount expression from the line, falling
    /// back to the conventional name.
    pub fn extract_amount(&self, line: &str) -> (r: String)
        ensures
            r@ == extract_amount_spec(line@),
    {
        match crate::detectors::utils::regex_first_capture("amount:\\s*(\\w+)", line) {
            Some(s) => s,
            None => match crate::detectors::utils::regex_first_capture(
                ",\\s*(\\w+)\\s*\\)",
                line,
            ) {
                Some(s) => s,
                None => String::from_str("amount"),
            },
        }
    }
}

impl Default for UncheckedTransferDetector {
    /// The default detector equals a freshly created one.
    fn default() -> (r: UncheckedTransferDetector)
        ensures
            r == UncheckedTransferDetector,
    {
        UncheckedTransferDetector
    }
}

} // verus!
