//! Detects unchecked arithmetic on balances and amounts: wrapping
//! arithmetic silently corrupts accounting.

use vstd::prelude::*;

use crate::report::Severity;
use crate::text::{contains_seq, contains_sub};

verus! {

/// Detector for unchecked integer arithmetic.
pub struct IntegerOverflowDetector;

/// Whether one line already uses a safe arithmetic form: checked,
/// saturating, overflowing or wrapping operations, an error-mapped
/// checked chain, or a checked conversion.
pub open spec fn is_safe_operation_spec(l: Seq<char>) -> bool {
    contains_seq(l, "checked_"@) || contains_seq(l, "saturating_"@) || contains_seq(
        l,
        "overflowing_"@,
    ) || contains_seq(l, "wrapping_"@) || contains_seq(l, ".ok_or("@) || contains_seq(
        l,
        "try_from"@,
    )
}

impl IntegerOverflowDetector {
    /// Whether the line already uses a safe arithmetic form and should
    /// not be flagged.
    pub fn is_safe_operation(&self, line: &str) -> (r: bool)
        ensures
            r == is_safe_operation_spec(line@),
    {
        contains_sub(line, "checked_") || contains_sub(line, "saturating_") || contains_sub(
            line,
            "overflowing_",
        ) || contains_sub(line, "wrapping_") || contains_sub(line, ".ok_or(") || contains_sub(
            line,
            "try_from",
        )
    }

    /// The identifier of this detector.
    pub fn id(&self) -> (r: &'static str)
        ensures
            r@ == "V003"@,
    {
        "V003"
    }

    /// The human-readable name of the vulnerability.
    pub fn name(&self) -> (r: &'static str)
        ensures
            r@ == "Integer Overflow/Underflow"@,
    {
        "Integer Overflow/Underflow"
    }

    /// What this detector looks for.
    pub fn description(&self) -> (r: &'static str)
        ensures
            r@ == "Detects unchecked arithmetic on balances and amounts."@,
    {
        "Detects unchecked arithmetic on balances and amounts."
    }

    /// The default severity of findings from this detector.
    pub fn severity(&self) -> (r: Severity)
        ensures
            r == Severity::High,
    {
        Severity::High
    }

    /// The weakness classification, when one applies.
    pub fn cwe(&self) -> (r: Option<&'static str>)
        ensures
            match r {
                Some(c) => c@ == "CWE-190"@,
                None => false,
            },
    {
        Some("CWE-190")
    }

    /// Remediation advice.
    pub fn remediation(&self) -> (r: &'static str)
        ensures
            r@ == "Use checked arithmetic and map the failure to a program error."@,
    {
        "Use checked arithmetic and map the failure to a program error."
    }
}

} // verus!
