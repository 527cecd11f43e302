//! Detects accounts read or written by instruction code without a
//! matching validation in the accounts declaration.

use vstd::prelude::*;

use crate::report::Severity;

verus! {

/// Detector for accounts used without validation.
pub struct AccountUsageDetector;

impl AccountUsageDetector {
    /// Creates a new detector instance.
    pub fn new() -> (r: AccountUsageDetector) {
        AccountUsageDetector
    }

    /// The identifier of this detector.
    pub fn id(&self) -> (r: &'static str)
        ensures
            r@ == "V024"@,
    {
        "V024"
    }

    /// The human-readable name of the vulnerability.
    pub fn name(&self) -> (r: &'static str)
        ensures
            r@ == "Account Used Without Validation"@,
    {
        "Account Used Without Validation"
    }

    /// What this detector looks for.
    pub fn description(&self) -> (r: &'static str)
        ensures
            r@ == "Detects accounts used by instruction code without a matching declared validation."@,
    {
        "Detects accounts used by instruction code without a matching declared validation."
    }

    /// The default severity of findings from this detector.
    pub fn severity(&self) -> (r: Severity)
        ensures
            r == Severity::High,
    {
        Severity::High
    }

    /// The weakness classification, when one applies.
    pub fn cwe(&self) -> (r: Option<&'static str>)
        ensures
            match r {
                Some(c) => c@ == "CWE-284"@,
                None => false,
            },
    {
        Some("CWE-284")
    }

    /// Remediation advice.
    pub fn remediation(&self) -> (r: &'static str)
        ensures
            r@ == "Declare the account with a typed wrapper or add the missing constraint."@,
    {
        "Declare the account with a typed wrapper or add the missing constraint."
    }
}

impl Default for AccountUsageDetector {
    /// The default detector equals a freshly created one.
    fn default() -> (r: AccountUsageDetector)
        ensures
            r == AccountUsageDetector,
    {
        AccountUsageDetector
    }
}

} // verus!
