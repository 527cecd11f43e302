//! Runs the scope tracker over instruction handlers and reports
//! validations confined to a branch while the guarded operation runs
//! unconditionally.

use vstd::prelude::*;

use crate::report::Severity;

verus! {

/// Detector for branch-confined validations.
pub struct ScopeValidationDetector;

impl ScopeValidationDetector {
    /// Creates a new detector instance.
    pub fn new() -> (r: ScopeValidationDetector) {
        ScopeValidationDetector
    }

    /// The identifier of this detector.
    pub fn id(&self) -> (r: &'static str)
        ensures
            r@ == "V027"@,
    {
        "V027"
    }

    /// The human-readable name of the vulnerability.
    pub fn name(&self) -> (r: &'static str)
        ensures
            r@ == "Scope-Limited Validation"@,
    {
        "Scope-Limited Validation"
    }

    /// What this detector looks for.
    pub fn description(&self) -> (r: &'static str)
        ensures
            r@ == "Detects checks confined to a conditional branch while the guarded operation runs unconditionally."@,
    {
        "Detects checks confined to a conditional branch while the guarded operation runs unconditionally."
    }

    /// The default severity of findings from this detector.
    pub fn severity(&self) -> (r: Severity)
        ensures
            r == Severity::High,
    {
        Severity::High
    }

    /// The weakness classification, when one applies.
    pub fn cwe(&self) -> (r: Option<&'static str>)
        ensures
            match r {
                Some(c) => c@ == "CWE-670"@,
                None => false,
            },
    {
        Some("CWE-670")
    }

    /// Remediation advice.
    pub fn remediation(&self) -> (r: &'static str)
        ensures
            r@ == "Hoist the validating check to the same scope as the operation it protects."@,
    {
        "Hoist the validating check to the same scope as the operation it protects."
    }
}

impl Default for ScopeValidationDetector {
    /// The default detector equals a freshly created one.
    fn default() -> (r: ScopeValidationDetector)
        ensures
            r == ScopeValidationDetector,
    {
        ScopeValidationDetector
    }
}

} // verus!
