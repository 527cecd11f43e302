//! Detects derived accounts whose seeds are taken from the caller
//! without verification against the expected derivation.

use vstd::prelude::*;

use crate::report::Severity;

verus! {

/// Detector for unverified derivation seeds.
pub struct UnverifiedSeedsDetector;

impl UnverifiedSeedsDetector {
    /// Creates a new detector instance.
    pub fn new() -> (r: UnverifiedSeedsDetector) {
        UnverifiedSeedsDetector
    }

    /// The identifier of this detector.
    pub fn id(&self) -> (r: &'static str)
        ensures
            r@ == "V021"@,
    {
        "V021"
    }

    /// The human-readable name of the vulnerability.
    pub fn name(&self) -> (r: &'static str)
        ensures
            r@ == "Unverified Seeds in Derived Accounts"@,
    {
        "Unverified Seeds in Derived Accounts"
    }

    /// What this detector looks for.
    pub fn description(&self) -> (r: &'static str)
        ensures
            r@ == "Detects derived accounts whose seeds are not verified against the expected derivation."@,
    {
        "Detects derived accounts whose seeds are not verified against the expected derivation."
    }

    /// The default severity of findings from this detector.
    pub fn severity(&self) -> (r: Severity)
        ensures
            r == Severity::Critical,
    {
        Severity::Critical
    }

    /// The weakness classification, when one applies.
    pub fn cwe(&self) -> (r: Option<&'static str>)
        ensures
            match r {
                Some(c) => c@ == "CWE-345"@,
                None => false,
            },
    {
        Some("CWE-345")
    }

    /// Remediation advice.
    pub fn remediation(&self) -> (r: &'static str)
        ensures
            r@ == "Re-derive the address from expected seeds and require equality before use."@,
    {
        "Re-derive the address from expected seeds and require equality before use."
    }
}

impl Default for UnverifiedSeedsDetector {
    /// The default detector equals a freshly created one.
    fn default() -> (r: UnverifiedSeedsDetector)
        ensures
            r == UnverifiedSeedsDetector,
    {
        UnverifiedSeedsDetector
    }
}

} // verus!
