//! Detects temporary accounts that are never closed: their rent is
//! stranded and stale state remains addressable.

use vstd::prelude::*;

use crate::report::Severity;

verus! {

/// Detector for accounts that are never closed.
pub struct MissingCloseDetector;

impl MissingCloseDetector {
    /// Creates a new detector instance.
    pub fn new() -> (r: MissingCloseDetector) {
        MissingCloseDetector
    }

    /// The identifier of this detector.
    pub fn id(&self) -> (r: &'static str)
        ensures
            r@ == "V013"@,
    {
        "V013"
    }

    /// The human-readable name of the vulnerability.
    pub fn name(&self) -> (r: &'static str)
        ensures
            r@ == "Missing Close Account"@,
    {
        "Missing Close Account"
    }

    /// What this detector looks for.
    pub fn description(&self) -> (r: &'static str)
        ensures
            r@ == "Detects temporary accounts without a close constraint or close instruction."@,
    {
        "Detects temporary accounts without a close constraint or close instruction."
    }

    /// The default severity of findings from this detector.
    pub fn severity(&self) -> (r: Severity)
        ensures
            r == Severity::Medium,
    {
        Severity::Medium
    }

    /// The weakness classification, when one applies.
    pub fn cwe(&self) -> (r: Option<&'static str>)
        ensures
            match r {
                Some(c) => c@ == "CWE-404"@,
                None => false,
            },
    {
        Some("CWE-404")
    }

    /// Remediation advice.
    pub fn remediation(&self) -> (r: &'static str)
        ensures
            r@ == "Add a close constraint or a dedicated close instruction returning the lamports."@,
    {
        "Add a close constraint or a dedicated close instruction returning the lamports."
    }
}

impl Default for MissingCloseDetector {
    /// The default detector equals a freshly created one.
    fn default() -> (r: MissingCloseDetector)
        ensures
            r == MissingCloseDetector,
    {
        MissingCloseDetector
    }
}

} // verus!
