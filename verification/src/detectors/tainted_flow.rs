//! Runs the taint tracker over instruction handlers and reports
//! untrusted input reaching dangerous operations without validation.

use vstd::prelude::*;

use crate::report::Severity;

verus! {

/// Detector for unvalidated tainted data flows.
pub struct TaintedFlowDetector;

impl TaintedFlowDetector {
    /// Creates a new detector instance.
    pub fn new() -> (r: TaintedFlowDetector) {
        TaintedFlowDetector
    }

    /// The identifier of this detector.
    pub fn id(&self) -> (r: &'static str)
        ensures
            r@ == "V023"@,
    {
        "V023"
    }

    /// The human-readable name of the vulnerability.
    pub fn name(&self) -> (r: &'static str)
        ensures
            r@ == "Tainted Data Flow"@,
    {
        "Tainted Data Flow"
    }

    /// What this detector looks for.
    pub fn description(&self) -> (r: &'static str)
        ensures
            r@ == "Detects untrusted user input reaching dangerous operations without validation."@,
    {
        "Detects untrusted user input reaching dangerous operations without validation."
    }

    /// The default severity of findings from this detector.
    pub fn severity(&self) -> (r: Severity)
        ensures
            r == Severity::High,
    {
        Severity::High
    }

    /// The weakness classification, when one applies.
    pub fn cwe(&self) -> (r: Option<&'static str>)
        ensures
            match r {
                Some(c) => c@ == "CWE-20"@,
                None => false,
            },
    {
        Some("CWE-20")
    }

    /// Remediation advice.
    pub fn remediation(&self) -> (r: &'static str)
        ensures
            r@ == "Validate every user input before it reaches a transfer or invocation."@,
    {
        "Validate every user input before it reaches a transfer or invocation."
    }
}

impl Default for TaintedFlowDetector {
    /// The default detector equals a freshly created one.
    fn default() -> (r: TaintedFlowDetector)
        ensures
            r == TaintedFlowDetector,
    {
        TaintedFlowDetector
    }
}

} // verus!
