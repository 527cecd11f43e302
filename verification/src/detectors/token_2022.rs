//! Detects extension-bearing token operations handled like legacy
//! tokens: transfer hooks and fees change the semantics of a transfer.

use vstd::prelude::*;

use crate::report::Severity;

verus! {

/// Detector for mishandled token-extension semantics.
pub struct Token2022Detector;

impl Token2022Detector {
    /// Creates a new detector instance.
    pub fn new() -> (r: Token2022Detector) {
        Token2022Detector
    }

    /// The identifier of this detector.
    pub fn id(&self) -> (r: &'static str)
        ensures
            r@ == "V007"@,
    {
        "V007"
    }

    /// The human-readable name of the vulnerability.
    pub fn name(&self) -> (r: &'static str)
        ensures
            r@ == "Token-2022 Extension Risks"@,
    {
        "Token-2022 Extension Risks"
    }

    /// What this detector looks for.
    pub fn description(&self) -> (r: &'static str)
        ensures
            r@ == "Detects token-extension operations handled without accounting for hooks and fees."@,
    {
        "Detects token-extension operations handled without accounting for hooks and fees."
    }

    /// The default severity of findings from this detector.
    pub fn severity(&self) -> (r: Severity)
        ensures
            r == Severity::High,
    {
        Severity::High
    }

    /// The weakness classification, when one applies.
    pub fn cwe(&self) -> (r: Option<&'static str>)
        ensures
            match r {
                Some(c) => c@ == "CWE-841"@,
                None => false,
            },
    {
        Some("CWE-841")
    }

    /// Remediation advice.
    pub fn remediation(&self) -> (r: &'static str)
        ensures
            r@ == "Account for transfer hooks and fees when handling extension-bearing tokens."@,
    {
        "Account for transfer hooks and fees when handling extension-bearing tokens."
    }
}

} // verus!
