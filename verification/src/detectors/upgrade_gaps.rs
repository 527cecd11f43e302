//! Detects assumptions that a called program cannot change underneath
//! the caller: upgradeable callees invalidate pinned behaviour.

use vstd::prelude::*;

use crate::report::Severity;

verus! {

/// Detector for cross-program upgradeability gaps.
pub struct UpgradeGapsDetector;

impl UpgradeGapsDetector {
    /// Creates a new detector instance.
    pub fn new() -> (r: UpgradeGapsDetector) {
        UpgradeGapsDetector
    }

    /// The identifier of this detector.
    pub fn id(&self) -> (r: &'static str)
        ensures
            r@ == "V017"@,
    {
        "V017"
    }

    /// The human-readable name of the vulnerability.
    pub fn name(&self) -> (r: &'static str)
        ensures
            r@ == "Cross-Program Upgradeability Gaps"@,
    {
        "Cross-Program Upgradeability Gaps"
    }

    /// What this detector looks for.
    pub fn description(&self) -> (r: &'static str)
        ensures
            r@ == "Detects assumptions that an upgradeable callee keeps its behaviour."@,
    {
        "Detects assumptions that an upgradeable callee keeps its behaviour."
    }

    /// The default severity of findings from this detector.
    pub fn severity(&self) -> (r: Severity)
        ensures
            r == Severity::Medium,
    {
        Severity::Medium
    }

    /// The weakness classification, when one applies.
    pub fn cwe(&self) -> (r: Option<&'static str>)
        ensures
            match r {
                Some(c) => c@ == "CWE-440"@,
                None => false,
            },
    {
        Some("CWE-440")
    }

    /// Remediation advice.
    pub fn remediation(&self) -> (r: &'static str)
        ensures
            r@ == "Pin the callee program identifier and verify its expected version or authority."@,
    {
        "Pin the callee program identifier and verify its expected version or authority."
    }
}

impl Default for UpgradeGapsDetector {
    /// The default detector equals a freshly created one.
    fn default() -> (r: UpgradeGapsDetector)
        ensures
            r == UpgradeGapsDetector,
    {
        UpgradeGapsDetector
    }
}

} // verus!
