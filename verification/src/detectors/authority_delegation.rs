//! Detects authority handed to another party with no revocation path:
//! once delegated, control cannot be taken back.

use vstd::prelude::*;

use crate::report::Severity;
use crate::text::{contains_lower, contains_lower_sub};

verus! {

/// Detector for irrevocable authority delegation.
pub struct AuthorityDelegationDetector;

/// Whether the source shows a way to take delegated authority back: an
/// owner reset, a revocation, or an account close.
pub open spec fn has_revocation_path_spec(src: Seq<char>) -> bool {
    (contains_lower(src, "set_authority"@) && contains_lower(src, "authoritytype::accountowner"@))
        || contains_lower(src, "revoke"@) || contains_lower(src, "close_account"@)
}

impl AuthorityDelegationDetector {
    /// Creates a new detector instance.
    pub fn new() -> (r: AuthorityDelegationDetector) {
        AuthorityDelegationDetector
    }

    /// Whether a revocation mechanism exists anywhere in the source.
    pub fn has_revocation_path(&self, source: &str, _line_num: usize) -> (r: bool)
        ensures
            r == has_revocation_path_spec(source@),
    {
        (contains_lower_sub(source, "set_authority") && contains_lower_sub(
            source,
            "authoritytype::accountowner",
        )) || contains_lower_sub(source, "revoke") || contains_lower_sub(source, "close_account")
    }

    /// The identifier of this detector.
    pub fn id(&self) -> (r: &'static str)
        ensures
            r@ == "V011"@,
    {
        "V011"
    }

    /// The human-readable name of the vulnerability.
    pub fn name(&self) -> (r: &'static str)
        ensures
            r@ == "Weak Authority Delegation"@,
    {
        "Weak Authority Delegation"
    }

    /// What this detector looks for.
    pub fn description(&self) -> (r: &'static str)
        ensures
            r@ == "Detects authority delegation without a revocation mechanism."@,
    {
        "Detects authority delegation without a revocation mechanism."
    }

    /// The default severity of findings from this detector.
    pub fn severity(&self) -> (r: Severity)
        ensures
            r == Severity::High,
    {
        Severity::High
    }

    /// The weakness classification, when one applies.
    pub fn cwe(&self) -> (r: Option<&'static str>)
        ensures
            match r {
                Some(c) => c@ == "CWE-269"@,
                None => false,
            },
    {
        Some("CWE-269")
    }

    /// Remediation advice.
    pub fn remediation(&self) -> (r: &'static str)
        ensures
            r@ == "Pair every delegation with a revocation path and an owner reset."@,
    {
        "Pair every delegation with a revocation path and an owner reset."
    }
}

impl Default for AuthorityDelegationDetector {
    /// The default detector equals a freshly created one.
    fn default() -> (r: AuthorityDelegationDetector)
        ensures
            r == AuthorityDelegationDetector,
    {
        AuthorityDelegationDetector
    }
}

} // verus!
